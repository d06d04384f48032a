//! The strategy engine: a sequential reducer over trade events.
//!
//! Each event's price enters the window. Once the window is full the price is
//! held against a band around the moving average; leaving the band on the
//! right side changes the position, and the ledger and the metrics follow.
//!
//! The moving average of integer prices is a fraction, so the band test is
//! stated and computed on the window's sum: with `n` prices of sum `s`,
//! `price > (s / n) * (1 + bps / 10000)` holds exactly when
//! `price * n * 10000 > s * (10000 + bps)`.

use crate::event::TradeEvent;
use crate::histogram::recorded;
use crate::histogram::slot_floor;
use crate::ledger::Ledger;
use crate::ledger::LedgerView;
use crate::metrics::Metrics;
use crate::metrics::MetricsView;
use crate::metrics::LATENCY_SIGFIG;
use crate::signal::PositionState;
use crate::signal::Signal;
use crate::window::lemma_total_bounds;
use crate::window::pushed;
use crate::window::total;
use crate::window::PriceWindow;
use vstd::prelude::*;

verus! {

/// Basis points in one: a threshold of `bps` widens the band by `bps / 10000`
/// of the moving average on each side.
pub const BPS_SCALE: i128 = 10000;

/// Whether `price` lies strictly above the upper edge of the band around the
/// mean of `n` prices whose sum is `sum`.
pub open spec fn above_band(price: int, sum: int, n: int, bps: int) -> bool {
    price * n * BPS_SCALE > sum * (BPS_SCALE + bps)
}

/// Whether `price` lies strictly below the lower edge of the band around the
/// mean of `n` prices whose sum is `sum`.
pub open spec fn below_band(price: int, sum: int, n: int, bps: int) -> bool {
    price * n * BPS_SCALE < sum * (BPS_SCALE - bps)
}

/// The transition rule on a full window: flat and above the band buys, long
/// and below the band sells, anything else holds. A price on an edge of the
/// band holds.
pub open spec fn signal_for(position: PositionState, price: int, sum: int, n: int, bps: int) -> Signal {
    if position == PositionState::Flat && above_band(price, sum, n, bps) {
        Signal::Buy
    } else if position == PositionState::Long && below_band(price, sum, n, bps) {
        Signal::Sell
    } else {
        Signal::Hold
    }
}

/// The decision on `price`, the newest in a window that holds `prices` and
/// has room for `capacity`: none before the window is full.
pub open spec fn band_signal(
    position: PositionState,
    prices: Seq<i64>,
    capacity: nat,
    price: i64,
    bps: nat,
) -> Signal {
    if prices.len() < capacity {
        Signal::Hold
    } else {
        signal_for(position, price as int, total(prices), prices.len() as int, bps as int)
    }
}

/// The latency of a decision taken at `now_ms` on an event stamped
/// `exchange_time_ms`: their distance, or zero if the stamp lies ahead.
pub open spec fn latency_ms(now_ms: u64, exchange_time_ms: u64) -> u64 {
    if now_ms >= exchange_time_ms {
        (now_ms - exchange_time_ms) as u64
    } else {
        0
    }
}

/// The two band tests, on quantities that fit the machine.
proof fn lemma_band_arithmetic(price: int, n: int, sum: int, bps: int)
    requires
        i64::MIN <= price <= i64::MAX,
        1 <= n <= u32::MAX,
        n * i64::MIN <= sum <= n * i64::MAX,
        0 <= bps <= u32::MAX,
    ensures
        -0x1_0000_0000_0000_0000_0000_0000 <= price * n - sum <= 0x1_0000_0000_0000_0000_0000_0000,
        -0x8000_0000_0000_0000_0000_0000_0000_0000 < sum * bps
            < 0x8000_0000_0000_0000_0000_0000_0000_0000,
        above_band(price, sum, n, bps) == ((price * n - sum) * BPS_SCALE > sum * bps),
        below_band(price, sum, n, bps) == ((price * n - sum) * BPS_SCALE < -(sum * bps)),
{
    assert(n * i64::MIN <= price * n <= n * i64::MAX) by (nonlinear_arith)
        requires
            i64::MIN <= price <= i64::MAX,
            1 <= n,
    ;
    let bound: int = 0x8000_0000_0000_0000_0000_0000;
    assert(-bound < n * i64::MIN);
    assert(n * i64::MAX < bound);
    assert(-bound * 0x1_0000_0000 < sum * bps < bound * 0x1_0000_0000) by (nonlinear_arith)
        requires
            -bound < sum < bound,
            0 <= bps < 0x1_0000_0000,
            bound > 0,
    ;
    assert(price * n * BPS_SCALE == (price * n - sum) * BPS_SCALE + sum * BPS_SCALE)
        by (nonlinear_arith);
    assert(sum * (BPS_SCALE + bps) == sum * BPS_SCALE + sum * bps) by (nonlinear_arith);
    assert(sum * (BPS_SCALE - bps) == sum * BPS_SCALE - sum * bps) by (nonlinear_arith);
}

/// Decides on `price`, which `window` has just taken in.
pub fn evaluate(
    position: PositionState,
    window: &PriceWindow,
    price: i64,
    threshold_bps: u32,
) -> (signal: Signal)
    requires
        window.wf(),
    ensures
        signal == band_signal(
            position,
            window@,
            window.spec_capacity(),
            price,
            threshold_bps as nat,
        ),
{
    proof {
        window.lemma_wf();
        lemma_total_bounds(window@);
    }
    if !window.is_full() {
        return Signal::Hold;
    }
    let n: i128 = window.len() as i128;
    let sum: i128 = window.sum();
    proof {
        lemma_band_arithmetic(price as int, n as int, sum as int, threshold_bps as int);
    }
    let spread: i128 = (price as i128) * n - sum;
    let lhs: i128 = spread * BPS_SCALE;
    let rhs: i128 = sum * (threshold_bps as i128);
    match position {
        PositionState::Flat => {
            if lhs > rhs {
                Signal::Buy
            } else {
                Signal::Hold
            }
        },
        PositionState::Long => {
            if lhs < -rhs {
                Signal::Sell
            } else {
                Signal::Hold
            }
        },
    }
}

/// The latency to record for a decision taken at `now_ms`.
pub fn latency_of(now_ms: u64, exchange_time_ms: u64) -> (ms: u64)
    ensures
        ms == latency_ms(now_ms, exchange_time_ms),
{
    now_ms.saturating_sub(exchange_time_ms)
}

/// The mathematical content of an engine: the window, the band's width and
/// the ledger. The position is read off the ledger.
pub struct EngineView {
    pub window: Seq<i64>,
    pub capacity: nat,
    pub threshold_bps: nat,
    pub ledger: LedgerView,
}

impl EngineView {
    /// An engine that has seen no event: empty window, flat, no cash.
    pub open spec fn start(capacity: nat, threshold_bps: nat) -> EngineView {
        EngineView { window: Seq::empty(), capacity, threshold_bps, ledger: LedgerView::start() }
    }

    /// Flat or long, as the ledger's quantity says.
    pub open spec fn position(self) -> PositionState {
        self.ledger.position()
    }

    /// The signal that an event at `price` produces in this state.
    pub open spec fn signal_on(self, price: i64) -> Signal {
        band_signal(
            self.position(),
            pushed(self.window, self.capacity, price),
            self.capacity,
            price,
            self.threshold_bps,
        )
    }

    /// The state after an event at `price`: the window has taken the price
    /// and the ledger has filled the signal at it.
    pub open spec fn after(self, price: i64) -> EngineView {
        EngineView {
            window: pushed(self.window, self.capacity, price),
            ledger: self.ledger.filled(self.signal_on(price), price as int),
            ..self
        }
    }

    /// The state after events at `prices`, in order.
    pub open spec fn after_all(self, prices: Seq<i64>) -> EngineView
        decreases prices.len(),
    {
        if prices.len() == 0 {
            self
        } else {
            self.after_all(prices.drop_last()).after(prices.last())
        }
    }

    /// The signals that events at `prices` produce, one for each, in order.
    pub open spec fn signals(self, prices: Seq<i64>) -> Seq<Signal>
        decreases prices.len(),
    {
        if prices.len() == 0 {
            Seq::empty()
        } else {
            self.signals(prices.drop_last()).push(
                self.after_all(prices.drop_last()).signal_on(prices.last()),
            )
        }
    }

    /// The window is within its capacity, which is at least one, and the
    /// ledger is valid.
    pub open spec fn valid(self) -> bool {
        &&& 1 <= self.capacity <= u32::MAX
        &&& self.window.len() <= self.capacity
        &&& self.threshold_bps <= u32::MAX
        &&& self.ledger.valid()
    }
}

impl MetricsView {
    /// The metrics after an event at `price` on which the engine decided
    /// `signal`: the trade is counted and its price is the last price; a
    /// buy or sell also counts a decision and a fill, adds its latency to
    /// the samples and sets the profit-and-loss gauge to the ledger's equity.
    pub open spec fn noted(self, signal: Signal, price: i64, latency: u64, equity: int) -> MetricsView {
        if signal == Signal::Hold {
            MetricsView { trades: self.trades + 1, last_price: price as int, ..self }
        } else {
            MetricsView {
                trades: self.trades + 1,
                last_price: price as int,
                decisions: self.decisions + 1,
                fills: self.fills + 1,
                pnl: equity,
                latencies: self.latencies.push(latency),
            }
        }
    }
}

/// The strategy engine. It owns the price window and the ledger; the metrics
/// aggregator is handed to it with each event.
pub struct Engine {
    window: PriceWindow,
    ledger: Ledger,
    threshold_bps: u32,
}

impl View for Engine {
    type V = EngineView;

    closed spec fn view(&self) -> EngineView {
        EngineView {
            window: self.window@,
            capacity: self.window.spec_capacity(),
            threshold_bps: self.threshold_bps as nat,
            ledger: self.ledger@,
        }
    }
}

impl Engine {
    /// The window and the ledger are well formed.
    pub closed spec fn wf(&self) -> bool {
        &&& self.window.wf()
        &&& self.ledger@.valid()
    }

    /// What `wf` promises of the model.
    pub proof fn lemma_wf(&self)
        requires
            self.wf(),
        ensures
            self@.valid(),
    {
        self.window.lemma_wf();
    }

    /// An engine with an empty window of `window_size` prices, a band of
    /// `threshold_bps` basis points on each side of the moving average, no
    /// position and no cash.
    pub fn new(window_size: u32, threshold_bps: u32) -> (engine: Engine)
        requires
            window_size >= 1,
        ensures
            engine.wf(),
            engine@ == EngineView::start(window_size as nat, threshold_bps as nat),
    {
        Engine { window: PriceWindow::new(window_size), ledger: Ledger::new(), threshold_bps }
    }

    /// Takes one trade event, arrived at `now_ms`.
    ///
    /// The price enters the window, the trade is counted and its price
    /// becomes the last price. If the window is full and the price leaves
    /// the band on the side that the position allows, the signal is filled
    /// at the price, and the metrics take the decision, its latency, the
    /// fill and the ledger's equity in one step.
    pub fn on_event(&mut self, metrics: &mut Metrics, event: &TradeEvent, now_ms: u64) -> (signal:
        Signal)
        requires
            old(self).wf(),
            old(self)@.ledger.has_room(),
            old(metrics).wf(),
            old(metrics)@.has_room(),
        ensures
            final(self).wf(),
            signal == old(self)@.signal_on(event@.price),
            final(self)@ == old(self)@.after(event@.price),
            final(metrics).wf(),
            final(metrics)@ == old(metrics)@.noted(
                signal,
                event@.price,
                latency_ms(now_ms, event@.exchange_time_ms),
                final(self)@.ledger.equity(event@.price as int),
            ),
            signal == Signal::Hold ==> final(metrics).latency_state() == old(metrics).latency_state(),
            signal != Signal::Hold ==> recorded(final(metrics).latency_state()) == recorded(
                old(metrics).latency_state(),
            ).insert(slot_floor(LATENCY_SIGFIG, latency_ms(now_ms, event@.exchange_time_ms))),
    {
        let price = event.price();
        self.window.push(price);
        metrics.incr_trades();
        metrics.set_last_price(price);
        let signal = evaluate(self.ledger.position(), &self.window, price, self.threshold_bps);
        match signal {
            Signal::Hold => {},
            _ => {
                let latency = latency_of(now_ms, event.exchange_time_ms());
                metrics.record_latency(latency);
                metrics.incr_decisions();
                self.ledger.apply_fill(signal, price);
                metrics.incr_fills();
                metrics.set_pnl(self.ledger.equity(price));
            },
        }
        signal
    }

    /// Whether the ledger's cash leaves room for one more fill at any price.
    pub fn has_room(&self) -> (room: bool)
        ensures
            room == self@.ledger.has_room(),
    {
        self.ledger.has_room()
    }

    /// Flat or long.
    pub fn position(&self) -> (state: PositionState)
        ensures
            state == self@.position(),
    {
        self.ledger.position()
    }

    /// The price window.
    pub fn window(&self) -> (window: &PriceWindow)
        ensures
            window@ == self@.window,
            window.spec_capacity() == self@.capacity,
            self.wf() ==> window.wf(),
    {
        &self.window
    }

    /// The ledger.
    pub fn ledger(&self) -> (ledger: &Ledger)
        ensures
            ledger@ == self@.ledger,
    {
        &self.ledger
    }

    /// The width of the band on each side of the moving average, in basis
    /// points.
    pub fn threshold_bps(&self) -> (bps: u32)
        ensures
            bps == self@.threshold_bps,
    {
        self.threshold_bps
    }
}

} // verus!
