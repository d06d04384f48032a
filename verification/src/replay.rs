//! What holds of an engine over a whole sequence of events.
//!
//! The engine is a reducer, so a run is the fold of its step over the events
//! in arrival order. The lemmas here speak of such folds: of the signals they
//! produce and of the metrics they leave behind.

use crate::metrics::MetricsView;
use crate::signal::Signal;
use crate::strategy::latency_ms;
use crate::strategy::EngineView;
use crate::strategy::BPS_SCALE;
use crate::window::pushed;
use crate::window::total;
use vstd::prelude::*;

verus! {

/// What the engine reads of one event: its price, the exchange's time stamp
/// and the time at which it arrived.
pub struct Tick {
    pub price: i64,
    pub exchange_time_ms: u64,
    pub now_ms: u64,
}

/// The prices of `ticks`, in order.
pub open spec fn prices_of(ticks: Seq<Tick>) -> Seq<i64> {
    Seq::new(ticks.len(), |i: int| ticks[i].price)
}

/// The number of signals in `signals` that are a buy or a sell.
pub open spec fn decisions_in(signals: Seq<Signal>) -> nat
    decreases signals.len(),
{
    if signals.len() == 0 {
        0
    } else {
        decisions_in(signals.drop_last()) + if signals.last() == Signal::Hold {
            0nat
        } else {
            1nat
        }
    }
}

impl MetricsView {
    /// The metrics after the engine, in state `engine`, has taken `tick`.
    pub open spec fn after_tick(self, engine: EngineView, tick: Tick) -> MetricsView {
        self.noted(
            engine.signal_on(tick.price),
            tick.price,
            latency_ms(tick.now_ms, tick.exchange_time_ms),
            engine.after(tick.price).ledger.equity(tick.price as int),
        )
    }

    /// The metrics after the engine, starting in state `engine`, has taken
    /// `ticks` in order.
    pub open spec fn after_ticks(self, engine: EngineView, ticks: Seq<Tick>) -> MetricsView
        decreases ticks.len(),
    {
        if ticks.len() == 0 {
            self
        } else {
            self.after_ticks(engine, ticks.drop_last()).after_tick(
                engine.after_all(prices_of(ticks.drop_last())),
                ticks.last(),
            )
        }
    }
}

/// The sum of a sequence that repeats one price.
proof fn lemma_total_constant(prices: Seq<i64>, price: i64)
    requires
        forall|j: int| 0 <= j < prices.len() ==> prices[j] == price,
    ensures
        total(prices) == prices.len() * price,
    decreases prices.len(),
{
    if prices.len() > 0 {
        lemma_total_constant(prices.drop_last(), price);
        assert(prices.len() * price == (prices.len() - 1) * price + price) by (nonlinear_arith);
    }
}

/// A run keeps the capacity and the threshold, and its window grows by one
/// price per event until it is full.
pub proof fn lemma_run_window(start: EngineView, prices: Seq<i64>)
    requires
        start.window.len() <= start.capacity,
    ensures
        start.after_all(prices).capacity == start.capacity,
        start.after_all(prices).threshold_bps == start.threshold_bps,
        start.after_all(prices).window.len() == if start.window.len() + prices.len()
            <= start.capacity {
            start.window.len() + prices.len()
        } else {
            start.capacity
        },
    decreases prices.len(),
{
    if prices.len() > 0 {
        lemma_run_window(start, prices.drop_last());
    }
}

/// A run produces one signal for each event: the one that the state reached
/// by the events before it gives to the event's price.
pub proof fn lemma_signal_at(start: EngineView, prices: Seq<i64>, i: int)
    requires
        0 <= i < prices.len(),
    ensures
        start.signals(prices).len() == prices.len(),
        start.signals(prices)[i] == start.after_all(prices.take(i)).signal_on(prices[i]),
    decreases prices.len(),
{
    let earlier = prices.drop_last();
    lemma_signals_len(start, earlier);
    if i == prices.len() - 1 {
        assert(prices.take(i) == earlier);
    } else {
        lemma_signal_at(start, earlier, i);
        assert(earlier.take(i) == prices.take(i));
    }
}

proof fn lemma_signals_len(start: EngineView, prices: Seq<i64>)
    ensures
        start.signals(prices).len() == prices.len(),
    decreases prices.len(),
{
    if prices.len() > 0 {
        lemma_signals_len(start, prices.drop_last());
    }
}

/// No decision is taken before the window is full: whatever the prices, an
/// engine with a window of `capacity` that starts empty holds on each of the
/// first `capacity - 1` events.
pub proof fn lemma_no_signal_before_full(
    capacity: nat,
    threshold_bps: nat,
    prices: Seq<i64>,
    i: int,
)
    requires
        capacity >= 1,
        0 <= i < prices.len(),
        i < capacity - 1,
    ensures
        EngineView::start(capacity, threshold_bps).signals(prices)[i] == Signal::Hold,
{
    let start = EngineView::start(capacity, threshold_bps);
    lemma_signal_at(start, prices, i);
    lemma_run_window(start, prices.take(i));
}

/// A constant price never trades. Where every price in the window and every
/// price that arrives is the same `price`, not below zero, the mean is that
/// price, neither strict inequality of the band holds, and every event holds
/// whatever the position; the ledger is left as it was. A threshold of zero
/// gives the same for a price below zero.
pub proof fn lemma_constant_price_holds(start: EngineView, price: i64, prices: Seq<i64>)
    requires
        start.window.len() <= start.capacity,
        forall|j: int| 0 <= j < start.window.len() ==> start.window[j] == price,
        forall|j: int| 0 <= j < prices.len() ==> prices[j] == price,
        price >= 0 || start.threshold_bps == 0,
    ensures
        start.signals(prices).len() == prices.len(),
        forall|i: int| 0 <= i < prices.len() ==> start.signals(prices)[i] == Signal::Hold,
        start.after_all(prices).ledger == start.ledger,
        forall|j: int|
            0 <= j < start.after_all(prices).window.len() ==> start.after_all(prices).window[j]
                == price,
    decreases prices.len(),
{
    lemma_signals_len(start, prices);
    if prices.len() > 0 {
        let earlier = prices.drop_last();
        lemma_constant_price_holds(start, price, earlier);
        lemma_run_window(start, earlier);
        let before = start.after_all(earlier);
        let window = pushed(before.window, before.capacity, price);
        assert(forall|j: int| 0 <= j < window.len() ==> window[j] == price);
        lemma_total_constant(window, price);
        let n = window.len() as int;
        let bps = before.threshold_bps as int;
        assert(!(price * n * BPS_SCALE > (n * price) * (BPS_SCALE + bps))) by (nonlinear_arith)
            requires
                n >= 0,
                bps >= 0,
                price >= 0 || bps == 0,
        ;
        assert(!(price * n * BPS_SCALE < (n * price) * (BPS_SCALE - bps))) by (nonlinear_arith)
            requires
                n >= 0,
                bps >= 0,
                price >= 0 || bps == 0,
        ;
        assert(before.signal_on(price) == Signal::Hold);
        assert forall|i: int| 0 <= i < prices.len() implies start.signals(prices)[i]
            == Signal::Hold by {
            if i < prices.len() - 1 {
                assert(start.signals(prices)[i] == start.signals(earlier)[i]);
            }
        }
    }
}

/// The metrics keep step with the decisions. Over any run, from any state of
/// engine and metrics, the trade counter grows by the number of events, and
/// the decision counter, the fill counter and the number of latency samples
/// each grow by the number of buy and sell signals of the run.
pub proof fn lemma_metrics_count_decisions(engine: EngineView, metrics: MetricsView, ticks: Seq<Tick>)
    ensures
        metrics.after_ticks(engine, ticks).trades == metrics.trades + ticks.len(),
        metrics.after_ticks(engine, ticks).decisions == metrics.decisions + decisions_in(
            engine.signals(prices_of(ticks)),
        ),
        metrics.after_ticks(engine, ticks).fills == metrics.fills + decisions_in(
            engine.signals(prices_of(ticks)),
        ),
        metrics.after_ticks(engine, ticks).latencies.len() == metrics.latencies.len()
            + decisions_in(engine.signals(prices_of(ticks))),
    decreases ticks.len(),
{
    if ticks.len() > 0 {
        let earlier = ticks.drop_last();
        lemma_metrics_count_decisions(engine, metrics, earlier);
        assert(prices_of(ticks).drop_last() == prices_of(earlier));
        let signals = engine.signals(prices_of(ticks));
        assert(signals.drop_last() == engine.signals(prices_of(earlier)));
    }
}

/// From a fresh aggregator, a run with exactly `k` buy and sell signals
/// leaves the decision counter at `k` and exactly `k` latency samples.
pub proof fn lemma_fresh_metrics_count_decisions(engine: EngineView, ticks: Seq<Tick>, k: nat)
    requires
        decisions_in(engine.signals(prices_of(ticks))) == k,
    ensures
        MetricsView::start().after_ticks(engine, ticks).decisions == k,
        MetricsView::start().after_ticks(engine, ticks).latencies.len() == k,
        MetricsView::start().after_ticks(engine, ticks).fills == k,
{
    lemma_metrics_count_decisions(engine, MetricsView::start(), ticks);
}

} // verus!
