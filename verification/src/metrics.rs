//! The metrics aggregator: three counters, two gauges and the latency
//! histogram, written by the strategy and read as a snapshot.
//!
//! The histogram counts latencies by slots of neighbouring values and does
//! not keep them. Which latencies were recorded, and in which order, is the
//! aggregator's own knowledge: it notes each one in ghost state beside the
//! histogram, and its invariant holds what the histogram counts to the slots
//! of the latencies noted.
//!
//! Every write takes `&mut self` and the snapshot takes `&self`, so whoever
//! shares an aggregator between tasks guards it with one lock, and a snapshot
//! sees each write whole or not at all.

use crate::histogram::auto_resizing;
use crate::histogram::percentile_value;
use crate::histogram::recorded;
use crate::histogram::significant_digits;
use crate::histogram::slot_floor;
use crate::histogram::LatencyHistogram;
use vstd::multiset::Multiset;
use vstd::prelude::*;

verus! {

/// Significant decimal digits kept by the latency histogram: values are
/// resolved to about one part in a thousand.
pub const LATENCY_SIGFIG: u8 = 3;

/// The mathematical content of an aggregator: what was counted, the latest
/// value of each gauge, and the latencies recorded, in milliseconds and in
/// the order of recording.
pub struct MetricsView {
    pub trades: nat,
    pub decisions: nat,
    pub fills: nat,
    pub pnl: int,
    pub last_price: int,
    pub latencies: Seq<u64>,
}

impl MetricsView {
    /// Nothing counted, both gauges at zero, no sample.
    pub open spec fn start() -> MetricsView {
        MetricsView {
            trades: 0,
            decisions: 0,
            fills: 0,
            pnl: 0,
            last_price: 0,
            latencies: Seq::empty(),
        }
    }

    /// Every counter can still count one more.
    pub open spec fn has_room(self) -> bool {
        &&& self.trades < u64::MAX
        &&& self.decisions < u64::MAX
        &&& self.fills < u64::MAX
        &&& self.latencies.len() < u64::MAX
    }
}

/// What a histogram of `digits` digits counts after `latencies` were recorded
/// into it: for each latency, the lowest value of its slot.
pub open spec fn slots_of(digits: u8, latencies: Seq<u64>) -> Multiset<u64>
    decreases latencies.len(),
{
    if latencies.len() == 0 {
        Multiset::empty()
    } else {
        slots_of(digits, latencies.drop_last()).insert(slot_floor(digits, latencies.last()))
    }
}

/// A histogram counts one value for each latency recorded.
pub proof fn lemma_slots_len(digits: u8, latencies: Seq<u64>)
    ensures
        slots_of(digits, latencies).len() == latencies.len(),
    decreases latencies.len(),
{
    if latencies.len() > 0 {
        lemma_slots_len(digits, latencies.drop_last());
    }
}

/// Every value that a histogram counts is the slot of a latency recorded.
pub proof fn lemma_slot_has_latency(digits: u8, latencies: Seq<u64>, counted: u64)
    requires
        slots_of(digits, latencies).count(counted) > 0,
    ensures
        exists|i: int|
            0 <= i < latencies.len() && slot_floor(digits, #[trigger] latencies[i]) == counted,
    decreases latencies.len(),
{
    if latencies.len() > 0 {
        if slot_floor(digits, latencies.last()) == counted {
            assert(latencies[latencies.len() - 1] == latencies.last());
        } else {
            let earlier = latencies.drop_last();
            lemma_slot_has_latency(digits, earlier, counted);
            let i = choose|i: int|
                0 <= i < earlier.len() && slot_floor(digits, #[trigger] earlier[i]) == counted;
            assert(latencies[i] == earlier[i]);
        }
    }
}

/// A point-in-time copy of the counters, the gauges and three latency
/// percentiles in milliseconds.
#[derive(Clone, Copy, Debug, PartialEq, Eq)]
pub struct MetricsSnapshot {
    pub trades_total: u64,
    pub decisions_total: u64,
    pub fills_total: u64,
    pub pnl: i128,
    pub last_price: i64,
    pub latency_p50: u64,
    pub latency_p90: u64,
    pub latency_p99: u64,
}

/// Counters, gauges and the latency histogram.
pub struct Metrics {
    trades: u64,
    decisions: u64,
    fills: u64,
    pnl: i128,
    last_price: i64,
    latency: LatencyHistogram,
    noted: Ghost<Seq<u64>>,
}

impl View for Metrics {
    type V = MetricsView;

    closed spec fn view(&self) -> MetricsView {
        MetricsView {
            trades: self.trades as nat,
            decisions: self.decisions as nat,
            fills: self.fills as nat,
            pnl: self.pnl as int,
            last_price: self.last_price as int,
            latencies: self.noted@,
        }
    }
}

impl Default for Metrics {
    /// The same as `Metrics::new`.
    fn default() -> (metrics: Metrics)
        ensures
            metrics.wf(),
            metrics@ == MetricsView::start(),
    {
        Metrics::new()
    }
}

impl Metrics {
    /// The histogram that counts the latencies.
    pub closed spec fn latency_state(&self) -> LatencyHistogram {
        self.latency
    }

    /// The histogram's estimate of the latency at a whole percentile.
    pub open spec fn spec_percentile(&self, percentile: u32) -> u64 {
        percentile_value(self.latency_state(), percentile)
    }

    /// The histogram takes every sample and keeps `LATENCY_SIGFIG` digits;
    /// it counts the slot of each latency recorded and nothing else, and no
    /// more of them than it can count.
    pub open spec fn wf(&self) -> bool {
        &&& auto_resizing(self.latency_state())
        &&& significant_digits(self.latency_state()) == LATENCY_SIGFIG
        &&& recorded(self.latency_state()) == slots_of(LATENCY_SIGFIG, self@.latencies)
        &&& self@.latencies.len() <= u64::MAX
    }

    /// An aggregator with every counter and gauge at zero and no latency
    /// sample.
    pub fn new() -> (metrics: Metrics)
        ensures
            metrics.wf(),
            metrics@ == MetricsView::start(),
    {
        let latency = LatencyHistogram::create(LATENCY_SIGFIG).unwrap();
        Metrics {
            trades: 0,
            decisions: 0,
            fills: 0,
            pnl: 0,
            last_price: 0,
            latency,
            noted: Ghost(Seq::empty()),
        }
    }

    /// Counts one trade event.
    pub fn incr_trades(&mut self)
        requires
            old(self)@.trades < u64::MAX,
        ensures
            final(self)@ == (MetricsView { trades: old(self)@.trades + 1, ..old(self)@ }),
            final(self).latency_state() == old(self).latency_state(),
    {
        self.trades = self.trades + 1;
    }

    /// Counts one decision.
    pub fn incr_decisions(&mut self)
        requires
            old(self)@.decisions < u64::MAX,
        ensures
            final(self)@ == (MetricsView { decisions: old(self)@.decisions + 1, ..old(self)@ }),
            final(self).latency_state() == old(self).latency_state(),
    {
        self.decisions = self.decisions + 1;
    }

    /// Counts one fill.
    pub fn incr_fills(&mut self)
        requires
            old(self)@.fills < u64::MAX,
        ensures
            final(self)@ == (MetricsView { fills: old(self)@.fills + 1, ..old(self)@ }),
            final(self).latency_state() == old(self).latency_state(),
    {
        self.fills = self.fills + 1;
    }

    /// Sets the last-price gauge.
    pub fn set_last_price(&mut self, price: i64)
        ensures
            final(self)@ == (MetricsView { last_price: price as int, ..old(self)@ }),
            final(self).latency_state() == old(self).latency_state(),
    {
        self.last_price = price;
    }

    /// Sets the profit-and-loss gauge.
    pub fn set_pnl(&mut self, pnl: i128)
        ensures
            final(self)@ == (MetricsView { pnl: pnl as int, ..old(self)@ }),
            final(self).latency_state() == old(self).latency_state(),
    {
        self.pnl = pnl;
    }

    /// Records one decision latency of `ms` milliseconds.
    pub fn record_latency(&mut self, ms: u64)
        requires
            old(self).wf(),
            old(self)@.latencies.len() < u64::MAX,
        ensures
            final(self).wf(),
            final(self)@ == (MetricsView {
                latencies: old(self)@.latencies.push(ms),
                ..old(self)@
            }),
            recorded(final(self).latency_state()) == recorded(old(self).latency_state()).insert(
                slot_floor(LATENCY_SIGFIG, ms),
            ),
    {
        proof {
            lemma_slots_len(LATENCY_SIGFIG, self.noted@);
        }
        let taken = self.latency.record(ms);
        assert(taken);
        self.noted = Ghost(self.noted@.push(ms));
        assert(self.noted@.drop_last() =~= old(self).noted@);
    }

    /// The number of latency samples recorded.
    pub fn latency_count(&self) -> (n: u64)
        requires
            self.wf(),
        ensures
            n == self@.latencies.len(),
    {
        proof {
            lemma_slots_len(LATENCY_SIGFIG, self@.latencies);
        }
        self.latency.len()
    }

    /// The lowest of the latencies that the histogram counts together with
    /// `ms`: what a recorded `ms` is kept as.
    pub fn latency_slot(&self, ms: u64) -> (slot: u64)
        requires
            self.wf(),
        ensures
            slot == slot_floor(LATENCY_SIGFIG, ms),
    {
        self.latency.lowest_equivalent(ms)
    }

    /// Whether every counter can count one more.
    pub fn has_room(&self) -> (room: bool)
        requires
            self.wf(),
        ensures
            room == self@.has_room(),
    {
        proof {
            lemma_slots_len(LATENCY_SIGFIG, self@.latencies);
        }
        self.trades < u64::MAX && self.decisions < u64::MAX && self.fills < u64::MAX
            && self.latency.len() < u64::MAX
    }

    /// A copy of all counters and gauges, with the histogram's estimate of
    /// the 50th, 90th and 99th percentile of the recorded latencies. The
    /// three are in order; all are 0 while nothing is recorded, and after
    /// that none lies below the slot of every recorded latency.
    pub fn snapshot(&self) -> (snapshot: MetricsSnapshot)
        requires
            self.wf(),
        ensures
            snapshot.trades_total == self@.trades,
            snapshot.decisions_total == self@.decisions,
            snapshot.fills_total == self@.fills,
            snapshot.pnl == self@.pnl,
            snapshot.last_price == self@.last_price,
            snapshot.latency_p50 == self.spec_percentile(50),
            snapshot.latency_p90 == self.spec_percentile(90),
            snapshot.latency_p99 == self.spec_percentile(99),
            snapshot.latency_p50 <= snapshot.latency_p90 <= snapshot.latency_p99,
            self@.latencies.len() == 0 ==> snapshot.latency_p50 == 0 && snapshot.latency_p90 == 0
                && snapshot.latency_p99 == 0,
            self@.latencies.len() > 0 ==> exists|i: int|
                0 <= i < self@.latencies.len() && slot_floor(
                    LATENCY_SIGFIG,
                    #[trigger] self@.latencies[i],
                ) <= snapshot.latency_p50,
    {
        proof {
            lemma_slots_len(LATENCY_SIGFIG, self@.latencies);
        }
        let p50 = self.latency.value_at_percentile(50);
        proof {
            if self@.latencies.len() > 0 {
                let contents = recorded(self.latency);
                let counted = choose|counted: u64|
                    #[trigger] contents.count(counted) > 0 && counted <= p50;
                lemma_slot_has_latency(LATENCY_SIGFIG, self@.latencies, counted);
            }
        }
        MetricsSnapshot {
            trades_total: self.trades,
            decisions_total: self.decisions,
            fills_total: self.fills,
            pnl: self.pnl,
            last_price: self.last_price,
            latency_p50: p50,
            latency_p90: self.latency.value_at_percentile(90),
            latency_p99: self.latency.value_at_percentile(99),
        }
    }
}

} // verus!
