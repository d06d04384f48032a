//! The latency histogram, kept by the `hdrhistogram` crate.
//!
//! Nothing in this file is proved. Each function below makes one call into
//! `hdrhistogram`, and its contract states what that crate's source shows of
//! the call; the rest of the library is verified against these contracts.
//!
//! The crate bounds the counter type of its `Histogram` by a trait of its
//! own, which Verus cannot take in a declaration of the type. The histogram
//! therefore sits in a struct whose body Verus does not read, and is only
//! ever made by `create` below.

use hdrhistogram::Histogram;
use vstd::multiset::Multiset;
use vstd::prelude::*;

verus! {

/// An `hdrhistogram::Histogram<u64>` that resizes itself. Verus sees nothing
/// inside it.
#[verifier::external_body]
pub struct LatencyHistogram {
    inner: Histogram<u64>,
}

/// What a histogram counts. The crate keeps no samples, only one counter for
/// each slot of neighbouring values: this is, for each slot, as many copies
/// of the slot's lowest value as its counter says.
pub uninterp spec fn recorded(h: LatencyHistogram) -> Multiset<u64>;

/// The significant decimal digits that a histogram keeps
/// (`Histogram::sigfig`).
pub uninterp spec fn significant_digits(h: LatencyHistogram) -> u8;

/// What `Histogram::lowest_equivalent` returns for `value` in a histogram
/// made by `create` with `digits` digits: the lowest of the values that such
/// a histogram counts in one slot with `value`.
pub uninterp spec fn slot_floor(digits: u8, value: u64) -> u64;

/// Whether `value` is not below every value that `contents` holds; true of
/// every value where `contents` is empty.
pub open spec fn not_below_all(contents: Multiset<u64>, value: u64) -> bool {
    contents.len() == 0 || exists|counted: u64|
        #[trigger] contents.count(counted) > 0 && counted <= value
}

/// Whether a histogram grows to take a sample beyond its present range
/// (`Histogram::is_auto_resize`).
pub uninterp spec fn auto_resizing(h: LatencyHistogram) -> bool;

/// What `Histogram::value_at_percentile` returns for a histogram and a whole
/// percentile: the crate's estimate of the sample at that rank.
pub uninterp spec fn percentile_value(h: LatencyHistogram, percentile: u32) -> u64;

impl LatencyHistogram {
    /// `Histogram::<u64>::new`: an empty, auto-resizing histogram that keeps
    /// `sigfig` significant decimal digits. The crate accepts up to five
    /// digits and refuses more; with its lowest value 1 and first range 2 no
    /// other refusal can occur.
    #[verifier::external_body]
    pub(crate) fn create(sigfig: u8) -> (made: Option<LatencyHistogram>)
        ensures
            made is Some <==> sigfig <= 5,
            made matches Some(h) ==> recorded(h) == Multiset::<u64>::empty() && auto_resizing(h)
                && significant_digits(h) == sigfig,
    {
        match Histogram::<u64>::new(sigfig) {
            Ok(inner) => Some(LatencyHistogram { inner }),
            Err(_) => None,
        }
    }

    /// `Histogram::record`: adds one to the counter of the slot that `value`
    /// falls in, so the histogram counts one more value, the lowest of that
    /// slot, which is what `Histogram::lowest_equivalent` gives for `value`. An
    /// auto-resizing histogram first grows to cover the value, which succeeds
    /// for every `u64`; one that does not resize refuses a value out of its
    /// range and is left as it was. Neither changes the digits kept. The
    /// bound keeps the crate's counters below the point where they stop
    /// counting.
    #[verifier::external_body]
    pub(crate) fn record(&mut self, value: u64) -> (taken: bool)
        requires
            recorded(*old(self)).len() < u64::MAX,
        ensures
            taken ==> recorded(*final(self)) == recorded(*old(self)).insert(
                slot_floor(significant_digits(*old(self)), value),
            ),
            !taken ==> *final(self) == *old(self),
            auto_resizing(*old(self)) ==> taken,
            auto_resizing(*final(self)) == auto_resizing(*old(self)),
            significant_digits(*final(self)) == significant_digits(*old(self)),
    {
        self.inner.record(value).is_ok()
    }

    /// `Histogram::lowest_equivalent`: the lowest value of the slot that
    /// `value` falls in. The crate finds the slot from the value and the
    /// digits kept alone, whatever was recorded.
    #[verifier::external_body]
    pub(crate) fn lowest_equivalent(&self, value: u64) -> (slot: u64)
        ensures
            slot == slot_floor(significant_digits(*self), value),
    {
        self.inner.lowest_equivalent(value)
    }

    /// `Histogram::len`: the total of all counters, which is the number of
    /// samples taken so far.
    #[verifier::external_body]
    pub(crate) fn len(&self) -> (n: u64)
        requires
            recorded(*self).len() <= u64::MAX,
        ensures
            n == recorded(*self).len(),
    {
        self.inner.len()
    }

    /// `Histogram::value_at_percentile`, asked for a whole percentile, which
    /// the crate's floating-point argument holds exactly. The crate turns the
    /// percentile into a rank, walks its counters in the order of their
    /// values until their sum reaches the rank, and answers with the value of
    /// the slot where it stops. With nothing recorded it reaches no rank and
    /// answers 0. A percentile up to 99 gives a rank within the number of
    /// samples, and a lower percentile gives no higher rank, so the walk
    /// stops no later and the answer is no greater. Where the walk stops, the
    /// counter is not zero, and the answer is not below that slot's lowest
    /// value.
    #[verifier::external_body]
    pub(crate) fn value_at_percentile(&self, percentile: u32) -> (value: u64)
        requires
            recorded(*self).len() <= u64::MAX,
        ensures
            value == percentile_value(*self, percentile),
            recorded(*self).len() == 0 ==> value == 0,
            percentile <= 99 ==> forall|lower: u32|
                lower <= percentile ==> #[trigger] percentile_value(*self, lower) <= value,
            percentile <= 99 ==> not_below_all(recorded(*self), value),
    {
        self.inner.value_at_percentile(percentile.into())
    }
}

} // verus!
