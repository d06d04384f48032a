//! A fixed-capacity window over the most recent prices.
//!
//! Prices are integers: a count of the smallest price step. The window keeps
//! the running sum of what it holds, so neither a push nor a mean walks it.

use std::collections::VecDeque;
use vstd::prelude::*;

verus! {

/// The sum of a sequence of prices.
pub open spec fn total(prices: Seq<i64>) -> int
    decreases prices.len(),
{
    if prices.len() == 0 {
        0
    } else {
        total(prices.drop_last()) + prices.last()
    }
}

/// The last `n` elements of `prices`, or all of them if there are fewer.
pub open spec fn latest(prices: Seq<i64>, n: nat) -> Seq<i64> {
    if prices.len() <= n {
        prices
    } else {
        prices.skip(prices.len() - n)
    }
}

/// A window of capacity `capacity` that held `prices`, after `price` arrives:
/// the new price goes to the back and the oldest leaves once there is no room.
pub open spec fn pushed(prices: Seq<i64>, capacity: nat, price: i64) -> Seq<i64> {
    latest(prices.push(price), capacity)
}

/// A window of capacity `capacity` after every price of `history`, in order,
/// was pushed into an empty one.
pub open spec fn window_after(capacity: nat, history: Seq<i64>) -> Seq<i64>
    decreases history.len(),
{
    if history.len() == 0 {
        Seq::empty()
    } else {
        pushed(window_after(capacity, history.drop_last()), capacity, history.last())
    }
}

/// The arithmetic mean of `prices`, rounded down to a whole price step.
pub open spec fn mean_floor(prices: Seq<i64>) -> int
    recommends
        prices.len() > 0,
{
    total(prices) / (prices.len() as int)
}

/// Pushing a price adds it to the sum.
proof fn lemma_total_push(prices: Seq<i64>, price: i64)
    ensures
        total(prices.push(price)) == total(prices) + price,
{
    assert(prices.push(price).drop_last() == prices);
}

/// Dropping the first price takes it off the sum.
proof fn lemma_total_drop_first(prices: Seq<i64>)
    requires
        prices.len() > 0,
    ensures
        total(prices.drop_first()) == total(prices) - prices[0],
    decreases prices.len(),
{
    if prices.len() == 1 {
        assert(prices.drop_last() =~= Seq::<i64>::empty());
        assert(prices.drop_first() =~= Seq::<i64>::empty());
    } else {
        lemma_total_drop_first(prices.drop_last());
        assert(prices.drop_first().drop_last() == prices.drop_last().drop_first());
    }
}

/// A sum of `i64` prices lies within the length times the range of one price.
pub proof fn lemma_total_bounds(prices: Seq<i64>)
    ensures
        prices.len() * i64::MIN <= total(prices) <= prices.len() * i64::MAX,
    decreases prices.len(),
{
    if prices.len() > 0 {
        lemma_total_bounds(prices.drop_last());
    }
}

/// However many prices are pushed, a window never holds more than its
/// capacity, and what it holds is the most recent prices in arrival order:
/// all of them while they fit, the last `capacity` of them afterwards.
pub proof fn lemma_window_holds_latest(capacity: nat, history: Seq<i64>)
    requires
        capacity >= 1,
    ensures
        window_after(capacity, history) == latest(history, capacity),
        window_after(capacity, history).len() <= capacity,
        window_after(capacity, history).len() == if history.len() <= capacity {
            history.len()
        } else {
            capacity
        },
    decreases history.len(),
{
    if history.len() > 0 {
        let earlier = history.drop_last();
        lemma_window_holds_latest(capacity, earlier);
        assert(earlier.push(history.last()) == history);
        assert(latest(latest(earlier, capacity).push(history.last()), capacity) =~= latest(
            history,
            capacity,
        ));
    }
}

/// A quotient by a positive divisor brackets the dividend.
proof fn lemma_floor_quotient(x: int, n: int, q: int)
    requires
        n > 0,
        q == x / n,
    ensures
        q * n <= x < (q + 1) * n,
{
    vstd::arithmetic::div_mod::lemma_fundamental_div_mod(x, n);
    vstd::arithmetic::div_mod::lemma_mod_bound(x, n);
    assert(q * n == n * q) by (nonlinear_arith);
    assert((q + 1) * n == q * n + n) by (nonlinear_arith);
}

/// The one integer whose multiples of `n` bracket `x` is the quotient.
proof fn lemma_quotient_bounds(x: int, n: int, q: int)
    requires
        n > 0,
        q * n <= x < (q + 1) * n,
    ensures
        x / n == q,
{
    assert((q + 1) * n == q * n + n) by (nonlinear_arith);
    assert(q * n == n * q) by (nonlinear_arith);
    vstd::arithmetic::div_mod::lemma_fundamental_div_mod_converse(x, n, q, x - q * n);
}

/// A dividend between `n * lo` and `n * hi` has its quotient between `lo` and `hi`.
proof fn lemma_quotient_within(x: int, n: int, lo: int, hi: int)
    requires
        n > 0,
        n * lo <= x <= n * hi,
    ensures
        lo <= x / n <= hi,
{
    let q = x / n;
    lemma_floor_quotient(x, n, q);
    assert(q <= hi) by (nonlinear_arith)
        requires
            n > 0,
            q * n <= x,
            x <= n * hi,
    {
        if q > hi {
            assert(q * n >= (hi + 1) * n);
            assert((hi + 1) * n == n * hi + n);
        }
    }
    assert(lo <= q) by (nonlinear_arith)
        requires
            n > 0,
            x < (q + 1) * n,
            n * lo <= x,
    {
        if q < lo {
            assert((q + 1) * n <= lo * n);
        }
    }
}

/// The most recent prices, at most `capacity` of them, oldest first.
pub struct PriceWindow {
    prices: VecDeque<i64>,
    capacity: u32,
    sum: i128,
}

impl View for PriceWindow {
    type V = Seq<i64>;

    closed spec fn view(&self) -> Seq<i64> {
        self.prices@
    }
}

impl PriceWindow {
    /// The number of prices the window holds when full.
    pub closed spec fn spec_capacity(&self) -> nat {
        self.capacity as nat
    }

    /// The window holds no more than its capacity, which is at least one.
    pub closed spec fn wf(&self) -> bool {
        &&& self.capacity >= 1
        &&& self.prices@.len() <= self.capacity
        &&& self.sum == total(self.prices@)
    }

    /// What `wf` promises of the model.
    pub proof fn lemma_wf(&self)
        requires
            self.wf(),
        ensures
            self.spec_capacity() >= 1,
            self@.len() <= self.spec_capacity(),
            self.spec_capacity() <= u32::MAX,
    {
    }

    /// An empty window that will hold up to `capacity` prices.
    pub fn new(capacity: u32) -> (window: PriceWindow)
        requires
            capacity >= 1,
        ensures
            window.wf(),
            window@ == Seq::<i64>::empty(),
            window.spec_capacity() == capacity,
    {
        PriceWindow { prices: VecDeque::new(), capacity, sum: 0 }
    }

    /// Appends `price`; a full window first gives up its oldest price.
    pub fn push(&mut self, price: i64)
        requires
            old(self).wf(),
        ensures
            final(self).wf(),
            final(self).spec_capacity() == old(self).spec_capacity(),
            final(self)@ == pushed(old(self)@, old(self).spec_capacity(), price),
            final(self)@.len() <= final(self).spec_capacity(),
    {
        proof {
            lemma_total_bounds(self.prices@);
        }
        if self.prices.len() >= self.capacity as usize {
            let oldest = self.prices.pop_front();
            proof {
                lemma_total_drop_first(old(self).prices@);
                lemma_total_bounds(self.prices@);
            }
            match oldest {
                Some(p) => {
                    self.sum = self.sum - p as i128;
                },
                None => {},
            }
        }
        proof {
            lemma_total_push(self.prices@, price);
        }
        self.prices.push_back(price);
        self.sum = self.sum + price as i128;
        assert(self.prices@ =~= pushed(old(self)@, old(self).spec_capacity(), price));
    }

    /// The number of prices held.
    pub fn len(&self) -> (n: usize)
        ensures
            n == self@.len(),
    {
        self.prices.len()
    }

    /// The price at `index`, counted from the oldest; `None` past the end.
    pub fn get(&self, index: usize) -> (price: Option<i64>)
        ensures
            price == if index < self@.len() {
                Some(self@[index as int])
            } else {
                None
            },
    {
        if index < self.prices.len() {
            Some(self.prices[index])
        } else {
            None
        }
    }

    /// The capacity the window was made with.
    pub fn capacity(&self) -> (n: u32)
        ensures
            n == self.spec_capacity(),
    {
        self.capacity
    }

    /// Whether the window holds as many prices as its capacity.
    pub fn is_full(&self) -> (full: bool)
        ensures
            full == (self@.len() == self.spec_capacity()),
    {
        self.prices.len() == self.capacity as usize
    }

    /// The mean of the prices held, rounded down to a whole price step.
    pub fn mean(&self) -> (mean: i64)
        requires
            self.wf(),
            self@.len() > 0,
        ensures
            mean == mean_floor(self@),
    {
        let n: i128 = self.prices.len() as i128;
        proof {
            lemma_total_bounds(self.prices@);
        }
        if self.sum >= 0 {
            let q: i128 = self.sum / n;
            proof {
                lemma_floor_quotient(self.sum as int, n as int, q as int);
                lemma_quotient_within(self.sum as int, n as int, i64::MIN as int, i64::MAX as int);
            }
            q as i64
        } else {
            let up: i128 = (-self.sum + (n - 1)) / n;
            proof {
                lemma_floor_quotient(-self.sum + (n - 1), n as int, up as int);
                assert((-up) * n == -(up * n)) by (nonlinear_arith);
                assert((-up + 1) * n == -(up * n) + n) by (nonlinear_arith);
                assert((up + 1) * n == up * n + n) by (nonlinear_arith);
                lemma_quotient_bounds(self.sum as int, n as int, -up);
                lemma_quotient_within(self.sum as int, n as int, i64::MIN as int, i64::MAX as int);
            }
            (-up) as i64
        }
    }

    /// The sum of the prices held.
    pub fn sum(&self) -> (sum: i128)
        requires
            self.wf(),
        ensures
            sum == total(self@),
    {
        self.sum
    }
}

} // verus!
