//! The paper-trading ledger: one unit bought or sold at the current price.
//!
//! Cash and equity are exact integers in price steps, so that equity is cash
//! plus the marked value of the position with no rounding.

use crate::signal::PositionState;
use crate::signal::Signal;
use vstd::prelude::*;

verus! {

/// The size of every position: the ledger holds this many units or none.
pub const UNIT_SIZE: u64 = 1;

/// The largest magnitude of cash a ledger keeps. One more fill at any `i64`
/// price, in either direction, still fits an `i128` from there.
pub const CASH_LIMIT: i128 = 0x4000_0000_0000_0000_0000_0000_0000_0000;

/// The most that one fill can move cash: the magnitude of the lowest `i64`.
pub const FILL_LIMIT: i128 = 0x8000_0000_0000_0000;

/// Cash plus the value of `quantity` units at `price`.
pub open spec fn equity_of(cash: int, quantity: int, price: int) -> int {
    cash + quantity * price
}

/// The mathematical content of a ledger.
pub struct LedgerView {
    pub quantity: nat,
    pub cash: int,
}

impl LedgerView {
    /// A ledger with no position and no cash.
    pub open spec fn start() -> LedgerView {
        LedgerView { quantity: 0, cash: 0 }
    }

    /// The position state that the quantity stands for.
    pub open spec fn position(self) -> PositionState {
        if self.quantity > 0 {
            PositionState::Long
        } else {
            PositionState::Flat
        }
    }

    /// Whether `signal` may be applied: a buy needs no position, a sell needs
    /// the unit that it closes.
    pub open spec fn admits(self, signal: Signal) -> bool {
        match signal {
            Signal::Hold => true,
            Signal::Buy => self.quantity == 0,
            Signal::Sell => self.quantity == UNIT_SIZE,
        }
    }

    /// The ledger after `signal` is filled at `price`: a buy pays the price
    /// of one unit and holds it, a sell gives the unit up and is paid.
    pub open spec fn filled(self, signal: Signal, price: int) -> LedgerView {
        match signal {
            Signal::Hold => self,
            Signal::Buy => LedgerView {
                quantity: UNIT_SIZE as nat,
                cash: self.cash - price * UNIT_SIZE,
            },
            Signal::Sell => LedgerView { quantity: 0, cash: self.cash + price * UNIT_SIZE },
        }
    }

    /// Cash plus the position marked at `price`.
    pub open spec fn equity(self, price: int) -> int {
        equity_of(self.cash, self.quantity as int, price)
    }

    /// Whether cash stays within the limit after one more fill at any price.
    pub open spec fn has_room(self) -> bool {
        -(CASH_LIMIT - FILL_LIMIT) <= self.cash <= CASH_LIMIT - FILL_LIMIT
    }

    /// The quantity is none or one unit, and cash is within the limit.
    pub open spec fn valid(self) -> bool {
        &&& self.quantity == 0 || self.quantity == UNIT_SIZE
        &&& -CASH_LIMIT <= self.cash <= CASH_LIMIT
    }
}

/// Position and cash of the paper trader.
pub struct Ledger {
    quantity: u64,
    cash: i128,
}

impl View for Ledger {
    type V = LedgerView;

    closed spec fn view(&self) -> LedgerView {
        LedgerView { quantity: self.quantity as nat, cash: self.cash as int }
    }
}

impl Ledger {
    /// A ledger with no position and no cash.
    pub fn new() -> (ledger: Ledger)
        ensures
            ledger@ == LedgerView::start(),
            ledger@.valid(),
    {
        Ledger { quantity: 0, cash: 0 }
    }

    /// Fills `signal` at `price`. The caller's state machine guarantees that
    /// a buy meets no position and a sell meets one.
    pub fn apply_fill(&mut self, signal: Signal, price: i64)
        requires
            old(self)@.valid(),
            old(self)@.admits(signal),
            old(self)@.filled(signal, price as int).valid(),
        ensures
            final(self)@ == old(self)@.filled(signal, price as int),
    {
        match signal {
            Signal::Hold => {},
            Signal::Buy => {
                self.quantity = UNIT_SIZE;
                self.cash = self.cash - price as i128;
            },
            Signal::Sell => {
                self.quantity = 0;
                self.cash = self.cash + price as i128;
            },
        }
    }

    /// Cash plus the position marked at `current_price`.
    pub fn equity(&self, current_price: i64) -> (equity: i128)
        requires
            self@.valid(),
        ensures
            equity == self@.cash + self@.quantity * current_price,
            equity == self@.equity(current_price as int),
    {
        if self.quantity == 0 {
            self.cash
        } else {
            self.cash + current_price as i128
        }
    }

    /// Whether cash stays within the limit after one more fill at any price.
    pub fn has_room(&self) -> (room: bool)
        ensures
            room == self@.has_room(),
    {
        -(CASH_LIMIT - FILL_LIMIT) <= self.cash && self.cash <= CASH_LIMIT - FILL_LIMIT
    }

    /// Flat with no units, long with one.
    pub fn position(&self) -> (state: PositionState)
        ensures
            state == self@.position(),
    {
        if self.quantity > 0 {
            PositionState::Long
        } else {
            PositionState::Flat
        }
    }

    /// The units held: none or `UNIT_SIZE`.
    pub fn quantity(&self) -> (quantity: u64)
        ensures
            quantity == self@.quantity,
    {
        self.quantity
    }

    /// The cash balance, negative while a unit bought is not yet sold at a
    /// profit.
    pub fn cash(&self) -> (cash: i128)
        ensures
            cash == self@.cash,
    {
        self.cash
    }
}

} // verus!
