//! What the strategy can decide, and the position it holds.

use vstd::prelude::*;

verus! {

/// The outcome of evaluating one trade event.
#[derive(Clone, Copy, Debug, PartialEq, Eq, Structural)]
pub enum Signal {
    /// Nothing to do: no order is placed.
    Hold,
    /// Open a position of one unit.
    Buy,
    /// Close the open position.
    Sell,
}

/// The two states of the strategy: no position, or one unit held.
#[derive(Clone, Copy, Debug, PartialEq, Eq, Structural)]
pub enum PositionState {
    /// No position is held.
    Flat,
    /// One unit is held.
    Long,
}

} // verus!
