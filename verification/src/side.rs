//! The two market sides and their sign / slot-index conventions.

use vstd::prelude::*;

verus! {

/// A market side: resting sell interest (`Ask`) or resting buy interest
/// (`Bid`). Supplies the sign convention used to step from the best price
/// toward worse prices, and a fixed slot index for per-side storage.
#[derive(Clone, Copy, Debug, PartialEq, Eq, Structural)]
pub enum Side {
    Ask,
    Bid,
}

impl Side {
    /// Direction of improving prices for this side: +1 for Bid (higher is
    /// better), -1 for Ask (lower is better).
    pub open spec fn spec_sign(self) -> int {
        match self {
            Side::Ask => -1,
            Side::Bid => 1,
        }
    }

    /// The storage slot this side occupies in a two-sided quote level.
    pub open spec fn spec_idx(self) -> int {
        match self {
            Side::Ask => 1,
            Side::Bid => 0,
        }
    }

    pub fn side_sign(&self) -> (r: i64)
        ensures
            r == self.spec_sign(),
    {
        match self {
            Side::Ask => -1,
            Side::Bid => 1,
        }
    }

    pub fn side_idx(&self) -> (r: usize)
        ensures
            r == self.spec_idx(),
    {
        match self {
            Side::Ask => 1,
            Side::Bid => 0,
        }
    }
}

} // verus!
