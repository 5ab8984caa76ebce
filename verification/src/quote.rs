//! Per-price-level state: one side's resting interest, and the two-sided
//! quote level that pairs them.

use vstd::prelude::*;
use crate::side::Side;
use crate::{Time, Volume};

verus! {

/// One side's state at one price: the time of the last update and the
/// resting volume. Volume 0 means the side is absent at that level.
#[derive(Clone, Copy, Debug, PartialEq, Eq, Structural)]
pub struct QuoteSide {
    pub time: Time,
    pub volume: Volume,
}

impl QuoteSide {
    /// The state of a level nobody has touched: no volume, no update time.
    pub open spec fn spec_zero() -> QuoteSide {
        QuoteSide { time: 0, volume: 0 }
    }

    pub fn zero() -> (r: QuoteSide)
        ensures
            r == QuoteSide::spec_zero(),
    {
        QuoteSide { time: 0, volume: 0 }
    }
}

/// A two-sided quote at a single price: one `QuoteSide` per side, held in
/// the slot that `Side::side_idx` names (slot 0 Bid, slot 1 Ask).
#[derive(Clone, Copy, Debug, PartialEq, Eq, Structural)]
pub struct QuoteL2 {
    pub bid: QuoteSide,
    pub ask: QuoteSide,
}

impl QuoteL2 {
    /// The named side's slot.
    pub open spec fn spec_side(self, side: Side) -> QuoteSide {
        match side {
            Side::Bid => self.bid,
            Side::Ask => self.ask,
        }
    }

    /// The named side's resting volume.
    pub open spec fn spec_volume_at(self, side: Side) -> u64 {
        self.spec_side(side).volume
    }

    /// Combined volume of both sides, clamped at `u64::MAX` where the
    /// mathematical sum does not fit.
    pub open spec fn spec_volume_total(self) -> u64 {
        if self.bid.volume + self.ask.volume <= u64::MAX {
            (self.bid.volume + self.ask.volume) as u64
        } else {
            u64::MAX
        }
    }

    /// A level with no resting interest on either side.
    pub open spec fn spec_empty() -> QuoteL2 {
        QuoteL2 { bid: QuoteSide::spec_zero(), ask: QuoteSide::spec_zero() }
    }

    pub fn empty() -> (r: QuoteL2)
        ensures
            r == QuoteL2::spec_empty(),
    {
        QuoteL2 { bid: QuoteSide::zero(), ask: QuoteSide::zero() }
    }

    /// This level with the named side's slot replaced.
    pub open spec fn spec_with_side(self, side: Side, qs: QuoteSide) -> QuoteL2 {
        match side {
            Side::Bid => QuoteL2 { bid: qs, ..self },
            Side::Ask => QuoteL2 { ask: qs, ..self },
        }
    }

    pub fn with_side(self, side: &Side, qs: QuoteSide) -> (r: QuoteL2)
        ensures
            r == self.spec_with_side(*side, qs),
    {
        match side {
            Side::Bid => QuoteL2 { bid: qs, ..self },
            Side::Ask => QuoteL2 { ask: qs, ..self },
        }
    }

    pub fn get_volume_at(&self, side: &Side) -> (r: Volume)
        ensures
            r == self.spec_volume_at(*side),
    {
        match side {
            Side::Ask => self.ask.volume,
            Side::Bid => self.bid.volume,
        }
    }

    pub fn get_volume_total(&self) -> (r: Volume)
        ensures
            r == self.spec_volume_total(),
    {
        self.bid.volume.saturating_add(self.ask.volume)
    }

    pub fn contains_side(&self, side: &Side) -> (r: bool)
        ensures
            r == (self.spec_volume_at(*side) != 0),
    {
        match side {
            Side::Ask => self.ask.volume != 0,
            Side::Bid => self.bid.volume != 0,
        }
    }
}

} // verus!
