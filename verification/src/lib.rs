//! A per-instrument, price-indexed in-memory order book (an aggregated,
//! level-2 book): dense storage of resting bid/ask volume keyed directly by
//! price, with constant-time point lookups and linear scans for the best and
//! the n-th price level.
//!
//! Price 0 is reserved as the "no such level" sentinel throughout: queries
//! that find nothing return 0, and updates at price 0 are rejected.

use vstd::prelude::*;

pub mod book;
pub mod dense;
pub mod quote;
pub mod side;

verus! {

/// Opaque instrument identifier; the book assumes no internal structure.
pub type InstrumentId = u64;

/// Last-update timestamp for one side at one price.
pub type Time = u64;

/// Resting quantity at a price level; 0 means no resting interest.
pub type Volume = u64;

/// A tick-indexed price level, used directly as a storage offset.
/// Valid prices are `1 ..= MAX_PRICE`; 0 and anything above `MAX_PRICE`
/// are reserved to mean "no such level".
pub type Price = u64;

/// Upper bound on prices the book will allocate storage for; a malformed
/// feed value above this is rejected rather than driving unbounded growth.
pub const MAX_PRICE: u64 = 1048576;

/// Slack added on growth, so that repeated updates near the top of the
/// ladder do not each trigger a reallocation.
pub const GROWTH_SLACK: u64 = 128;

/// What a mutating call reports instead of touching the book.
#[derive(Clone, Copy, Debug, PartialEq, Eq, Structural)]
pub enum BookError {
    /// The price is in the reserved range: 0, or above `MAX_PRICE`.
    PriceOutOfRange,
}

} // verus!
