//! The per-instrument order book: turns incoming level updates into the
//! dense ladder's mutations, and answers point queries and ranked
//! price-level queries over it.

use vstd::prelude::*;

use crate::dense::DenseQuotes;
use crate::quote::{QuoteL2, QuoteSide};
use crate::side::Side;
use crate::{BookError, InstrumentId, Price, Time, Volume, GROWTH_SLACK, MAX_PRICE};

verus! {

/// An incoming change to one side's resting volume at one price: the new
/// snapshot for that (side, price) slot, not an increment.
#[derive(Clone, Copy, Debug, PartialEq, Eq, Structural)]
pub struct UpdateL2 {
    pub side: Side,
    pub price: Price,
    pub volume: Volume,
    pub time: Time,
}

/// One instrument's level-2 book, owning its dense price ladder.
pub struct OrderBookL2 {
    isin_id: InstrumentId,
    quotes: Box<DenseQuotes>,
}

impl OrderBookL2 {
    /// The identifier this book was registered under.
    pub closed spec fn spec_isin_id(self) -> InstrumentId {
        self.isin_id
    }

    /// The owned price ladder.
    pub closed spec fn ladder(self) -> DenseQuotes {
        *self.quotes
    }

    pub open spec fn wf(self) -> bool {
        self.ladder().wf()
    }

    /// The level a read at `price` observes (the empty sentinel for a
    /// reserved or unallocated price).
    pub open spec fn spec_level(self, price: int) -> QuoteL2 {
        self.ladder().level_at(price)
    }

    /// The volume a read observes for one side at one price.
    pub open spec fn spec_volume(self, side: Side, price: int) -> u64 {
        self.ladder().spec_volume(side, price)
    }

    /// Whether the side has resting interest at the price.
    pub open spec fn occupied(self, side: Side, price: int) -> bool {
        self.ladder().occupied(side, price)
    }

    /// The best price on the side, or 0 if the side rests nowhere.
    pub open spec fn spec_best_price(self, side: Side) -> Price {
        self.ladder().spec_best_price(side)
    }

    /// The price `index` ticks away from the side's best, toward worse
    /// prices (an arithmetic offset — zero-volume levels in between are
    /// counted, not skipped). 0 when the side has no best price at all,
    /// or when the step leaves the representable price range.
    pub open spec fn spec_price_by_index(self, side: Side, index: int) -> Price {
        let b = self.spec_best_price(side);
        if b == 0 {
            0
        } else if side == Side::Bid {
            if index <= b {
                (b - index) as Price
            } else {
                0
            }
        } else {
            if b + index <= u64::MAX {
                (b + index) as Price
            } else {
                0
            }
        }
    }

    /// A fresh, empty book for one instrument.
    pub fn new(isin_id: InstrumentId) -> (r: OrderBookL2)
        ensures
            r.wf(),
            r.spec_isin_id() == isin_id,
            r.ladder().spec_len() == 0,
            forall|side: Side, price: int| r.spec_volume(side, price) == 0,
    {
        OrderBookL2 { isin_id, quotes: Box::new(DenseQuotes::new()) }
    }

    pub fn isin_id(&self) -> (r: InstrumentId)
        ensures
            r == self.spec_isin_id(),
    {
        self.isin_id
    }

    /// Applies an incoming change: overwrites the named side's state at
    /// `upd.price` with `{time: upd.time, volume: upd.volume}`, creating
    /// the level on demand. A reserved price (0, or above `MAX_PRICE`) is
    /// rejected and the book left untouched. On success the named slot
    /// holds exactly the update's snapshot — whatever rested there before
    /// — and every other (side, price) slot keeps its value.
    pub fn update(&mut self, upd: &UpdateL2) -> (r: Result<(), BookError>)
        requires
            old(self).wf(),
        ensures
            final(self).wf(),
            final(self).spec_isin_id() == old(self).spec_isin_id(),
            (upd.price == 0 || upd.price > MAX_PRICE) ==> {
                &&& r == Err::<(), BookError>(BookError::PriceOutOfRange)
                &&& *final(self) == *old(self)
            },
            (1 <= upd.price <= MAX_PRICE) ==> {
                &&& r == Ok::<(), BookError>(())
                &&& final(self).spec_level(upd.price as int) == old(self).spec_level(
                    upd.price as int,
                ).spec_with_side(upd.side, QuoteSide { time: upd.time, volume: upd.volume })
                &&& final(self).spec_volume(upd.side, upd.price as int) == upd.volume
                &&& forall|s: Side|
                    s != upd.side ==> final(self).spec_level(upd.price as int).spec_side(s)
                        == old(self).spec_level(upd.price as int).spec_side(s)
                &&& forall|p: int|
                    p != upd.price ==> final(self).spec_level(p) == old(self).spec_level(p)
            },
    {
        self.quotes.set_side(
            &upd.side,
            upd.price,
            QuoteSide { time: upd.time, volume: upd.volume },
        )
    }

    /// Total resting volume, both sides combined, at a price (clamped at
    /// `u64::MAX` where the sum does not fit).
    pub fn get_volume_at_px(&self, price: &Price) -> (r: Volume)
        ensures
            r == self.spec_level(*price as int).spec_volume_total(),
    {
        self.quotes.get(*price).get_volume_total()
    }

    /// One side's resting volume at a price.
    pub fn get_volume_at_side_px(&self, side: &Side, price: &Price) -> (r: Volume)
        ensures
            r == self.spec_volume(*side, *price as int),
    {
        self.quotes.get(*price).get_volume_at(side)
    }

    /// The best price with resting interest on the side — the highest
    /// occupied price for Bid, the lowest for Ask — or 0 if the side
    /// rests nowhere on the ladder.
    pub fn get_best_price(&self, side: &Side) -> (r: Price)
        requires
            self.wf(),
        ensures
            r == self.spec_best_price(*side),
            r == 0 ==> forall|p: int| !self.occupied(*side, p),
            r != 0 ==> {
                &&& 1 <= r < self.ladder().spec_len()
                &&& self.occupied(*side, r as int)
                &&& forall|p: int|
                    (if *side == Side::Bid {
                        p > r
                    } else {
                        0 < p < r
                    }) ==> !self.occupied(*side, p)
            },
    {
        let r: Price = match side {
            Side::Bid => {
                let top: Price = MAX_PRICE + GROWTH_SLACK;
                self.quotes.prev_nonzero_quote(side, &top)
            },
            Side::Ask => self.quotes.next_nonzero_quote(side, &1),
        };
        proof {
            let lad = self.ladder();
            match *side {
                Side::Bid => {
                    lad.lemma_highest_occupied_below(*side, lad.spec_len());
                    let b = lad.spec_best_price(*side);
                    if r != 0 && b != 0 {
                        assert(!(r < b));
                        assert(!(b < r));
                    }
                },
                Side::Ask => {
                    lad.lemma_lowest_occupied_from(*side, 1);
                    let b = lad.spec_best_price(*side);
                    if r != 0 && b != 0 {
                        assert(!(r < b));
                        assert(!(b < r));
                    }
                },
            }
        }
        r
    }

    /// The price `index` ticks away from the side's best price, toward
    /// worse prices: best − index for Bid, best + index for Ask. This is
    /// a pure arithmetic offset — the level it names may hold zero
    /// volume. Returns 0 when the side has no best price, or when the
    /// step would leave the representable price range.
    pub fn get_price_by_index(&self, side: &Side, index: i64) -> (r: Price)
        requires
            self.wf(),
            0 <= index,
        ensures
            r == self.spec_price_by_index(*side, index as int),
    {
        let best = self.get_best_price(side);
        if best == 0 {
            return 0;
        }
        let off = index as u64;
        match side {
            Side::Bid => {
                if off <= best {
                    best - off
                } else {
                    0
                }
            },
            Side::Ask => best + off,
        }
    }
}

/// Law: a book with no allocated levels reads zero volume everywhere —
/// on each side and in total — at every price.
pub proof fn lemma_fresh_book_reads_zero(book: OrderBookL2, side: Side, price: int)
    requires
        book.ladder().spec_len() == 0,
    ensures
        book.spec_volume(side, price) == 0,
        book.spec_level(price).spec_volume_total() == 0,
{
}

/// Law: the best Bid price is the highest price with resting Bid volume
/// and the best Ask price is the lowest price with resting Ask volume;
/// a best price of 0 means the side rests nowhere on the ladder.
pub proof fn lemma_best_price_characterization(book: OrderBookL2, side: Side)
    requires
        book.wf(),
    ensures
        ({
            let b = book.spec_best_price(side);
            &&& b == 0 ==> forall|p: int| !book.occupied(side, p)
            &&& b != 0 ==> {
                &&& book.occupied(side, b as int)
                &&& forall|p: int|
                    (if side == Side::Bid {
                        p > b
                    } else {
                        0 < p < b
                    }) ==> !book.occupied(side, p)
            }
        }),
{
    let lad = book.ladder();
    match side {
        Side::Bid => lad.lemma_highest_occupied_below(side, lad.spec_len()),
        Side::Ask => lad.lemma_lowest_occupied_from(side, 1),
    }
}

/// Law: at offset 0, the indexed price is exactly the best price, on
/// either side — including the sides with no resting interest, where
/// both are the sentinel 0.
pub proof fn lemma_price_by_index_zero(book: OrderBookL2, side: Side)
    requires
        book.wf(),
    ensures
        book.spec_price_by_index(side, 0) == book.spec_best_price(side),
{
}

/// Law: for a side with a best price, stepping `index` ticks away names
/// best − index for Bid and best + index for Ask, as long as the step
/// stays on a representable price (for Bid, index ≤ best; for Ask, the
/// sum fits in the price type).
pub proof fn lemma_price_by_index_offset(book: OrderBookL2, side: Side, index: int)
    requires
        book.wf(),
        0 <= index,
        book.spec_best_price(side) != 0,
        side == Side::Bid ==> index <= book.spec_best_price(side),
        side == Side::Ask ==> book.spec_best_price(side) + index <= u64::MAX,
    ensures
        side == Side::Bid ==> book.spec_price_by_index(side, index) == book.spec_best_price(side)
            - index,
        side == Side::Ask ==> book.spec_price_by_index(side, index) == book.spec_best_price(side)
            + index,
{
}

} // verus!
