//! Dense, array-backed storage for one instrument's full price ladder:
//! the level for price `p` sits at offset `p` of a growable vector, giving
//! constant-time point access and cache-friendly scans.
//!
//! Reads outside the allocated range (price 0 included) observe a shared
//! empty sentinel level instead of failing, so callers never need bounds
//! checks before a read. Growth happens lazily, the first time a price is
//! touched by a mutating call, and over-allocates by `GROWTH_SLACK` slots
//! so that activity near the top of the ladder does not reallocate on
//! every step.

use vstd::prelude::*;

use crate::quote::{QuoteL2, QuoteSide};
use crate::side::Side;
use crate::{BookError, Price, GROWTH_SLACK, MAX_PRICE};

verus! {

/// The full price ladder for one instrument, indexed by price.
pub struct DenseQuotes {
    quotes: Vec<QuoteL2>,
}

impl DenseQuotes {
    /// The allocated levels, level `p` at index `p`.
    pub closed spec fn levels(self) -> Seq<QuoteL2> {
        self.quotes@
    }

    /// Number of allocated levels.
    pub open spec fn spec_len(self) -> int {
        self.levels().len() as int
    }

    /// The level a read at `price` observes: the stored level for an
    /// allocated, non-reserved price; the empty sentinel otherwise.
    pub open spec fn level_at(self, price: int) -> QuoteL2 {
        if 1 <= price < self.spec_len() {
            self.levels()[price]
        } else {
            QuoteL2::spec_empty()
        }
    }

    /// The volume a read observes for one side at one price.
    pub open spec fn spec_volume(self, side: Side, price: int) -> u64 {
        self.level_at(price).spec_volume_at(side)
    }

    /// Whether the side has resting interest at the price.
    pub open spec fn occupied(self, side: Side, price: int) -> bool {
        self.spec_volume(side, price) != 0
    }

    /// Well-formedness: allocation is bounded (so indices and growth
    /// arithmetic stay in range), and the reserved slot 0, if allocated,
    /// holds the empty level — a scan that answers 0 therefore always
    /// means "nothing found", never a real level.
    pub open spec fn wf(self) -> bool {
        &&& self.spec_len() <= MAX_PRICE + GROWTH_SLACK
        &&& (self.spec_len() > 0 ==> self.levels()[0] == QuoteL2::spec_empty())
    }

    /// Highest occupied price in `[1, i)` for the side, or 0 if none.
    pub open spec fn highest_occupied_below(self, side: Side, i: int) -> Price
        decreases i,
    {
        if i <= 1 {
            0
        } else if self.occupied(side, i - 1) {
            (i - 1) as Price
        } else {
            self.highest_occupied_below(side, i - 1)
        }
    }

    /// Lowest occupied price at or above `i` for the side, or 0 if none.
    pub open spec fn lowest_occupied_from(self, side: Side, i: int) -> Price
        decreases self.spec_len() - i,
    {
        if i < 0 || i >= self.spec_len() {
            0
        } else if self.occupied(side, i) {
            i as Price
        } else {
            self.lowest_occupied_from(side, i + 1)
        }
    }

    /// The best (most competitive) price with resting interest on the
    /// side: highest occupied price for Bid, lowest for Ask; 0 if the
    /// side rests nowhere on the ladder.
    pub open spec fn spec_best_price(self, side: Side) -> Price {
        match side {
            Side::Bid => self.highest_occupied_below(side, self.spec_len()),
            Side::Ask => self.lowest_occupied_from(side, 1),
        }
    }

    /// `highest_occupied_below(side, i)` is 0 exactly when no price in
    /// `[1, i)` is occupied, and otherwise is the largest occupied one.
    pub proof fn lemma_highest_occupied_below(self, side: Side, i: int)
        requires
            0 <= i <= self.spec_len(),
            self.spec_len() <= MAX_PRICE + GROWTH_SLACK,
        ensures
            ({
                let b = self.highest_occupied_below(side, i);
                &&& b == 0 ==> forall|p: int| 1 <= p < i ==> !self.occupied(side, p)
                &&& b != 0 ==> {
                    &&& 1 <= b < i
                    &&& self.occupied(side, b as int)
                    &&& forall|p: int| b < p < i ==> !self.occupied(side, p)
                }
            }),
        decreases i,
    {
        if i > 1 && !self.occupied(side, i - 1) {
            self.lemma_highest_occupied_below(side, i - 1);
        }
    }

    /// `lowest_occupied_from(side, i)` is 0 exactly when no price at or
    /// above `i` is occupied, and otherwise is the smallest occupied one.
    pub proof fn lemma_lowest_occupied_from(self, side: Side, i: int)
        requires
            1 <= i,
            self.spec_len() <= MAX_PRICE + GROWTH_SLACK,
        ensures
            ({
                let b = self.lowest_occupied_from(side, i);
                &&& b == 0 ==> forall|p: int| i <= p ==> !self.occupied(side, p)
                &&& b != 0 ==> {
                    &&& i <= b < self.spec_len()
                    &&& self.occupied(side, b as int)
                    &&& forall|p: int| i <= p < b ==> !self.occupied(side, p)
                }
            }),
        decreases self.spec_len() - i,
    {
        if 0 <= i < self.spec_len() && !self.occupied(side, i) {
            self.lemma_lowest_occupied_from(side, i + 1);
        }
    }

    /// A ladder with no allocated levels.
    pub fn new() -> (r: DenseQuotes)
        ensures
            r.wf(),
            r.spec_len() == 0,
    {
        DenseQuotes { quotes: Vec::new() }
    }

    /// Point read. Out-of-range prices (0 included) observe the empty
    /// sentinel level; the call never fails and, taking `&self`, cannot
    /// mutate the ladder.
    pub fn get(&self, price: Price) -> (r: QuoteL2)
        ensures
            r == self.level_at(price as int),
    {
        if price == 0 || price >= self.quotes.len() as u64 {
            QuoteL2::empty()
        } else {
            self.quotes[price as usize]
        }
    }

    /// True iff no levels are allocated at all — this reflects allocation
    /// state, not occupancy: a ladder of all-zero levels is not "empty".
    pub fn is_empty(&self) -> (r: bool)
        ensures
            r == (self.spec_len() == 0),
    {
        self.quotes.is_empty()
    }

    /// Drops every allocated level; a later mutating call re-grows from
    /// scratch, and every read observes zero volume again.
    pub fn clear(&mut self)
        ensures
            final(self).wf(),
            final(self).spec_len() == 0,
            forall|side: Side, price: int| final(self).spec_volume(side, price) == 0,
    {
        self.quotes.clear()
    }

    /// Grows the ladder so that `price` is an allocated slot, filling new
    /// slots with the empty level and leaving old ones untouched.
    fn grow_to(&mut self, price: Price)
        requires
            old(self).wf(),
            1 <= price <= MAX_PRICE,
        ensures
            final(self).wf(),
            price < final(self).spec_len(),
            old(self).spec_len() <= final(self).spec_len(),
            forall|i: int|
                0 <= i < old(self).spec_len() ==> final(self).levels()[i] == old(self).levels()[i],
            forall|i: int|
                old(self).spec_len() <= i < final(self).spec_len()
                    ==> final(self).levels()[i] == QuoteL2::spec_empty(),
    {
        if price >= self.quotes.len() as u64 {
            let target: u64 = price + GROWTH_SLACK;
            while (self.quotes.len() as u64) < target
                invariant
                    target == price + GROWTH_SLACK,
                    price <= MAX_PRICE,
                    self.spec_len() <= target,
                    old(self).spec_len() <= self.spec_len(),
                    forall|i: int|
                        0 <= i < old(self).spec_len()
                            ==> self.levels()[i] == old(self).levels()[i],
                    forall|i: int|
                        old(self).spec_len() <= i < self.spec_len()
                            ==> self.levels()[i] == QuoteL2::spec_empty(),
                decreases target - self.spec_len(),
            {
                self.quotes.push(QuoteL2::empty());
            }
        }
    }

    /// Looks up the level at `price`, allocating it (and the slack above
    /// the old top) on demand. Rejects a reserved price instead of growing
    /// without bound; on rejection the ladder is untouched. Every level a
    /// read could already observe keeps its value across the growth.
    pub fn get_or_create(&mut self, price: Price) -> (r: Result<QuoteL2, BookError>)
        requires
            old(self).wf(),
        ensures
            final(self).wf(),
            (price == 0 || price > MAX_PRICE) ==> {
                &&& r == Err::<QuoteL2, BookError>(BookError::PriceOutOfRange)
                &&& *final(self) == *old(self)
            },
            (1 <= price <= MAX_PRICE) ==> {
                &&& r == Ok::<QuoteL2, BookError>(final(self).level_at(price as int))
                &&& price < final(self).spec_len()
                &&& old(self).spec_len() <= final(self).spec_len()
                &&& forall|p: int| final(self).level_at(p) == old(self).level_at(p)
            },
    {
        if price == 0 || price > MAX_PRICE {
            return Err(BookError::PriceOutOfRange);
        }
        self.grow_to(price);
        Ok(self.quotes[price as usize])
    }

    /// Stores `qs` as the named side's state at `price`, creating the
    /// level on demand; the mutation path behind `OrderBookL2::update`.
    /// Rejects a reserved price; otherwise only the named (side, price)
    /// slot changes, every other observable level keeps its value.
    pub fn set_side(&mut self, side: &Side, price: Price, qs: QuoteSide) -> (r: Result<
        (),
        BookError,
    >)
        requires
            old(self).wf(),
        ensures
            final(self).wf(),
            (price == 0 || price > MAX_PRICE) ==> {
                &&& r == Err::<(), BookError>(BookError::PriceOutOfRange)
                &&& *final(self) == *old(self)
            },
            (1 <= price <= MAX_PRICE) ==> {
                &&& r == Ok::<(), BookError>(())
                &&& final(self).level_at(price as int) == old(self).level_at(
                    price as int,
                ).spec_with_side(*side, qs)
                &&& forall|p: int|
                    p != price ==> final(self).level_at(p) == old(self).level_at(p)
            },
    {
        if price == 0 || price > MAX_PRICE {
            return Err(BookError::PriceOutOfRange);
        }
        self.grow_to(price);
        let idx: usize = price as usize;
        let updated = self.quotes[idx].with_side(side, qs);
        self.quotes[idx] = updated;
        Ok(())
    }

    /// Upward scan: the first price at or above `price` where the side has
    /// resting interest, or 0 if the scan runs off the end of the ladder.
    pub fn next_nonzero_quote(&self, side: &Side, price: &Price) -> (r: Price)
        requires
            self.wf(),
        ensures
            r != 0 ==> {
                &&& *price <= r < self.spec_len()
                &&& self.occupied(*side, r as int)
                &&& forall|p: int| *price <= p < r ==> !self.occupied(*side, p)
            },
            r == 0 ==> forall|p: int| *price <= p ==> !self.occupied(*side, p),
    {
        let len: u64 = self.quotes.len() as u64;
        let mut px: Price = *price;
        while px < len && !self.quotes[px as usize].contains_side(side)
            invariant
                self.wf(),
                len == self.spec_len(),
                *price <= px,
                forall|p: int| *price <= p < px ==> !self.occupied(*side, p),
            decreases len - px,
        {
            px = px + 1;
        }
        if px >= len {
            0
        } else {
            px
        }
    }

    /// Downward scan: the first price at or below `price` (clamped to the
    /// top of the ladder) where the side has resting interest, or 0 if
    /// none exists down to the bottom.
    pub fn prev_nonzero_quote(&self, side: &Side, price: &Price) -> (r: Price)
        requires
            self.wf(),
        ensures
            r != 0 ==> {
                &&& 1 <= r <= *price
                &&& r < self.spec_len()
                &&& self.occupied(*side, r as int)
                &&& forall|p: int| r < p <= *price ==> !self.occupied(*side, p)
            },
            r == 0 ==> forall|p: int| 1 <= p <= *price ==> !self.occupied(*side, p),
    {
        let len: u64 = self.quotes.len() as u64;
        if len == 0 {
            return 0;
        }
        let mut px: Price = *price;
        if px >= len {
            px = len - 1;
        }
        while px > 0 && !self.quotes[px as usize].contains_side(side)
            invariant
                self.wf(),
                len == self.spec_len(),
                0 < len,
                px < len,
                px <= *price,
                forall|p: int| px < p <= *price ==> !self.occupied(*side, p),
            decreases px,
        {
            px = px - 1;
        }
        px
    }
}

} // verus!
