use order_book::book::{OrderBookL2, UpdateL2};
use order_book::side::Side;
use order_book::{BookError, MAX_PRICE};

fn upd(side: Side, price: u64, volume: u64, time: u64) -> UpdateL2 {
    UpdateL2 { side, price, volume, time }
}

#[test]
fn fresh_book_reads_zero() {
    let book = OrderBookL2::new(42);
    for price in [1u64, 2, 100, 1000, MAX_PRICE] {
        assert_eq!(book.get_volume_at_px(&price), 0);
        assert_eq!(book.get_volume_at_side_px(&Side::Bid, &price), 0);
        assert_eq!(book.get_volume_at_side_px(&Side::Ask, &price), 0);
    }
    assert_eq!(book.isin_id(), 42);
}

#[test]
fn update_sets_one_side_only() {
    let mut book = OrderBookL2::new(1);
    assert_eq!(book.update(&upd(Side::Bid, 100, 50, 7)), Ok(()));
    assert_eq!(book.get_volume_at_side_px(&Side::Bid, &100), 50);
    assert_eq!(book.get_volume_at_px(&100), 50);
    assert_eq!(book.get_volume_at_side_px(&Side::Ask, &100), 0);
}

#[test]
fn second_update_overwrites_not_accumulates() {
    let mut book = OrderBookL2::new(1);
    assert_eq!(book.update(&upd(Side::Ask, 55, 10, 1)), Ok(()));
    assert_eq!(book.update(&upd(Side::Ask, 55, 33, 2)), Ok(()));
    assert_eq!(book.get_volume_at_side_px(&Side::Ask, &55), 33);
    assert_eq!(book.get_volume_at_px(&55), 33);
}

#[test]
fn update_to_zero_volume_empties_the_side() {
    let mut book = OrderBookL2::new(1);
    assert_eq!(book.update(&upd(Side::Bid, 10, 5, 1)), Ok(()));
    assert_eq!(book.update(&upd(Side::Bid, 10, 0, 2)), Ok(()));
    assert_eq!(book.get_volume_at_side_px(&Side::Bid, &10), 0);
    assert_eq!(book.get_best_price(&Side::Bid), 0);
}

#[test]
fn update_rejects_reserved_prices() {
    let mut book = OrderBookL2::new(1);
    assert_eq!(
        book.update(&upd(Side::Bid, 0, 5, 1)),
        Err(BookError::PriceOutOfRange)
    );
    assert_eq!(
        book.update(&upd(Side::Ask, MAX_PRICE + 1, 5, 1)),
        Err(BookError::PriceOutOfRange)
    );
    // the book is untouched by a rejected update
    assert_eq!(book.get_best_price(&Side::Bid), 0);
    assert_eq!(book.get_best_price(&Side::Ask), 0);
    // the largest valid price is accepted
    assert_eq!(book.update(&upd(Side::Ask, MAX_PRICE, 5, 1)), Ok(()));
    assert_eq!(book.get_volume_at_side_px(&Side::Ask, &MAX_PRICE), 5);
}

#[test]
fn best_price_is_highest_bid_lowest_ask() {
    let mut book = OrderBookL2::new(1);
    assert_eq!(book.get_best_price(&Side::Bid), 0);
    assert_eq!(book.get_best_price(&Side::Ask), 0);
    assert_eq!(book.update(&upd(Side::Bid, 98, 10, 1)), Ok(()));
    assert_eq!(book.update(&upd(Side::Bid, 100, 30, 2)), Ok(()));
    assert_eq!(book.update(&upd(Side::Bid, 99, 20, 3)), Ok(()));
    assert_eq!(book.get_best_price(&Side::Bid), 100);
    assert_eq!(book.update(&upd(Side::Ask, 102, 25, 4)), Ok(()));
    assert_eq!(book.update(&upd(Side::Ask, 101, 15, 5)), Ok(()));
    assert_eq!(book.get_best_price(&Side::Ask), 101);
    // zero-volume levels do not count as resting interest
    assert_eq!(book.update(&upd(Side::Bid, 100, 0, 6)), Ok(()));
    assert_eq!(book.get_best_price(&Side::Bid), 99);
}

#[test]
fn price_by_index_zero_is_best_price() {
    let mut book = OrderBookL2::new(1);
    assert_eq!(book.update(&upd(Side::Bid, 100, 30, 1)), Ok(()));
    assert_eq!(book.update(&upd(Side::Ask, 101, 15, 2)), Ok(()));
    assert_eq!(
        book.get_price_by_index(&Side::Bid, 0),
        book.get_best_price(&Side::Bid)
    );
    assert_eq!(
        book.get_price_by_index(&Side::Ask, 0),
        book.get_best_price(&Side::Ask)
    );
}

#[test]
fn price_by_index_steps_toward_worse_prices() {
    let mut book = OrderBookL2::new(1);
    assert_eq!(book.update(&upd(Side::Bid, 100, 30, 1)), Ok(()));
    assert_eq!(book.update(&upd(Side::Ask, 101, 15, 2)), Ok(()));
    assert_eq!(book.get_price_by_index(&Side::Bid, 3), 97);
    assert_eq!(book.get_price_by_index(&Side::Ask, 3), 104);
    // the offset is arithmetic: the named level may hold zero volume
    assert_eq!(book.get_volume_at_px(&97), 0);
}

#[test]
fn price_by_index_sentinel_cases() {
    let mut book = OrderBookL2::new(1);
    // no resting interest: no indexed price either
    assert_eq!(book.get_price_by_index(&Side::Bid, 0), 0);
    assert_eq!(book.get_price_by_index(&Side::Ask, 2), 0);
    // stepping below price 1 on the bid side leaves the price range
    assert_eq!(book.update(&upd(Side::Bid, 3, 10, 1)), Ok(()));
    assert_eq!(book.get_price_by_index(&Side::Bid, 3), 0);
    assert_eq!(book.get_price_by_index(&Side::Bid, 2), 1);
}

#[test]
fn growth_preserves_prior_levels() {
    let mut book = OrderBookL2::new(1);
    assert_eq!(book.update(&upd(Side::Bid, 5, 12, 1)), Ok(()));
    assert_eq!(book.update(&upd(Side::Ask, 6, 8, 2)), Ok(()));
    // touch a price far beyond the current allocation
    assert_eq!(book.update(&upd(Side::Ask, 100000, 4, 3)), Ok(()));
    assert_eq!(book.get_volume_at_side_px(&Side::Bid, &5), 12);
    assert_eq!(book.get_volume_at_side_px(&Side::Ask, &6), 8);
    assert_eq!(book.get_volume_at_side_px(&Side::Ask, &100000), 4);
    assert_eq!(book.get_best_price(&Side::Bid), 5);
    assert_eq!(book.get_best_price(&Side::Ask), 6);
}

#[test]
fn volume_total_saturates_instead_of_wrapping() {
    let mut book = OrderBookL2::new(1);
    assert_eq!(book.update(&upd(Side::Bid, 9, u64::MAX, 1)), Ok(()));
    assert_eq!(book.update(&upd(Side::Ask, 9, 5, 2)), Ok(()));
    assert_eq!(book.get_volume_at_px(&9), u64::MAX);
    assert_eq!(book.get_volume_at_side_px(&Side::Bid, &9), u64::MAX);
    assert_eq!(book.get_volume_at_side_px(&Side::Ask, &9), 5);
}

#[test]
fn scenario_three_bids_two_asks() {
    let mut book = OrderBookL2::new(17);
    assert_eq!(book.update(&upd(Side::Bid, 98, 10, 1)), Ok(()));
    assert_eq!(book.update(&upd(Side::Bid, 99, 20, 2)), Ok(()));
    assert_eq!(book.update(&upd(Side::Bid, 100, 30, 3)), Ok(()));
    assert_eq!(book.update(&upd(Side::Ask, 101, 15, 4)), Ok(()));
    assert_eq!(book.update(&upd(Side::Ask, 102, 25, 5)), Ok(()));
    assert_eq!(book.get_best_price(&Side::Bid), 100);
    assert_eq!(book.get_best_price(&Side::Ask), 101);
    assert_eq!(book.get_price_by_index(&Side::Bid, 2), 98);
    assert_eq!(book.get_price_by_index(&Side::Ask, 1), 102);
    assert_eq!(book.get_volume_at_px(&98), 10);
    assert_eq!(book.get_volume_at_px(&99), 20);
    assert_eq!(book.get_volume_at_px(&100), 30);
    assert_eq!(book.get_volume_at_px(&101), 15);
    assert_eq!(book.get_volume_at_px(&102), 25);
}
