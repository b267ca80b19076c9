use darkpool::circuits::{add_order, cancel_order, get_orderbook_depth, match_orders};
use darkpool::confidential::{CallerShared, ClusterHeld, Confidential};
use darkpool::order::{MatchResult, Order, OrderBook, OrderType, Side, MAX_ORDERS};
use darkpool::select::{both, either, select_bool, select_u128, select_u64};

fn order(side: Side, order_type: OrderType, price: u64, amount: u64, user_id: u128) -> Order {
    Order { price, amount, side, order_type, user_id, active: true }
}

fn book_with(slots: &[(usize, Order)]) -> OrderBook {
    let mut ob = OrderBook::new();
    for (k, o) in slots {
        ob.orders[*k] = *o;
    }
    ob
}

#[test]
fn new_book_is_empty() {
    let ob = OrderBook::new();
    assert_eq!(ob.order_count, 0);
    for k in 0..MAX_ORDERS {
        assert_eq!(ob.orders[k], Order::empty());
        assert!(!ob.orders[k].active);
    }
}

#[test]
fn insert_fills_slots_in_order() {
    let mut ob = OrderBook::new();
    let a = Order { active: false, ..order(Side::Buy, OrderType::Limit, 10, 4, 7) };
    let b = order(Side::Sell, OrderType::Market, 0, 9, 8);
    ob.insert(a);
    ob.insert(b);
    assert_eq!(ob.orders[0], Order { active: true, ..a });
    assert_eq!(ob.orders[1], b);
    assert!(!ob.orders[2].active);
    assert_eq!(ob.order_count, 2);
}

#[test]
fn insert_into_full_book_changes_nothing() {
    let mut ob = OrderBook::new();
    for k in 0..MAX_ORDERS {
        ob.orders[k] = order(Side::Buy, OrderType::Limit, k as u64, 1, k as u128);
    }
    ob.order_count = 100;
    let before = ob;
    ob.insert(order(Side::Sell, OrderType::Limit, 5, 5, 999));
    assert_eq!(ob.order_count, 100);
    assert_eq!(ob.orders, before.orders);
}

#[test]
fn insert_with_one_free_slot_uses_it() {
    let mut ob = OrderBook::new();
    for k in 0..MAX_ORDERS {
        ob.orders[k] = order(Side::Buy, OrderType::Limit, k as u64, 1, k as u128);
    }
    ob.orders[57].active = false;
    ob.order_count = 99;
    let before = ob;
    let o = order(Side::Sell, OrderType::Limit, 5, 5, 999);
    ob.insert(o);
    assert_eq!(ob.order_count, 100);
    for k in 0..MAX_ORDERS {
        if k == 57 {
            assert_eq!(ob.orders[k], o);
        } else {
            assert_eq!(ob.orders[k], before.orders[k]);
        }
    }
}

#[test]
fn insert_count_wraps_at_the_top() {
    let mut ob = OrderBook::new();
    ob.order_count = u64::MAX;
    ob.insert(order(Side::Buy, OrderType::Limit, 1, 1, 1));
    assert_eq!(ob.order_count, 0);
}

#[test]
fn match_on_empty_book_is_no_match() {
    let mut ob = OrderBook::new();
    let r = ob.match_once();
    assert_eq!(r, MatchResult::none());
    assert!(!r.matched);
    assert_eq!(r.match_price, 0);
    assert_eq!(r.match_amount, 0);
    assert_eq!(r.buy_order_id, 0);
    assert_eq!(r.sell_order_id, 0);
}

#[test]
fn market_buy_against_limit_sell() {
    let mut ob = book_with(&[
        (0, order(Side::Buy, OrderType::Market, 0, 5, 1)),
        (1, order(Side::Sell, OrderType::Limit, 100, 3, 2)),
    ]);
    ob.order_count = 2;
    let r = ob.match_once();
    assert!(r.matched);
    assert_eq!(r.match_price, 100);
    assert_eq!(r.match_amount, 3);
    assert_eq!(r.buy_order_id, 0);
    assert_eq!(r.sell_order_id, 1);
    assert!(!ob.orders[1].active);
    assert_eq!(ob.orders[1].amount, 0);
    assert_eq!(ob.orders[0].amount, 2);
    assert!(ob.orders[0].active);
    assert_eq!(ob.order_count, 2);
}

#[test]
fn limit_orders_trade_at_midpoint() {
    let mut ob = book_with(&[
        (0, order(Side::Buy, OrderType::Limit, 104, 10, 1)),
        (1, order(Side::Sell, OrderType::Limit, 100, 10, 2)),
    ]);
    let r = ob.match_once();
    assert!(r.matched);
    assert_eq!(r.match_price, 102);
    assert_eq!(r.match_amount, 10);
    assert!(!ob.orders[0].active);
    assert!(!ob.orders[1].active);
}

#[test]
fn midpoint_rounds_down_and_does_not_overflow() {
    let mut ob = book_with(&[
        (0, order(Side::Buy, OrderType::Limit, u64::MAX, 1, 1)),
        (1, order(Side::Sell, OrderType::Limit, u64::MAX - 1, 1, 2)),
    ]);
    let r = ob.match_once();
    assert_eq!(r.match_price, u64::MAX - 1);
    let mut ob = book_with(&[
        (0, order(Side::Buy, OrderType::Limit, 101, 1, 1)),
        (1, order(Side::Sell, OrderType::Limit, 100, 1, 2)),
    ]);
    assert_eq!(ob.match_once().match_price, 100);
}

#[test]
fn limit_buy_against_market_sell_takes_buy_price() {
    let mut ob = book_with(&[
        (3, order(Side::Sell, OrderType::Market, 7, 4, 2)),
        (8, order(Side::Buy, OrderType::Limit, 55, 6, 1)),
    ]);
    let r = ob.match_once();
    assert!(r.matched);
    assert_eq!(r.match_price, 55);
    assert_eq!(r.match_amount, 4);
    assert_eq!(r.buy_order_id, 8);
    assert_eq!(r.sell_order_id, 3);
    assert_eq!(ob.orders[8].amount, 2);
    assert!(ob.orders[8].active);
    assert!(!ob.orders[3].active);
}

#[test]
fn two_market_orders_take_sell_price() {
    let mut ob = book_with(&[
        (0, order(Side::Buy, OrderType::Market, 90, 4, 1)),
        (1, order(Side::Sell, OrderType::Market, 80, 4, 2)),
    ]);
    assert_eq!(ob.match_once().match_price, 80);
}

#[test]
fn limit_orders_that_do_not_cross_stay() {
    let mut ob = book_with(&[
        (0, order(Side::Buy, OrderType::Limit, 99, 4, 1)),
        (1, order(Side::Sell, OrderType::Limit, 100, 4, 2)),
    ]);
    let before = ob;
    let r = ob.match_once();
    assert_eq!(r, MatchResult::none());
    assert_eq!(ob.orders, before.orders);
}

#[test]
fn same_owner_never_matches() {
    let mut ob = book_with(&[
        (0, order(Side::Buy, OrderType::Market, 0, 4, 5)),
        (1, order(Side::Sell, OrderType::Market, 0, 4, 5)),
        (2, order(Side::Buy, OrderType::Limit, 200, 4, 5)),
        (3, order(Side::Sell, OrderType::Limit, 100, 4, 5)),
    ]);
    let before = ob;
    let r = ob.match_once();
    assert!(!r.matched);
    assert_eq!(ob.orders, before.orders);
}

#[test]
fn inactive_slots_never_match() {
    let mut ob = book_with(&[
        (0, Order { active: false, ..order(Side::Buy, OrderType::Market, 0, 4, 1) }),
        (1, order(Side::Sell, OrderType::Market, 0, 4, 2)),
    ]);
    assert!(!ob.match_once().matched);
}

#[test]
fn first_pair_in_row_major_order_wins() {
    let mut ob = book_with(&[
        (0, order(Side::Sell, OrderType::Limit, 10, 4, 1)),
        (1, order(Side::Buy, OrderType::Limit, 20, 4, 2)),
        (2, order(Side::Sell, OrderType::Limit, 5, 4, 3)),
    ]);
    let r = ob.match_once();
    assert_eq!(r.buy_order_id, 1);
    assert_eq!(r.sell_order_id, 0);
    assert_eq!(r.match_price, 15);
}

#[test]
fn one_pair_per_call() {
    let mut ob = book_with(&[
        (0, order(Side::Buy, OrderType::Limit, 100, 5, 1)),
        (1, order(Side::Sell, OrderType::Limit, 100, 5, 2)),
        (2, order(Side::Buy, OrderType::Limit, 50, 7, 3)),
        (3, order(Side::Sell, OrderType::Limit, 50, 7, 4)),
    ]);
    let first = ob.match_once();
    assert!(first.matched);
    assert_eq!((first.buy_order_id, first.sell_order_id), (0, 1));
    assert!(ob.orders[2].active);
    assert!(ob.orders[3].active);
    let second = ob.match_once();
    assert!(second.matched);
    assert_eq!((second.buy_order_id, second.sell_order_id), (2, 3));
    assert_eq!(second.match_amount, 7);
    let third = ob.match_once();
    assert!(!third.matched);
}

#[test]
fn cancel_by_owner_deactivates_and_counts_down() {
    let mut ob = book_with(&[(4, order(Side::Buy, OrderType::Limit, 10, 4, 42))]);
    ob.order_count = 1;
    ob.cancel(4, 42);
    assert!(!ob.orders[4].active);
    assert_eq!(ob.orders[4].amount, 4);
    assert_eq!(ob.order_count, 0);
}

#[test]
fn cancel_with_wrong_owner_is_no_op() {
    let mut ob = book_with(&[(4, order(Side::Buy, OrderType::Limit, 10, 4, 42))]);
    ob.order_count = 1;
    ob.cancel(4, 43);
    assert!(ob.orders[4].active);
    assert_eq!(ob.order_count, 1);
}

#[test]
fn cancel_of_wrong_or_inactive_slot_is_no_op() {
    let mut ob = book_with(&[(4, order(Side::Buy, OrderType::Limit, 10, 4, 42))]);
    ob.orders[5] = Order { active: false, ..order(Side::Buy, OrderType::Limit, 10, 4, 42) };
    ob.order_count = 1;
    let before = ob;
    ob.cancel(3, 42);
    ob.cancel(5, 42);
    ob.cancel(100, 42);
    ob.cancel(u64::MAX, 42);
    assert_eq!(ob.orders, before.orders);
    assert_eq!(ob.order_count, 1);
}

#[test]
fn cancel_count_wraps_at_zero() {
    let mut ob = book_with(&[(0, order(Side::Sell, OrderType::Limit, 10, 4, 42))]);
    ob.cancel(0, 42);
    assert_eq!(ob.order_count, u64::MAX);
}

#[test]
fn depth_sums_buy_side() {
    let mut ob = book_with(&[
        (0, order(Side::Buy, OrderType::Limit, 10, 10, 1)),
        (5, order(Side::Buy, OrderType::Limit, 11, 20, 2)),
        (9, order(Side::Buy, OrderType::Market, 0, 30, 3)),
    ]);
    let d = ob.depth(5);
    for k in 0..10 {
        assert_eq!(d[k], 60);
    }
    for k in 10..20 {
        assert_eq!(d[k], 0);
    }
}

#[test]
fn depth_ignores_inactive_and_splits_sides() {
    let mut ob = book_with(&[
        (0, order(Side::Buy, OrderType::Limit, 10, 10, 1)),
        (1, Order { active: false, ..order(Side::Buy, OrderType::Limit, 10, 500, 1) }),
        (2, order(Side::Sell, OrderType::Limit, 10, 7, 2)),
        (3, order(Side::Sell, OrderType::Market, 0, 8, 2)),
        (4, Order { active: false, ..order(Side::Sell, OrderType::Limit, 10, 900, 1) }),
    ]);
    let d = ob.depth(0);
    assert_eq!(d[..10], [10u64; 10]);
    assert_eq!(d[10..], [15u64; 10]);
    assert_eq!(ob.depth(u64::MAX), d);
}

#[test]
fn depth_wraps_in_u64() {
    let mut ob = book_with(&[
        (0, order(Side::Sell, OrderType::Limit, 10, u64::MAX, 1)),
        (1, order(Side::Sell, OrderType::Limit, 10, 2, 2)),
    ]);
    let d = ob.depth(0);
    assert_eq!(d[19], 1);
    assert_eq!(d[0], 0);
}

#[test]
fn sealed_operations_run_the_book_operations() {
    let book: Confidential<ClusterHeld, OrderBook> = Confidential::seal(OrderBook::new());
    let buy: Confidential<CallerShared, Order> =
        Confidential::seal(order(Side::Buy, OrderType::Limit, 104, 10, 1));
    let sell: Confidential<CallerShared, Order> =
        Confidential::seal(order(Side::Sell, OrderType::Limit, 100, 4, 2));
    let book = add_order(buy, book);
    let book = add_order(sell, book);
    let plain = book.open();
    let depth = get_orderbook_depth(Confidential::seal(plain), 3).open();
    assert_eq!(depth[0], 10);
    assert_eq!(depth[10], 4);
    let book: Confidential<ClusterHeld, OrderBook> = Confidential::seal(plain);
    let (book, result) = match_orders(book);
    let result = result.open();
    assert!(result.matched);
    assert_eq!(result.match_price, 102);
    assert_eq!(result.match_amount, 4);
    let owner: Confidential<CallerShared, u128> = Confidential::seal(1);
    let book = cancel_order(0, owner, book).open();
    assert!(!book.orders[0].active);
    assert!(!book.orders[1].active);
    assert_eq!(book.orders[0].amount, 6);
    assert_eq!(book.order_count, 1);
}

#[test]
fn selects_pick_by_flag() {
    assert_eq!(select_u64(true, 3, 9), 3);
    assert_eq!(select_u64(false, 3, 9), 9);
    assert_eq!(select_u64(true, u64::MAX, 0), u64::MAX);
    assert_eq!(select_u128(true, u128::MAX, 1), u128::MAX);
    assert_eq!(select_u128(false, u128::MAX, 1), 1);
    assert!(select_bool(true, true, false));
    assert!(!select_bool(false, true, false));
    assert!(both(true, true) && !both(true, false) && !both(false, true));
    assert!(either(false, true) && either(true, false) && !either(false, false));
}

#[test]
fn empty_order_is_inactive_and_zero() {
    let e = Order::empty();
    assert!(!e.active);
    assert_eq!(e.price, 0);
    assert_eq!(e.amount, 0);
    assert_eq!(e.user_id, 0);
}
