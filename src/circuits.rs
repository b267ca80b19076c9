//! The four operations as the confidential computation runs them: each opens
//! its arguments, runs the oblivious book operation, and seals its results.
use vstd::prelude::*;
use crate::confidential::{CallerShared, ClusterHeld, Confidential};
use crate::order::{
    cancellation, depth_summary, insertion, matching, pair_sweep, update_sweep, DepthSnapshot,
    MatchResult, Order, OrderBook, MAX_ORDERS,
};

verus! {

/// Inserts a caller's order into the first inactive slot of the book.
pub fn add_order(
    order_ctxt: Confidential<CallerShared, Order>,
    orderbook_ctxt: Confidential<ClusterHeld, OrderBook>,
) -> (r: Confidential<ClusterHeld, OrderBook>)
    ensures
        insertion(orderbook_ctxt@, order_ctxt@, r@),
        r@.accesses@ == orderbook_ctxt@.accesses@ + update_sweep(MAX_ORDERS as nat),
{
    let order = order_ctxt.open();
    let mut ob = orderbook_ctxt.open();
    ob.insert(order);
    Confidential::seal(ob)
}

/// Commits at most one trade: the first crossing pair in row-major order.
pub fn match_orders(orderbook_ctxt: Confidential<ClusterHeld, OrderBook>) -> (r: (
    Confidential<ClusterHeld, OrderBook>,
    Confidential<CallerShared, MatchResult>,
))
    ensures
        matching(orderbook_ctxt@, r.0@, r.1@),
        r.0@.accesses@ == orderbook_ctxt@.accesses@ + pair_sweep(MAX_ORDERS as nat),
{
    let mut ob = orderbook_ctxt.open();
    let result = ob.match_once();
    (Confidential::seal(ob), Confidential::seal(result))
}

/// Cancels slot `order_id` when it holds an active order of the caller.
pub fn cancel_order(
    order_id: u64,
    user_id: Confidential<CallerShared, u128>,
    orderbook_ctxt: Confidential<ClusterHeld, OrderBook>,
) -> (r: Confidential<ClusterHeld, OrderBook>)
    ensures
        cancellation(orderbook_ctxt@, order_id, user_id@, r@),
        r@.accesses@ == orderbook_ctxt@.accesses@ + update_sweep(MAX_ORDERS as nat),
{
    let user = user_id.open();
    let mut ob = orderbook_ctxt.open();
    ob.cancel(order_id, user);
    Confidential::seal(ob)
}

/// The buy-side and sell-side volume summary of the book; `price_levels` is
/// reserved and does not change the result.
pub fn get_orderbook_depth(
    orderbook_ctxt: Confidential<ClusterHeld, OrderBook>,
    price_levels: u64,
) -> (r: Confidential<CallerShared, DepthSnapshot>)
    ensures
        depth_summary(orderbook_ctxt@, r@@),
{
    let mut ob = orderbook_ctxt.open();
    Confidential::seal(ob.depth(price_levels))
}

} // verus!
