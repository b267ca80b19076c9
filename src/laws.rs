//! Properties that hold of every book, stated over the contracts of the
//! operations and proved from them.
use vstd::prelude::*;
use crate::order::{
    activated, cancellation, count_up, crossable, insertion, is_first_free, matching,
    pair_crosses, pair_sweep, read_sweep, update_sweep, MatchResult, Order, OrderBook, SlotAccess,
    MAX_ORDERS,
};

verus! {

/// Inserting into a book whose every slot is active changes neither the
/// slots nor the count.
pub proof fn full_book_insertion_changes_nothing(before: OrderBook, order: Order, after: OrderBook)
    requires
        forall|i: int| 0 <= i < MAX_ORDERS ==> #[trigger] before.orders@[i].active,
        insertion(before, order, after),
    ensures
        after.orders@ == before.orders@,
        after.order_count == before.order_count,
{
}

/// Inserting into a book whose only inactive slot is `k` places the order,
/// active, in slot `k`, leaves every other slot as it was, and counts one
/// order more.
pub proof fn single_free_slot_receives_order(
    before: OrderBook,
    order: Order,
    after: OrderBook,
    k: int,
)
    requires
        0 <= k < MAX_ORDERS,
        !before.orders@[k].active,
        forall|i: int| 0 <= i < MAX_ORDERS && i != k ==> #[trigger] before.orders@[i].active,
        before.order_count < u64::MAX,
        insertion(before, order, after),
    ensures
        after.orders@[k] == activated(order),
        forall|i: int| 0 <= i < MAX_ORDERS && i != k ==> #[trigger] after.orders@[i] == before.orders@[i],
        after.order_count == before.order_count + 1,
{
    assert(is_first_free(before.orders@, k));
    assert(count_up(before.order_count) == before.order_count + 1);
}

/// Two orders of the same owner never cross, whatever their sides, types
/// and prices.
pub proof fn same_owner_never_crosses(buy: Order, sell: Order)
    requires
        buy.user_id == sell.user_id,
    ensures
        !crossable(buy, sell),
{
}

/// One matching pass trades at most one pair: every slot outside the
/// committed pair keeps its order, and every crossing pair that shares no
/// slot with the committed one still crosses afterwards, for a later pass.
pub proof fn matching_commits_one_pair(
    before: OrderBook,
    after: OrderBook,
    r: MatchResult,
    i: int,
    j: int,
)
    requires
        matching(before, after, r),
        pair_crosses(before.orders@, i, j),
        !r.matched || (i != r.buy_order_id && i != r.sell_order_id && j != r.buy_order_id && j
            != r.sell_order_id),
    ensures
        r.matched,
        forall|k: int|
            0 <= k < MAX_ORDERS && k != r.buy_order_id && k != r.sell_order_id
                ==> #[trigger] after.orders@[k] == before.orders@[k],
        pair_crosses(after.orders@, i, j),
{
}

/// Cancelling a slot with an owner id other than the slot's leaves the
/// slots and the count as they were.
pub proof fn foreign_cancellation_changes_nothing(
    before: OrderBook,
    k: u64,
    owner: u128,
    after: OrderBook,
)
    requires
        k < MAX_ORDERS,
        before.orders@[k as int].user_id != owner,
        cancellation(before, k, owner, after),
    ensures
        after.orders@ == before.orders@,
        after.order_count == before.order_count,
{
}

/// The accesses that were logged on the way from `before` to `after`.
pub open spec fn logged_between(before: OrderBook, after: OrderBook) -> Seq<SlotAccess> {
    after.accesses@.skip(before.accesses@.len() as int)
}

/// Insertion and cancellation are oblivious: on any two books, with any
/// orders, owners and slot indices, they read and write the same slots in
/// the same order, each slot once read and then written back.
pub proof fn insertion_and_cancellation_access_the_same_slots(
    before1: OrderBook,
    after1: OrderBook,
    before2: OrderBook,
    after2: OrderBook,
)
    requires
        after1.accesses@ == before1.accesses@ + update_sweep(MAX_ORDERS as nat),
        after2.accesses@ == before2.accesses@ + update_sweep(MAX_ORDERS as nat),
    ensures
        logged_between(before1, after1) == logged_between(before2, after2),
{
    assert(logged_between(before1, after1) =~= update_sweep(MAX_ORDERS as nat));
    assert(logged_between(before2, after2) =~= update_sweep(MAX_ORDERS as nat));
}

/// Matching is oblivious: on any two books, one pass reads and writes the
/// same slots in the same order, every ordered pair of slots in turn,
/// whether or not and wherever a pair crosses.
pub proof fn matching_accesses_the_same_slots(
    before1: OrderBook,
    after1: OrderBook,
    before2: OrderBook,
    after2: OrderBook,
)
    requires
        after1.accesses@ == before1.accesses@ + pair_sweep(MAX_ORDERS as nat),
        after2.accesses@ == before2.accesses@ + pair_sweep(MAX_ORDERS as nat),
    ensures
        logged_between(before1, after1) == logged_between(before2, after2),
{
    assert(logged_between(before1, after1) =~= pair_sweep(MAX_ORDERS as nat));
    assert(logged_between(before2, after2) =~= pair_sweep(MAX_ORDERS as nat));
}

/// Depth aggregation is oblivious: on any two books it reads the same slots
/// in the same order, and writes none.
pub proof fn depth_accesses_the_same_slots(
    before1: OrderBook,
    after1: OrderBook,
    before2: OrderBook,
    after2: OrderBook,
)
    requires
        after1.accesses@ == before1.accesses@ + read_sweep(MAX_ORDERS as nat) + read_sweep(
            MAX_ORDERS as nat,
        ),
        after2.accesses@ == before2.accesses@ + read_sweep(MAX_ORDERS as nat) + read_sweep(
            MAX_ORDERS as nat,
        ),
    ensures
        logged_between(before1, after1) == logged_between(before2, after2),
{
    let pattern = read_sweep(MAX_ORDERS as nat) + read_sweep(MAX_ORDERS as nat);
    assert(logged_between(before1, after1) =~= pattern);
    assert(logged_between(before2, after2) =~= pattern);
}

} // verus!
