//! The oblivious operations on an order book. Each one visits every slot
//! (every ordered pair of slots, for matching) in a fixed order, whatever the
//! slots hold, and takes its decisions as selects, not branches. Every slot
//! read and write goes through `load` and `store`, which log it.
use vstd::prelude::*;
use vstd::arithmetic::div_mod::lemma_add_mod_noop;
use crate::order::{
    activated, after_trade, cancellation, cancels, count_down, crossable, deactivated,
    depth_summary, has_free, insertion, is_first_cross, is_first_free, matching, no_match,
    pair_crosses, pair_row, pair_sweep, precedes, read_sweep, side_volume, trade_amount,
    trade_price, update_sweep, vacant, wrapped, DEPTH_LEVELS, DepthSnapshot, LEVELS_PER_SIDE,
    MAX_ORDERS, MatchResult, Order, OrderBook, OrderType, Side, SlotAccess,
};
use crate::select::{both, either, select_bool, select_u64, select_u128};

verus! {

/// Picks `a` when `c` holds and `b` otherwise, field by field.
fn select_order(c: bool, a: Order, b: Order) -> (r: Order)
    ensures
        r == if c { a } else { b },
{
    let side = if c { a.side } else { b.side };
    let order_type = if c { a.order_type } else { b.order_type };
    Order {
        price: select_u64(c, a.price, b.price),
        amount: select_u64(c, a.amount, b.amount),
        side,
        order_type,
        user_id: select_u128(c, a.user_id, b.user_id),
        active: select_bool(c, a.active, b.active),
    }
}

/// The mean of two prices, rounded down, computed without overflow.
fn midpoint(a: u64, b: u64) -> (r: u64)
    ensures
        r == (a + b) / 2,
{
    a / 2 + b / 2 + (a % 2 + b % 2) / 2
}

/// Whether `buy` and `sell` may trade, evaluated without branching.
fn crosses(buy: Order, sell: Order) -> (r: bool)
    ensures
        r == crossable(buy, sell),
{
    let is_buy = buy.side == Side::Buy;
    let is_sell = sell.side == Side::Sell;
    let both_active = both(buy.active, sell.active);
    let different_owners = buy.user_id != sell.user_id;
    let any_market = either(buy.order_type == OrderType::Market, sell.order_type == OrderType::Market);
    let price_ok = either(any_market, buy.price >= sell.price);
    both(both(both(is_buy, is_sell), both(both_active, different_owners)), price_ok)
}

impl OrderBook {
    /// A book of empty slots with a zero count.
    pub fn new() -> (r: OrderBook)
        ensures
            r.order_count == 0,
            forall|i: int| 0 <= i < MAX_ORDERS ==> #[trigger] r.orders@[i] == vacant(),
            r.accesses@ == Seq::<SlotAccess>::empty(),
    {
        OrderBook {
            orders: [Order::empty(); MAX_ORDERS],
            order_count: 0,
            accesses: Ghost(Seq::empty()),
        }
    }

    /// Reads slot `i`, and logs the read.
    fn load(&mut self, i: usize) -> (o: Order)
        requires
            i < MAX_ORDERS,
        ensures
            o == old(self).orders@[i as int],
            final(self).orders == old(self).orders,
            final(self).order_count == old(self).order_count,
            final(self).accesses@ == old(self).accesses@.push(SlotAccess::Read(i)),
    {
        self.accesses = Ghost(self.accesses@.push(SlotAccess::Read(i)));
        self.orders[i]
    }

    /// Writes `o` to slot `i`, and logs the write.
    fn store(&mut self, i: usize, o: Order)
        requires
            i < MAX_ORDERS,
        ensures
            final(self).orders@ == old(self).orders@.update(i as int, o),
            final(self).order_count == old(self).order_count,
            final(self).accesses@ == old(self).accesses@.push(SlotAccess::Write(i)),
    {
        self.accesses = Ghost(self.accesses@.push(SlotAccess::Write(i)));
        self.orders[i] = o;
    }

    /// Places `order`, made active, in the first inactive slot and counts it;
    /// a book without an inactive slot is left as it is.
    pub fn insert(&mut self, order: Order)
        ensures
            insertion(*old(self), order, *final(self)),
            final(self).accesses@ == old(self).accesses@ + update_sweep(MAX_ORDERS as nat),
    {
        let ghost s0 = self.orders@;
        let ghost mut k: int = 0;
        let placed = Order { active: true, ..order };
        let mut added = false;
        let mut i: usize = 0;
        while i < MAX_ORDERS
            invariant
                0 <= i <= MAX_ORDERS,
                self.order_count == old(self).order_count,
                s0 == old(self).orders@,
                s0.len() == MAX_ORDERS,
                placed == activated(order),
                self.accesses@ == old(self).accesses@ + update_sweep(i as nat),
                added ==> is_first_free(s0, k) && k < i && self.orders@ == s0.update(k, placed),
                !added ==> self.orders@ == s0 && forall|j: int| 0 <= j < i ==> #[trigger] s0[j].active,
            decreases MAX_ORDERS - i,
        {
            let slot = self.load(i);
            let should_add = both(!slot.active, !added);
            self.store(i, select_order(should_add, placed, slot));
            proof {
                assert(update_sweep(i as nat + 1) == update_sweep(i as nat) + seq![
                    SlotAccess::Read(i),
                    SlotAccess::Write(i),
                ]);
                assert(self.accesses@ =~= old(self).accesses@ + update_sweep(i as nat + 1));
                if should_add {
                    k = i as int;
                }
                assert(self.orders@ =~= if added || should_add { s0.update(k, placed) } else { s0 });
            }
            added = select_bool(should_add, true, added);
            i = i + 1;
        }
        proof {
            if has_free(s0) {
                let w = choose|w: int| 0 <= w < s0.len() && !#[trigger] s0[w].active;
                assert(added);
            }
            if added {
                assert(!s0[k].active);
                assert forall|k2: int| is_first_free(s0, k2) implies k2 == k by {
                    if k2 < k {
                        assert(s0[k2].active);
                    } else if k < k2 {
                        assert(s0[k].active);
                    }
                }
            }
        }
        self.order_count = self.order_count.wrapping_add(select_u64(added, 1, 0));
    }

    /// Trades the first crossing pair of slots in row-major order (buyer
    /// index first), if there is one; the count is left as it is.
    pub fn match_once(&mut self) -> (r: MatchResult)
        ensures
            matching(*old(self), *final(self), r),
            final(self).accesses@ == old(self).accesses@ + pair_sweep(MAX_ORDERS as nat),
    {
        let ghost s0 = self.orders@;
        let mut result = MatchResult::none();
        let mut i: usize = 0;
        while i < MAX_ORDERS
            invariant
                0 <= i <= MAX_ORDERS,
                s0 == old(self).orders@,
                s0.len() == MAX_ORDERS,
                self.order_count == old(self).order_count,
                self.accesses@ == old(self).accesses@ + pair_sweep(i as nat),
                !result.matched ==> result == no_match() && self.orders@ == s0 && forall|i2: int, j2: int|
                    precedes(i2, j2, i as int, 0) ==> !#[trigger] pair_crosses(s0, i2, j2),
                result.matched ==> {
                    &&& is_first_cross(s0, result.buy_order_id as int, result.sell_order_id as int)
                    &&& result.match_price == trade_price(
                        s0[result.buy_order_id as int],
                        s0[result.sell_order_id as int],
                    )
                    &&& result.match_amount == trade_amount(
                        s0[result.buy_order_id as int],
                        s0[result.sell_order_id as int],
                    )
                    &&& self.orders@ == after_trade(s0, result)
                },
            decreases MAX_ORDERS - i,
        {
            let mut j: usize = 0;
            while j < MAX_ORDERS
                invariant
                    0 <= i < MAX_ORDERS,
                    0 <= j <= MAX_ORDERS,
                    s0 == old(self).orders@,
                    s0.len() == MAX_ORDERS,
                    self.order_count == old(self).order_count,
                    self.accesses@ == old(self).accesses@ + pair_sweep(i as nat) + pair_row(i, j as nat),
                    !result.matched ==> result == no_match() && self.orders@ == s0 && forall|
                        i2: int,
                        j2: int,
                    | precedes(i2, j2, i as int, j as int) ==> !#[trigger] pair_crosses(s0, i2, j2),
                    result.matched ==> {
                        &&& is_first_cross(s0, result.buy_order_id as int, result.sell_order_id as int)
                        &&& result.match_price == trade_price(
                            s0[result.buy_order_id as int],
                            s0[result.sell_order_id as int],
                        )
                        &&& result.match_amount == trade_amount(
                            s0[result.buy_order_id as int],
                            s0[result.sell_order_id as int],
                        )
                        &&& self.orders@ == after_trade(s0, result)
                    },
                decreases MAX_ORDERS - j,
            {
                let ghost before = self.orders@;
                let ghost log = self.accesses@;
                let buy = self.load(i);
                let sell = self.load(j);
                let can_match = both(crosses(buy, sell), !result.matched);

                let price = select_u64(
                    buy.order_type == OrderType::Market,
                    sell.price,
                    select_u64(sell.order_type == OrderType::Market, buy.price, midpoint(buy.price, sell.price)),
                );
                let amount = select_u64(buy.amount < sell.amount, buy.amount, sell.amount);
                let buy_left = buy.amount - amount;
                let sell_left = sell.amount - amount;

                self.store(
                    i,
                    Order {
                        amount: select_u64(can_match, buy_left, buy.amount),
                        active: select_bool(can_match, buy_left != 0, buy.active),
                        ..buy
                    },
                );
                self.store(
                    j,
                    Order {
                        amount: select_u64(can_match, sell_left, sell.amount),
                        active: select_bool(can_match, sell_left != 0, sell.active),
                        ..sell
                    },
                );
                result = MatchResult {
                    matched: select_bool(can_match, true, result.matched),
                    match_price: select_u64(can_match, price, result.match_price),
                    match_amount: select_u64(can_match, amount, result.match_amount),
                    buy_order_id: select_u64(can_match, i as u64, result.buy_order_id),
                    sell_order_id: select_u64(can_match, j as u64, result.sell_order_id),
                };
                proof {
                    assert(self.accesses@ =~= log + seq![
                        SlotAccess::Read(i),
                        SlotAccess::Read(j),
                        SlotAccess::Write(i),
                        SlotAccess::Write(j),
                    ]);
                    assert(self.accesses@ =~= old(self).accesses@ + pair_sweep(i as nat) + pair_row(
                        i,
                        j as nat + 1,
                    ));
                    if can_match {
                        assert(i != j);
                        assert(self.orders@ =~= after_trade(s0, result));
                    } else {
                        assert(self.orders@ =~= before);
                    }
                }
                j = j + 1;
            }
            assert(self.accesses@ =~= old(self).accesses@ + pair_sweep(i as nat + 1));
            i = i + 1;
        }
        proof {
            if !result.matched {
                assert forall|i2: int, j2: int| #[trigger] pair_crosses(s0, i2, j2) implies false by {
                    assert(precedes(i2, j2, MAX_ORDERS as int, 0));
                }
            }
        }
        result
    }

    /// Deactivates slot `order_id` when it holds an active order of `owner`,
    /// and then counts one order less; otherwise leaves the book as it is.
    pub fn cancel(&mut self, order_id: u64, owner: u128)
        ensures
            cancellation(*old(self), order_id, owner, *final(self)),
            final(self).accesses@ == old(self).accesses@ + update_sweep(MAX_ORDERS as nat),
    {
        let ghost s0 = self.orders@;
        let mut i: usize = 0;
        while i < MAX_ORDERS
            invariant
                0 <= i <= MAX_ORDERS,
                s0 == old(self).orders@,
                s0.len() == MAX_ORDERS,
                self.accesses@ == old(self).accesses@ + update_sweep(i as nat),
                (cancels(s0, order_id, owner) && order_id < i) ==> {
                    &&& self.orders@ == s0.update(order_id as int, deactivated(s0[order_id as int]))
                    &&& self.order_count == count_down(old(self).order_count)
                },
                !(cancels(s0, order_id, owner) && order_id < i) ==> self.orders@ == s0
                    && self.order_count == old(self).order_count,
            decreases MAX_ORDERS - i,
        {
            let slot = self.load(i);
            let should_cancel = both(both(i as u64 == order_id, slot.user_id == owner), slot.active);
            self.store(i, Order { active: select_bool(should_cancel, false, slot.active), ..slot });
            self.order_count = self.order_count.wrapping_sub(select_u64(should_cancel, 1, 0));
            proof {
                assert(self.accesses@ =~= old(self).accesses@ + update_sweep(i as nat + 1));
                if should_cancel {
                    assert(self.orders@ =~= s0.update(order_id as int, deactivated(s0[order_id as int])));
                } else {
                    assert(self.orders@ =~= s0 || self.orders@ =~= s0.update(
                        order_id as int,
                        deactivated(s0[order_id as int]),
                    ));
                }
            }
            i = i + 1;
        }
    }

    /// The total amount of the active orders of `side`, wrapping in `u64`.
    fn side_total(&mut self, side: Side) -> (r: u64)
        ensures
            r == wrapped(side_volume(old(self).orders@, side)),
            final(self).orders == old(self).orders,
            final(self).order_count == old(self).order_count,
            final(self).accesses@ == old(self).accesses@ + read_sweep(MAX_ORDERS as nat),
    {
        let ghost s = self.orders@;
        let mut total: u64 = 0;
        let mut i: usize = 0;
        while i < MAX_ORDERS
            invariant
                0 <= i <= MAX_ORDERS,
                s == self.orders@,
                s.len() == MAX_ORDERS,
                self.orders == old(self).orders,
                self.order_count == old(self).order_count,
                self.accesses@ == old(self).accesses@ + read_sweep(i as nat),
                total == wrapped(side_volume(s.subrange(0, i as int), side)),
            decreases MAX_ORDERS - i,
        {
            let slot = self.load(i);
            let counted = both(slot.active, slot.side == side);
            let amount = select_u64(counted, slot.amount, 0);
            proof {
                let p = s.subrange(0, i as int + 1);
                assert(p.drop_last() =~= s.subrange(0, i as int));
                assert(self.accesses@ =~= old(self).accesses@ + read_sweep(i as nat + 1));
                assert(p.last() == slot);
                lemma_add_mod_noop(
                    side_volume(s.subrange(0, i as int), side) as int,
                    amount as int,
                    0x1_0000_0000_0000_0000,
                );
            }
            total = total.wrapping_add(amount);
            i = i + 1;
        }
        proof {
            assert(s.subrange(0, MAX_ORDERS as int) =~= s);
        }
        total
    }

    /// A volume summary: the first half of the entries each hold the total
    /// amount of the active buy orders, the second half that of the active
    /// sell orders. `price_levels` is reserved and does not change the result.
    /// Only the access log changes: each side's pass reads every slot once.
    pub fn depth(&mut self, price_levels: u64) -> (r: DepthSnapshot)
        ensures
            depth_summary(*old(self), r@),
            final(self).orders == old(self).orders,
            final(self).order_count == old(self).order_count,
            final(self).accesses@ == old(self).accesses@ + read_sweep(MAX_ORDERS as nat) + read_sweep(
                MAX_ORDERS as nat,
            ),
    {
        let buy_total = self.side_total(Side::Buy);
        let sell_total = self.side_total(Side::Sell);
        let mut snapshot: DepthSnapshot = [0u64; DEPTH_LEVELS];
        let mut k: usize = 0;
        while k < DEPTH_LEVELS
            invariant
                0 <= k <= DEPTH_LEVELS,
                forall|k2: int| 0 <= k2 < k && k2 < LEVELS_PER_SIDE ==> #[trigger] snapshot@[k2] == buy_total,
                forall|k2: int| LEVELS_PER_SIDE <= k2 < k ==> #[trigger] snapshot@[k2] == sell_total,
            decreases DEPTH_LEVELS - k,
        {
            snapshot[k] = select_u64(k < LEVELS_PER_SIDE, buy_total, sell_total);
            k = k + 1;
        }
        snapshot
    }
}

} // verus!
