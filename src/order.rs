//! Orders, the fixed-capacity book that holds them, and the rules that decide
//! which orders cross and at what price.
use vstd::prelude::*;

verus! {

/// Number of slots in every order book.
pub const MAX_ORDERS: usize = 100;

/// Number of entries in a depth snapshot: the first half for the buy side,
/// the second half for the sell side.
pub const DEPTH_LEVELS: usize = 20;

/// Number of entries given to each side in a depth snapshot.
pub const LEVELS_PER_SIDE: usize = 10;

#[derive(Clone, Copy, Debug, PartialEq, Eq, Structural)]
pub enum Side {
    Buy,
    Sell,
}

#[derive(Clone, Copy, Debug, PartialEq, Eq, Structural)]
pub enum OrderType {
    Market,
    Limit,
}

/// One slot of the book. Its identity is its index in the book, not a field.
#[derive(Clone, Copy, Debug, PartialEq, Eq, Structural)]
pub struct Order {
    pub price: u64,
    pub amount: u64,
    pub side: Side,
    pub order_type: OrderType,
    pub user_id: u128,
    pub active: bool,
}

/// One access to a slot of the book, by index.
#[derive(Clone, Copy, Debug, PartialEq, Eq, Structural)]
pub enum SlotAccess {
    Read(usize),
    Write(usize),
}

/// A fixed array of slots and an advisory count of the orders added and not
/// cancelled. The `active` flag of a slot alone says whether it is occupied.
/// `accesses` logs, for proofs only, every slot read and written, in order.
#[derive(Clone, Copy)]
pub struct OrderBook {
    pub orders: [Order; MAX_ORDERS],
    pub order_count: u64,
    pub accesses: Ghost<Seq<SlotAccess>>,
}

/// What one matching pass committed, if anything.
#[derive(Clone, Copy, Debug, PartialEq, Eq, Structural)]
pub struct MatchResult {
    pub matched: bool,
    pub match_price: u64,
    pub match_amount: u64,
    pub buy_order_id: u64,
    pub sell_order_id: u64,
}

/// Volumes per level: buy side first, then sell side.
pub type DepthSnapshot = [u64; DEPTH_LEVELS];

/// The order with `active` set.
pub open spec fn activated(o: Order) -> Order {
    Order { active: true, ..o }
}

/// The order after `amount` of it was traded: a slot that reaches zero is freed.
pub open spec fn filled(o: Order, amount: u64) -> Order {
    Order { amount: (o.amount - amount) as u64, active: o.active && o.amount - amount != 0, ..o }
}

/// A market order on either side accepts any price; two limit orders cross
/// when the bid is at least the ask.
pub open spec fn price_compatible(buy: Order, sell: Order) -> bool {
    buy.order_type == OrderType::Market || sell.order_type == OrderType::Market || buy.price
        >= sell.price
}

/// Whether `buy` and `sell` may trade with each other.
pub open spec fn crossable(buy: Order, sell: Order) -> bool {
    &&& buy.side == Side::Buy
    &&& sell.side == Side::Sell
    &&& buy.active
    &&& sell.active
    &&& buy.user_id != sell.user_id
    &&& price_compatible(buy, sell)
}

/// The price of a trade: the limit side's price against a market buy or
/// sell, else the midpoint rounded down.
pub open spec fn trade_price(buy: Order, sell: Order) -> u64 {
    if buy.order_type == OrderType::Market {
        sell.price
    } else if sell.order_type == OrderType::Market {
        buy.price
    } else {
        ((buy.price + sell.price) / 2) as u64
    }
}

/// The size of a trade: the smaller of the two amounts.
pub open spec fn trade_amount(buy: Order, sell: Order) -> u64 {
    if buy.amount < sell.amount {
        buy.amount
    } else {
        sell.amount
    }
}

/// The result of a matching pass that committed nothing.
pub open spec fn no_match() -> MatchResult {
    MatchResult { matched: false, match_price: 0, match_amount: 0, buy_order_id: 0, sell_order_id: 0 }
}

/// Slot `i` of `s` may buy from slot `j` of `s`.
pub open spec fn pair_crosses(s: Seq<Order>, i: int, j: int) -> bool {
    0 <= i < s.len() && 0 <= j < s.len() && crossable(s[i], s[j])
}

/// The pair `(i2, j2)` comes before `(i, j)` in row-major order.
pub open spec fn precedes(i2: int, j2: int, i: int, j: int) -> bool {
    i2 < i || (i2 == i && j2 < j)
}

/// `(i, j)` is the first pair of slots that cross, in row-major order.
pub open spec fn is_first_cross(s: Seq<Order>, i: int, j: int) -> bool {
    &&& pair_crosses(s, i, j)
    &&& forall|i2: int, j2: int| precedes(i2, j2, i, j) ==> !#[trigger] pair_crosses(s, i2, j2)
}

/// Some pair of slots of `s` crosses.
pub open spec fn has_cross(s: Seq<Order>) -> bool {
    exists|i: int, j: int| #[trigger] pair_crosses(s, i, j)
}

/// The slots after the trade `r` that the pair `(r.buy_order_id, r.sell_order_id)` made.
pub open spec fn after_trade(s: Seq<Order>, r: MatchResult) -> Seq<Order> {
    let b = r.buy_order_id as int;
    let k = r.sell_order_id as int;
    s.update(b, filled(s[b], r.match_amount)).update(k, filled(s[k], r.match_amount))
}

/// The order with `active` cleared.
pub open spec fn deactivated(o: Order) -> Order {
    Order { active: false, ..o }
}

/// Slot `id` of `s` holds an active order of `owner`, so cancelling it takes effect.
pub open spec fn cancels(s: Seq<Order>, id: u64, owner: u128) -> bool {
    id < s.len() && s[id as int].active && s[id as int].user_id == owner
}

/// The total amount of the active orders of `side` in `s`.
pub open spec fn side_volume(s: Seq<Order>, side: Side) -> nat
    decreases s.len(),
{
    if s.len() == 0 {
        0
    } else {
        side_volume(s.drop_last(), side) + if s.last().active && s.last().side == side {
            s.last().amount as nat
        } else {
            0
        }
    }
}

/// `x` reduced to the `u64` range, as wrapping arithmetic leaves it.
pub open spec fn wrapped(x: nat) -> u64 {
    (x % 0x1_0000_0000_0000_0000) as u64
}

/// `after` is `before` with `order` inserted: placed, active, in the first
/// inactive slot and counted; a book with no inactive slot stays as it is.
pub open spec fn insertion(before: OrderBook, order: Order, after: OrderBook) -> bool {
    &&& has_free(before.orders@) ==> after.order_count == count_up(before.order_count)
    &&& forall|k: int|
        is_first_free(before.orders@, k) ==> after.orders@ == before.orders@.update(
            k,
            activated(order),
        )
    &&& !has_free(before.orders@) ==> after.orders@ == before.orders@ && after.order_count
        == before.order_count
}

/// `after` and `r` are what one matching pass makes of `before`: the first
/// crossing pair in row-major order trades at `trade_price` for
/// `trade_amount`, or, with no crossing pair, nothing changes.
pub open spec fn matching(before: OrderBook, after: OrderBook, r: MatchResult) -> bool {
    let s = before.orders@;
    &&& r.matched == has_cross(s)
    &&& r.matched ==> {
        &&& is_first_cross(s, r.buy_order_id as int, r.sell_order_id as int)
        &&& r.match_price == trade_price(s[r.buy_order_id as int], s[r.sell_order_id as int])
        &&& r.match_amount == trade_amount(s[r.buy_order_id as int], s[r.sell_order_id as int])
        &&& after.orders@ == after_trade(s, r)
    }
    &&& !r.matched ==> r == no_match() && after.orders@ == s
    &&& after.order_count == before.order_count
}

/// `after` is `before` with slot `id` cancelled on behalf of `owner`: when
/// the slot holds an active order of `owner` it is deactivated and the count
/// goes one down, otherwise nothing changes.
pub open spec fn cancellation(before: OrderBook, id: u64, owner: u128, after: OrderBook) -> bool {
    &&& cancels(before.orders@, id, owner) ==> {
        &&& after.orders@ == before.orders@.update(id as int, deactivated(before.orders@[id as int]))
        &&& after.order_count == count_down(before.order_count)
    }
    &&& !cancels(before.orders@, id, owner) ==> after.orders@ == before.orders@ && after.order_count
        == before.order_count
}

/// `r` is the depth summary of `book`: the buy-side total in each of the
/// first `LEVELS_PER_SIDE` entries, the sell-side total in each of the rest.
pub open spec fn depth_summary(book: OrderBook, r: Seq<u64>) -> bool {
    &&& r.len() == DEPTH_LEVELS
    &&& forall|k: int|
        0 <= k < LEVELS_PER_SIDE ==> #[trigger] r[k] == wrapped(side_volume(book.orders@, Side::Buy))
    &&& forall|k: int|
        LEVELS_PER_SIDE <= k < DEPTH_LEVELS ==> #[trigger] r[k] == wrapped(
            side_volume(book.orders@, Side::Sell),
        )
}

/// Slots `0..n` read and then written back, one after the other.
pub open spec fn update_sweep(n: nat) -> Seq<SlotAccess>
    decreases n,
{
    if n == 0 {
        Seq::empty()
    } else {
        update_sweep((n - 1) as nat) + seq![
            SlotAccess::Read((n - 1) as usize),
            SlotAccess::Write((n - 1) as usize),
        ]
    }
}

/// Slots `0..n` read, one after the other.
pub open spec fn read_sweep(n: nat) -> Seq<SlotAccess>
    decreases n,
{
    if n == 0 {
        Seq::empty()
    } else {
        read_sweep((n - 1) as nat) + seq![SlotAccess::Read((n - 1) as usize)]
    }
}

/// The pairs `(i, 0)` to `(i, n - 1)`: each reads both slots and writes both back.
pub open spec fn pair_row(i: usize, n: nat) -> Seq<SlotAccess>
    decreases n,
{
    if n == 0 {
        Seq::empty()
    } else {
        pair_row(i, (n - 1) as nat) + seq![
            SlotAccess::Read(i),
            SlotAccess::Read((n - 1) as usize),
            SlotAccess::Write(i),
            SlotAccess::Write((n - 1) as usize),
        ]
    }
}

/// The rows `0..n` of pairs, each over every slot.
pub open spec fn pair_sweep(n: nat) -> Seq<SlotAccess>
    decreases n,
{
    if n == 0 {
        Seq::empty()
    } else {
        pair_sweep((n - 1) as nat) + pair_row((n - 1) as usize, MAX_ORDERS as nat)
    }
}

/// Slot `k` is the first inactive slot of `s`.
pub open spec fn is_first_free(s: Seq<Order>, k: int) -> bool {
    &&& 0 <= k < s.len()
    &&& !s[k].active
    &&& forall|i: int| 0 <= i < k ==> #[trigger] s[i].active
}

/// Some slot of `s` is inactive.
pub open spec fn has_free(s: Seq<Order>) -> bool {
    exists|k: int| 0 <= k < s.len() && !#[trigger] s[k].active
}

/// The counter one higher, wrapping at the end of the `u64` range.
pub open spec fn count_up(c: u64) -> u64 {
    ((c + 1) % 0x1_0000_0000_0000_0000) as u64
}

/// The counter one lower, wrapping at zero.
pub open spec fn count_down(c: u64) -> u64 {
    if c == 0 {
        u64::MAX
    } else {
        (c - 1) as u64
    }
}

/// An inactive slot with every field zero.
pub open spec fn vacant() -> Order {
    Order {
        price: 0,
        amount: 0,
        side: Side::Buy,
        order_type: OrderType::Market,
        user_id: 0,
        active: false,
    }
}

impl Order {
    /// An inactive slot with every field zero.
    pub fn empty() -> (r: Order)
        ensures
            r == vacant(),
    {
        Order {
            price: 0,
            amount: 0,
            side: Side::Buy,
            order_type: OrderType::Market,
            user_id: 0,
            active: false,
        }
    }
}

impl MatchResult {
    /// The result of a pass that found nothing: every field zero.
    pub fn none() -> (r: MatchResult)
        ensures
            r == no_match(),
    {
        MatchResult { matched: false, match_price: 0, match_amount: 0, buy_order_id: 0, sell_order_id: 0 }
    }
}

} // verus!
