//! Economy and market system: station-local buy/sell order book, and the
//! player's cargo inventory.
//!
//! Prices travel through the order book as price keys: integers whose order
//! is the order of the prices they stand for. `PRICE_ZERO` is the key of a
//! zero price, and `PRICE_UNORDERED` the key of a price that is not a number,
//! which compares with nothing.

use vstd::prelude::*;
use crate::assoc::{entry_map, lemma_entry, lemma_push, lemma_remove, lemma_update, names_unique, position};
use crate::text::same_name;

verus! {

/// Key of a zero price.
pub const PRICE_ZERO: u64 = 0x8000_0000_0000_0000u64;

/// Key of a price that is not a number.
pub const PRICE_UNORDERED: u64 = 0xFFFF_FFFF_FFFF_FFFFu64;

/// Unique identifier for a market item / commodity.
#[derive(Debug, Clone, PartialEq, Eq, Hash)]
pub struct ItemType(pub String);

impl ItemType {
    pub fn new(name: &str) -> (t: Self)
        ensures
            t.0@ == name@,
    {
        ItemType(name.to_owned())
    }
}

impl Default for ItemType {
    fn default() -> (t: Self)
        ensures
            t.0@ == "Unknown"@,
    {
        ItemType("Unknown".to_owned())
    }
}

/// Direction of a market order.
#[derive(Debug, Clone, Copy, PartialEq, Eq, Structural)]
pub enum OrderSide {
    /// Buyer wants to purchase at or below `price_per_unit`.
    Buy,
    /// Seller wants to sell at or above `price_per_unit`.
    Sell,
}

impl Default for OrderSide {
    fn default() -> (s: Self)
        ensures
            s == OrderSide::Sell,
    {
        OrderSide::Sell
    }
}

/// A single open market order. `price_per_unit` is a price key.
#[derive(Debug, Clone)]
pub struct MarketOrder {
    pub order_id: u64,
    pub owner: String,
    pub item: ItemType,
    pub side: OrderSide,
    pub price_per_unit: u64,
    pub quantity: u64,
    pub station: String,
}

impl Default for MarketOrder {
    fn default() -> (o: Self)
        ensures
            o.order_id == 0,
            o.owner@ == Seq::<char>::empty(),
            o.item.0@ == "Unknown"@,
            o.side == OrderSide::Sell,
            o.price_per_unit == PRICE_ZERO,
            o.quantity == 0,
            o.station@ == Seq::<char>::empty(),
    {
        MarketOrder {
            order_id: 0,
            owner: String::new(),
            item: ItemType::default(),
            side: OrderSide::Sell,
            price_per_unit: PRICE_ZERO,
            quantity: 0,
            station: String::new(),
        }
    }
}

/// The order `o` with its identifier replaced by `id`.
pub open spec fn with_id(o: MarketOrder, id: u64) -> MarketOrder {
    MarketOrder { order_id: id, ..o }
}

/// The order `o` with its quantity replaced by `q`.
pub open spec fn with_quantity(o: MarketOrder, q: u64) -> MarketOrder {
    MarketOrder { quantity: q, ..o }
}

/// Keeps the orders whose identifier is not `id`.
pub open spec fn other_than(id: u64) -> spec_fn(MarketOrder) -> bool {
    |o: MarketOrder| o.order_id != id
}

/// Keeps the orders that still have units on offer.
pub open spec fn still_open() -> spec_fn(MarketOrder) -> bool {
    |o: MarketOrder| o.quantity > 0
}

/// Order identifiers increase along the book and stay below `next_id`.
pub open spec fn ids_ordered(orders: Seq<MarketOrder>, next_id: u64) -> bool {
    &&& forall|i: int, j: int|
        0 <= i < j < orders.len() ==> orders[i].order_id < orders[j].order_id
    &&& forall|i: int| 0 <= i < orders.len() ==> orders[i].order_id < next_id
}

/// Unfolds one step of `filter` at the end of a sequence.
pub proof fn lemma_filter_push<A>(s: Seq<A>, x: A, p: spec_fn(A) -> bool)
    ensures
        s.push(x).filter(p) == (if p(x) {
            s.filter(p).push(x)
        } else {
            s.filter(p)
        }),
{
    reveal(Seq::filter);
    assert(s.push(x).drop_last() =~= s);
}

/// A filtered book keeps its identifiers ordered.
pub proof fn lemma_filter_keeps_ids_ordered(
    orders: Seq<MarketOrder>,
    next_id: u64,
    p: spec_fn(MarketOrder) -> bool,
)
    requires
        ids_ordered(orders, next_id),
    ensures
        ids_ordered(orders.filter(p), next_id),
        forall|i: int|
            0 <= i < orders.filter(p).len() ==> orders.contains(#[trigger] orders.filter(p)[i]),
    decreases orders.len(),
{
    reveal(Seq::filter);
    if orders.len() > 0 {
        let rest = orders.drop_last();
        lemma_filter_keeps_ids_ordered(rest, next_id, p);
        let fr = rest.filter(p);
        assert forall|i: int| 0 <= i < fr.len() implies #[trigger] fr[i].order_id
            < orders.last().order_id by {
            let k = choose|k: int| 0 <= k < rest.len() && rest[k] == fr[i];
            assert(orders[k] == rest[k]);
        }
        let out = orders.filter(p);
        assert forall|i: int| 0 <= i < out.len() implies orders.contains(#[trigger] out[i]) by {
            if i < fr.len() {
                assert(out[i] == fr[i]);
                let k = choose|k: int| 0 <= k < rest.len() && rest[k] == fr[i];
                assert(orders[k] == rest[k]);
            } else {
                assert(out[i] == orders[orders.len() - 1]);
            }
        }
    }
}

/// Keeps, in their order, the orders that are still open when `drop_empty`
/// is set, and otherwise the orders whose identifier is not `drop_id`.
fn retain_orders(orders: &mut Vec<MarketOrder>, drop_id: u64, drop_empty: bool)
    ensures
        final(orders)@ == old(orders)@.filter(
            if drop_empty {
                still_open()
            } else {
                other_than(drop_id)
            },
        ),
{
    let ghost p = if drop_empty {
        still_open()
    } else {
        other_than(drop_id)
    };
    let ghost orig = orders@;
    let mut rest: Vec<MarketOrder> = Vec::new();
    std::mem::swap(orders, &mut rest);
    let mut k: usize = 0;
    let n = rest.len();
    assert(orig.take(0).filter(p) =~= Seq::<MarketOrder>::empty()) by {
        reveal(Seq::filter);
    }
    while rest.len() > 0
        invariant
            n == orig.len(),
            k + rest.len() == n,
            rest@ == orig.skip(k as int),
            orders@ == orig.take(k as int).filter(p),
            p == (if drop_empty {
                still_open()
            } else {
                other_than(drop_id)
            }),
        decreases rest.len(),
    {
        let o = rest.remove(0);
        assert(o == orig[k as int]);
        assert(orig.take(k + 1) =~= orig.take(k as int).push(o));
        proof {
            lemma_filter_push(orig.take(k as int), o, p);
        }
        let keep = if drop_empty {
            o.quantity > 0
        } else {
            o.order_id != drop_id
        };
        if keep {
            orders.push(o);
        }
        k = k + 1;
        assert(rest@ =~= orig.skip(k as int));
    }
    assert(orig.take(n as int) =~= orig);
}

/// Whether `o` is an order on `side` for `item` at `station` priced at most
/// `cap`.
pub open spec fn selects(
    o: MarketOrder,
    side: OrderSide,
    item: Seq<char>,
    station: Seq<char>,
    cap: u64,
) -> bool {
    &&& o.side == side
    &&& o.item.0@ == item
    &&& o.station@ == station
    &&& o.price_per_unit <= cap
}

/// Whether the order at position `a` is listed before the order at position
/// `b`: by price, rising (falling with `highest_first`), then by position.
pub open spec fn ranks_before(
    orders: Seq<MarketOrder>,
    highest_first: bool,
    a: int,
    b: int,
) -> bool {
    let pa = orders[a].price_per_unit;
    let pb = orders[b].price_per_unit;
    if highest_first {
        pa > pb || (pa == pb && a < b)
    } else {
        pa < pb || (pa == pb && a < b)
    }
}

/// `r` lists the positions of the selected orders, each once, best price
/// first and, among equal prices, oldest first.
pub open spec fn is_ranking(
    orders: Seq<MarketOrder>,
    side: OrderSide,
    item: Seq<char>,
    station: Seq<char>,
    cap: u64,
    highest_first: bool,
    r: Seq<usize>,
) -> bool {
    &&& forall|k: int|
        0 <= k < r.len() ==> #[trigger] r[k] < orders.len() && selects(
            orders[r[k] as int],
            side,
            item,
            station,
            cap,
        )
    &&& forall|p: int|
        0 <= p < orders.len() && selects(#[trigger] orders[p], side, item, station, cap)
            ==> r.contains(p as usize)
    &&& forall|j: int, k: int|
        0 <= j < k < r.len() ==> ranks_before(
            orders,
            highest_first,
            #[trigger] r[j] as int,
            #[trigger] r[k] as int,
        )
}

/// Sorting panics on a price that is not a number once two orders are
/// compared: among two or more selected orders, none has such a price.
pub open spec fn comparable_offers(
    orders: Seq<MarketOrder>,
    side: OrderSide,
    item: Seq<char>,
    station: Seq<char>,
) -> bool {
    forall|a: int, b: int|
        0 <= a < orders.len() && 0 <= b < orders.len() && a != b && selects(
            #[trigger] orders[a],
            side,
            item,
            station,
            u64::MAX,
        ) && selects(#[trigger] orders[b], side, item, station, u64::MAX)
            ==> orders[a].price_per_unit != PRICE_UNORDERED
}

/// The units bought from one order of a purchase.
#[derive(Debug, Clone, Copy, PartialEq, Eq, Structural)]
pub struct Fill {
    pub order_id: u64,
    /// Price key of the order.
    pub price_per_unit: u64,
    pub units: u64,
}

/// One step of a purchase: while units are still wanted, take as many as the
/// order at position `p` offers, up to the units wanted.
pub open spec fn buy_step(
    orders: Seq<MarketOrder>,
    want: u64,
    fills: Seq<Fill>,
    p: int,
) -> (Seq<MarketOrder>, u64, Seq<Fill>) {
    if want == 0 {
        (orders, want, fills)
    } else {
        let o = orders[p];
        let take: u64 = if o.quantity < want {
            o.quantity
        } else {
            want
        };
        (
            orders.update(p, with_quantity(o, (o.quantity - take) as u64)),
            (want - take) as u64,
            fills.push(Fill { order_id: o.order_id, price_per_unit: o.price_per_unit, units: take }),
        )
    }
}

/// The book, the units still wanted, and the fills after the first `k`
/// positions of `r` have been visited.
pub open spec fn buy_through(orders: Seq<MarketOrder>, r: Seq<usize>, want: u64, k: nat) -> (
    Seq<MarketOrder>,
    u64,
    Seq<Fill>,
)
    decreases k,
{
    if k == 0 {
        (orders, want, Seq::empty())
    } else {
        let st = buy_through(orders, r, want, (k - 1) as nat);
        buy_step(st.0, st.1, st.2, r[k - 1] as int)
    }
}

/// The sell orders an immediate buy may take from, cheapest first: none when
/// the price limit is not a number.
pub open spec fn is_purchase_ranking(
    orders: Seq<MarketOrder>,
    item: Seq<char>,
    station: Seq<char>,
    max_price: u64,
    r: Seq<usize>,
) -> bool {
    if max_price == PRICE_UNORDERED {
        r.len() == 0
    } else {
        is_ranking(orders, OrderSide::Sell, item, station, max_price, false, r)
    }
}

/// Whether price `a` is strictly better than price `b`: higher with
/// `highest_first`, lower otherwise.
fn price_beats(highest_first: bool, a: u64, b: u64) -> (beats: bool)
    ensures
        beats == (if highest_first {
            a > b
        } else {
            a < b
        }),
{
    if highest_first {
        a > b
    } else {
        a < b
    }
}

/// Station-local order book.
#[derive(Debug, Clone)]
pub struct OrderBook {
    orders: Vec<MarketOrder>,
    next_id: u64,
}

impl OrderBook {
    /// The open orders, oldest first.
    pub closed spec fn spec_orders(&self) -> Seq<MarketOrder> {
        self.orders@
    }

    /// The identifier the next posted order receives.
    pub closed spec fn spec_next_id(&self) -> u64 {
        self.next_id
    }

    /// Identifiers increase along the book and stay below the next one.
    pub closed spec fn wf(&self) -> bool {
        ids_ordered(self.orders@, self.next_id)
    }

    /// An empty book.
    pub fn new() -> (b: Self)
        ensures
            b.wf(),
            b.spec_orders() == Seq::<MarketOrder>::empty(),
            b.spec_next_id() == 0,
    {
        OrderBook { orders: Vec::new(), next_id: 0 }
    }

    /// The open orders, oldest first.
    pub fn orders(&self) -> (orders: &Vec<MarketOrder>)
        ensures
            orders@ == self.spec_orders(),
    {
        &self.orders
    }

    /// A book holding `orders` that gives out identifiers from `next_id` on,
    /// as a saved book is restored; `None` unless the identifiers increase
    /// along the orders and stay below `next_id`.
    pub fn from_orders(orders: Vec<MarketOrder>, next_id: u64) -> (book: Option<Self>)
        ensures
            book is Some == ids_ordered(orders@, next_id),
            book matches Some(b) ==> b.wf() && b.spec_orders() == orders@ && b.spec_next_id()
                == next_id,
    {
        let n = orders.len();
        let mut ok = true;
        for i in 0..n
            invariant
                n == orders@.len(),
                ok ==> (forall|k: int| 0 <= k < i ==> #[trigger] orders@[k].order_id < next_id),
                ok ==> (forall|a: int, b: int|
                    0 <= a < b < i ==> orders@[a].order_id < orders@[b].order_id),
                !ok ==> !ids_ordered(orders@, next_id),
        {
            let id = orders[i].order_id;
            let below = id < next_id && (i == 0 || orders[i - 1].order_id < id);
            proof {
                if ok && below {
                    assert forall|a: int, b: int| 0 <= a < b < i + 1 implies orders@[a].order_id
                        < orders@[b].order_id by {
                        if b == i && a < i - 1 {
                            assert(orders@[a].order_id < orders@[i - 1].order_id);
                        }
                    }
                }
                if !below {
                    if id >= next_id {
                        assert(!(orders@[i as int].order_id < next_id));
                    } else {
                        assert(!(orders@[i - 1].order_id < orders@[i as int].order_id));
                    }
                }
            }
            ok = ok && below;
        }
        if ok {
            Some(OrderBook { orders, next_id })
        } else {
            None
        }
    }

    /// The identifier the next posted order receives.
    pub fn next_id(&self) -> (id: u64)
        ensures
            id == self.spec_next_id(),
    {
        self.next_id
    }

    /// Posts a new order and returns its assigned ID.
    pub fn post(&mut self, order: MarketOrder) -> (id: u64)
        requires
            old(self).wf(),
            old(self).spec_next_id() < u64::MAX,
        ensures
            final(self).wf(),
            id == old(self).spec_next_id(),
            final(self).spec_next_id() == id + 1,
            final(self).spec_orders() == old(self).spec_orders().push(with_id(order, id)),
    {
        let mut order = order;
        let id = self.next_id;
        self.next_id = self.next_id + 1;
        order.order_id = id;
        self.orders.push(order);
        id
    }

    /// Positions of the orders on `side` for `item` at `station` priced at
    /// most `cap`, best price first, oldest first among equal prices.
    fn ranking(
        &self,
        side: OrderSide,
        item: &ItemType,
        station: &str,
        cap: u64,
        highest_first: bool,
    ) -> (r: Vec<usize>)
        ensures
            is_ranking(self.orders@, side, item.0@, station@, cap, highest_first, r@),
    {
        let ghost orders = self.orders@;
        let mut r: Vec<usize> = Vec::new();
        let n = self.orders.len();
        for i in 0..n
            invariant
                n == orders.len(),
                orders == self.orders@,
                forall|k: int|
                    0 <= k < r.len() ==> #[trigger] r[k] < i && selects(
                        orders[r[k] as int],
                        side,
                        item.0@,
                        station@,
                        cap,
                    ),
                forall|p: int|
                    0 <= p < i && selects(#[trigger] orders[p], side, item.0@, station@, cap)
                        ==> r@.contains(p as usize),
                forall|j: int, k: int|
                    0 <= j < k < r.len() ==> ranks_before(
                        orders,
                        highest_first,
                        #[trigger] r[j] as int,
                        #[trigger] r[k] as int,
                    ),
        {
            let o = &self.orders[i];
            let chosen = o.side == side && o.item.0 == item.0 && same_name(o.station.as_str(), station)
                && o.price_per_unit <= cap;
            if chosen {
                let price = o.price_per_unit;
                let mut k: usize = 0;
                while k < r.len() && !price_beats(highest_first, price, self.orders[r[k]].price_per_unit)
                    invariant
                        orders == self.orders@,
                        n == orders.len(),
                        i < n,
                        price == orders[i as int].price_per_unit,
                        k <= r.len(),
                        forall|m: int| 0 <= m < r.len() ==> #[trigger] r[m] < i,
                        forall|j: int|
                            0 <= j < k ==> ranks_before(orders, highest_first, #[trigger] r[j] as int, i as int),
                    decreases r.len() - k,
                {
                    k = k + 1;
                }
                let ghost old_r = r@;
                assert forall|j: int| k <= j < old_r.len() implies ranks_before(
                    orders,
                    highest_first,
                    i as int,
                    #[trigger] old_r[j] as int,
                ) by {
                    if j > k {
                        assert(ranks_before(orders, highest_first, old_r[k as int] as int, old_r[j] as int));
                    }
                }
                r.insert(k, i);
                assert(r@ == old_r.insert(k as int, i));
                assert forall|p: int|
                    0 <= p < i + 1 && selects(#[trigger] orders[p], side, item.0@, station@, cap)
                        implies r@.contains(p as usize) by {
                    if p < i {
                        let m = choose|m: int| 0 <= m < old_r.len() && old_r[m] == p as usize;
                        if m < k {
                            assert(r@[m] == p as usize);
                        } else {
                            assert(r@[m + 1] == p as usize);
                        }
                    } else {
                        assert(r@[k as int] == i);
                    }
                }
                assert forall|a: int, b: int| 0 <= a < b < r.len() implies ranks_before(
                    orders,
                    highest_first,
                    #[trigger] r@[a] as int,
                    #[trigger] r@[b] as int,
                ) by {
                    if b < k {
                        assert(r@[a] == old_r[a] && r@[b] == old_r[b]);
                    } else if b == k {
                        assert(r@[a] == old_r[a]);
                    } else if a == k {
                        assert(r@[b] == old_r[b - 1]);
                    } else if a < k {
                        assert(r@[a] == old_r[a] && r@[b] == old_r[b - 1]);
                    } else {
                        assert(r@[a] == old_r[a - 1] && r@[b] == old_r[b - 1]);
                    }
                }
            } else {
                assert forall|p: int|
                    0 <= p < i + 1 && selects(#[trigger] orders[p], side, item.0@, station@, cap)
                        implies r@.contains(p as usize) by {
                    if p == i {
                        assert(!selects(orders[p], side, item.0@, station@, cap));
                    }
                }
            }
        }
        r
    }

    /// Whether `best_sells` / `best_buys` can list the orders on `side` for
    /// `item` at `station` without comparing a price that is not a number.
    pub fn offers_comparable(&self, side: OrderSide, item: &ItemType, station: &str) -> (ok: bool)
        ensures
            ok == comparable_offers(self.spec_orders(), side, item.0@, station@),
    {
        let r = self.ranking(side, item, station, u64::MAX, false);
        let mut unordered = false;
        for k in 0..r.len()
            invariant
                is_ranking(self.orders@, side, item.0@, station@, u64::MAX, false, r@),
                unordered == exists|m: int|
                    0 <= m < k && #[trigger] self.orders@[r@[m] as int].price_per_unit
                        == PRICE_UNORDERED,
        {
            if self.orders[r[k]].price_per_unit == PRICE_UNORDERED {
                unordered = true;
            }
        }
        let ok = !(unordered && r.len() >= 2);
        let n = self.orders.len();
        proof {
            let orders = self.orders@;
            assert(orders.len() == n);
            if ok {
                assert forall|a: int, b: int|
                    0 <= a < orders.len() && 0 <= b < orders.len() && a != b && selects(
                        #[trigger] orders[a],
                        side,
                        item.0@,
                        station@,
                        u64::MAX,
                    ) && selects(#[trigger] orders[b], side, item.0@, station@, u64::MAX)
                        implies orders[a].price_per_unit != PRICE_UNORDERED by {
                    assert(orders[a] == orders[a as usize as int]);
                    assert(orders[b] == orders[b as usize as int]);
                    assert(r@.contains(a as usize));
                    assert(r@.contains(b as usize));
                    let i = choose|i: int| 0 <= i < r@.len() && r@[i] == a as usize;
                    let j = choose|j: int| 0 <= j < r@.len() && r@[j] == b as usize;
                    assert(a as usize != b as usize);
                    assert(i != j);
                    assert(r@.len() >= 2);
                    assert(!unordered);
                    assert(orders[r@[i] as int].price_per_unit != PRICE_UNORDERED);
                    assert(r@[i] as int == a);
                }
            } else {
                let m = choose|m: int|
                    0 <= m < r@.len() && #[trigger] orders[r@[m] as int].price_per_unit
                        == PRICE_UNORDERED;
                let other = if m == 0 { 1int } else { 0int };
                assert(r@[m] != r@[other]) by {
                    if m < other {
                        assert(ranks_before(orders, false, r@[m] as int, r@[other] as int));
                    } else {
                        assert(ranks_before(orders, false, r@[other] as int, r@[m] as int));
                    }
                }
                let a = r@[m] as int;
                let b = r@[other] as int;
                assert(selects(orders[a], side, item.0@, station@, u64::MAX));
                assert(selects(orders[b], side, item.0@, station@, u64::MAX));
                assert(!comparable_offers(orders, side, item.0@, station@));
            }
        }
        ok
    }

    /// Returns all sell orders for an item at the given station, cheapest first.
    pub fn best_sells(&self, item: &ItemType, station: &str) -> (res: Vec<&MarketOrder>)
        requires
            comparable_offers(self.spec_orders(), OrderSide::Sell, item.0@, station@),
        ensures
            exists|r: Seq<usize>|
                {
                    &&& is_ranking(
                        self.spec_orders(),
                        OrderSide::Sell,
                        item.0@,
                        station@,
                        u64::MAX,
                        false,
                        r,
                    )
                    &&& res@.len() == r.len()
                    &&& forall|k: int|
                        0 <= k < r.len() ==> *#[trigger] res@[k] == self.spec_orders()[r[k] as int]
                },
    {
        let r = self.ranking(OrderSide::Sell, item, station, u64::MAX, false);
        self.orders_at(&r)
    }

    /// Returns all buy orders for an item at the given station, highest first.
    pub fn best_buys(&self, item: &ItemType, station: &str) -> (res: Vec<&MarketOrder>)
        requires
            comparable_offers(self.spec_orders(), OrderSide::Buy, item.0@, station@),
        ensures
            exists|r: Seq<usize>|
                {
                    &&& is_ranking(
                        self.spec_orders(),
                        OrderSide::Buy,
                        item.0@,
                        station@,
                        u64::MAX,
                        true,
                        r,
                    )
                    &&& res@.len() == r.len()
                    &&& forall|k: int|
                        0 <= k < r.len() ==> *#[trigger] res@[k] == self.spec_orders()[r[k] as int]
                },
    {
        let r = self.ranking(OrderSide::Buy, item, station, u64::MAX, true);
        self.orders_at(&r)
    }

    /// The orders at the given positions, in that order.
    fn orders_at(&self, r: &Vec<usize>) -> (res: Vec<&MarketOrder>)
        requires
            forall|k: int| 0 <= k < r.len() ==> #[trigger] r[k] < self.orders@.len(),
        ensures
            res@.len() == r@.len(),
            forall|k: int| 0 <= k < r.len() ==> *#[trigger] res@[k] == self.orders@[r[k] as int],
    {
        let mut res: Vec<&MarketOrder> = Vec::new();
        for k in 0..r.len()
            invariant
                forall|m: int| 0 <= m < r.len() ==> #[trigger] r[m] < self.orders@.len(),
                res@.len() == k,
                forall|m: int| 0 <= m < k ==> *#[trigger] res@[m] == self.orders@[r[m] as int],
        {
            res.push(&self.orders[r[k]]);
        }
        res
    }

    /// Attempts an immediate buy: consumes from the cheapest sell orders for
    /// the item at the station priced at most `max_price`, oldest first among
    /// equal prices, then drops every order left without units. Returns the
    /// units bought from each order visited, in the order of purchase, and the
    /// units actually purchased.
    pub fn immediate_buy(
        &mut self,
        item: &ItemType,
        station: &str,
        quantity: u64,
        max_price: u64,
    ) -> (res: (Vec<Fill>, u64))
        requires
            old(self).wf(),
        ensures
            final(self).wf(),
            final(self).spec_next_id() == old(self).spec_next_id(),
            res.1 <= quantity,
            res.1 == min_of(
                quantity as int,
                units_on_offer(old(self).spec_orders(), item.0@, station@, max_price),
            ),
            forall|j: int| 0 <= j < res.0@.len() ==> #[trigger] res.0@[j].price_per_unit <= max_price,
            fill_units(res.0@) == res.1,
            total_quantity(final(self).spec_orders()) + res.1 == total_quantity(
                old(self).spec_orders(),
            ),
            exists|r: Seq<usize>|
                {
                    &&& is_purchase_ranking(old(self).spec_orders(), item.0@, station@, max_price, r)
                    &&& #[trigger] buy_through(old(self).spec_orders(), r, quantity, r.len()).2
                        == res.0@
                    &&& res.1 == quantity - buy_through(
                        old(self).spec_orders(),
                        r,
                        quantity,
                        r.len(),
                    ).1
                    &&& final(self).spec_orders() == buy_through(
                        old(self).spec_orders(),
                        r,
                        quantity,
                        r.len(),
                    ).0.filter(still_open())
                },
    {
        let ghost orig = self.orders@;
        let book_len = self.orders.len();
        let r = if max_price == PRICE_UNORDERED {
            Vec::new()
        } else {
            self.ranking(OrderSide::Sell, item, station, max_price, false)
        };
        assert(is_purchase_ranking(orig, item.0@, station@, max_price, r@));
        let mut want = quantity;
        let mut fills: Vec<Fill> = Vec::new();
        let n = r.len();
        for k in 0..n
            invariant
                n == r@.len(),
                forall|m: int| 0 <= m < n ==> #[trigger] r@[m] < orig.len(),
                (self.orders@, want, fills@) == buy_through(orig, r@, quantity, k as nat),
                want <= quantity,
                self.next_id == old(self).next_id,
                ids_ordered(orig, self.next_id),
                self.orders@.len() == orig.len(),
                forall|m: int| 0 <= m < orig.len() ==> #[trigger] self.orders@[m].order_id == orig[m].order_id,
        {
            let p = r[k];
            if want > 0 {
                let mut o = self.orders.remove(p);
                let take = if o.quantity < want {
                    o.quantity
                } else {
                    want
                };
                o.quantity = o.quantity - take;
                fills.push(Fill { order_id: o.order_id, price_per_unit: o.price_per_unit, units: take });
                self.orders.insert(p, o);
                want = want - take;
            }
            assert(self.orders@ =~= buy_through(orig, r@, quantity, (k + 1) as nat).0);
        }
        assert(ids_ordered(self.orders@, self.next_id));
        let ghost bought = self.orders@;
        retain_orders(&mut self.orders, 0, true);
        proof {
            lemma_filter_keeps_ids_ordered(bought, self.next_id, still_open());
            let st = buy_through(orig, r@, quantity, r@.len());
            assert(st.2 == fills@ && st.1 == want && st.0 == bought);
            assert(orig == old(self).spec_orders());
            assert(buy_through(old(self).spec_orders(), r@, quantity, r@.len()).2 == fills@);
            law_purchase_accounting(orig, r@, quantity, r@.len());
            law_purchase_quantity(orig, item.0@, station@, max_price, r@, quantity);
            law_purchase_frame(orig, item.0@, station@, max_price, r@, quantity);
            lemma_total_open(bought);
        }
        (fills, quantity - want)
    }

    /// Cancels the order with the given ID. Returns `true` if found.
    pub fn cancel(&mut self, order_id: u64) -> (found: bool)
        requires
            old(self).wf(),
        ensures
            final(self).wf(),
            final(self).spec_next_id() == old(self).spec_next_id(),
            final(self).spec_orders() == old(self).spec_orders().filter(other_than(order_id)),
            found == exists|i: int|
                0 <= i < old(self).spec_orders().len()
                    && #[trigger] old(self).spec_orders()[i].order_id == order_id,
    {
        let before = self.orders.len();
        let ghost orig = self.orders@;
        retain_orders(&mut self.orders, order_id, false);
        proof {
            lemma_filter_keeps_ids_ordered(orig, self.next_id, other_than(order_id));
            lemma_filter_drops(orig, other_than(order_id));
        }
        self.orders.len() < before
    }
}

impl Default for OrderBook {
    fn default() -> (b: Self)
        ensures
            b.wf(),
            b.spec_orders() == Seq::<MarketOrder>::empty(),
            b.spec_next_id() == 0,
    {
        OrderBook::new()
    }
}

/// A filter is shorter than its sequence exactly when it drops an element.
pub proof fn lemma_filter_drops<A>(s: Seq<A>, p: spec_fn(A) -> bool)
    ensures
        (s.filter(p).len() < s.len()) == (exists|i: int| 0 <= i < s.len() && !p(#[trigger] s[i])),
    decreases s.len(),
{
    reveal(Seq::filter);
    if s.len() > 0 {
        let rest = s.drop_last();
        lemma_filter_drops(rest, p);
        rest.lemma_filter_len(p);
        if exists|i: int| 0 <= i < rest.len() && !p(#[trigger] rest[i]) {
            let i = choose|i: int| 0 <= i < rest.len() && !p(#[trigger] rest[i]);
            assert(s[i] == rest[i]);
        }
        if exists|i: int| 0 <= i < s.len() && !p(#[trigger] s[i]) {
            let i = choose|i: int| 0 <= i < s.len() && !p(#[trigger] s[i]);
            if i < s.len() - 1 {
                assert(rest[i] == s[i]);
            }
        }
    }
}

/// The quantity of the item named `name` in `held`: 0 when none is held.
pub open spec fn held_quantity(held: Map<Seq<char>, u64>, name: Seq<char>) -> u64 {
    if held.contains_key(name) {
        held[name]
    } else {
        0
    }
}

/// A filter that keeps every element leaves the sequence unchanged.
pub proof fn lemma_filter_keeps_all<A>(s: Seq<A>, p: spec_fn(A) -> bool)
    requires
        forall|i: int| 0 <= i < s.len() ==> p(#[trigger] s[i]),
    ensures
        s.filter(p) == s,
    decreases s.len(),
{
    reveal(Seq::filter);
    if s.len() > 0 {
        let rest = s.drop_last();
        assert forall|i: int| 0 <= i < rest.len() implies p(#[trigger] rest[i]) by {
            assert(rest[i] == s[i]);
        }
        lemma_filter_keeps_all(rest, p);
        assert(rest.push(s.last()) =~= s);
    }
}

/// Cancelling the order just posted gives back the book as it was before the
/// post.
pub proof fn law_cancel_undoes_post(orders: Seq<MarketOrder>, next_id: u64, order: MarketOrder)
    requires
        ids_ordered(orders, next_id),
    ensures
        orders.push(with_id(order, next_id)).filter(other_than(next_id)) == orders,
{
    lemma_filter_push(orders, with_id(order, next_id), other_than(next_id));
    lemma_filter_keeps_all(orders, other_than(next_id));
}

/// After a cancel, no order in the book carries the cancelled identifier.
pub proof fn law_cancel_leaves_no_such_order(orders: Seq<MarketOrder>, id: u64)
    ensures
        forall|i: int|
            0 <= i < orders.filter(other_than(id)).len() ==> #[trigger] orders.filter(
                other_than(id),
            )[i].order_id != id,
{
    broadcast use vstd::seq_lib::group_filter_ensures;

    assert forall|i: int| 0 <= i < orders.filter(other_than(id)).len() implies #[trigger] orders.filter(
        other_than(id),
    )[i].order_id != id by {
        assert(other_than(id)(orders.filter(other_than(id))[i]));
    }
}

/// Two sequences of positions, each strictly ordered by `ranks_before`, that
/// hold the same positions are equal.
proof fn lemma_sorted_unique(
    orders: Seq<MarketOrder>,
    highest_first: bool,
    r1: Seq<usize>,
    r2: Seq<usize>,
)
    requires
        forall|j: int, k: int|
            0 <= j < k < r1.len() ==> ranks_before(
                orders,
                highest_first,
                #[trigger] r1[j] as int,
                #[trigger] r1[k] as int,
            ),
        forall|j: int, k: int|
            0 <= j < k < r2.len() ==> ranks_before(
                orders,
                highest_first,
                #[trigger] r2[j] as int,
                #[trigger] r2[k] as int,
            ),
        forall|x: usize| r1.contains(x) <==> r2.contains(x),
    ensures
        r1 == r2,
    decreases r1.len(),
{
    if r1.len() == 0 {
        if r2.len() > 0 {
            assert(r2.contains(r2[0]));
        }
        assert(r1 =~= r2);
    } else {
        assert(r1.contains(r1[0]));
        if r2.len() == 0 {
            assert(false);
        }
        let a = r1[0];
        let b = r2[0];
        assert(r2.contains(b));
        if a != b {
            let j = choose|j: int| 0 <= j < r2.len() && r2[j] == a;
            let i = choose|i: int| 0 <= i < r1.len() && r1[i] == b;
            assert(j > 0 && i > 0);
            assert(ranks_before(orders, highest_first, r2[0] as int, r2[j] as int));
            assert(ranks_before(orders, highest_first, r1[0] as int, r1[i] as int));
            assert(false);
        }
        let t1 = r1.drop_first();
        let t2 = r2.drop_first();
        assert forall|x: usize| t1.contains(x) <==> t2.contains(x) by {
            if t1.contains(x) {
                let i = choose|i: int| 0 <= i < t1.len() && t1[i] == x;
                assert(r1[i + 1] == x);
                assert(ranks_before(orders, highest_first, r1[0] as int, r1[i + 1] as int));
                assert(r1.contains(x));
                let j = choose|j: int| 0 <= j < r2.len() && r2[j] == x;
                assert(j != 0);
                assert(t2[j - 1] == x);
            }
            if t2.contains(x) {
                let j = choose|j: int| 0 <= j < t2.len() && t2[j] == x;
                assert(r2[j + 1] == x);
                assert(ranks_before(orders, highest_first, r2[0] as int, r2[j + 1] as int));
                assert(r2.contains(x));
                let i = choose|i: int| 0 <= i < r1.len() && r1[i] == x;
                assert(i != 0);
                assert(t1[i - 1] == x);
            }
        }
        assert forall|j: int, k: int| 0 <= j < k < t1.len() implies ranks_before(
            orders,
            highest_first,
            #[trigger] t1[j] as int,
            #[trigger] t1[k] as int,
        ) by {
            assert(t1[j] == r1[j + 1] && t1[k] == r1[k + 1]);
        }
        assert forall|j: int, k: int| 0 <= j < k < t2.len() implies ranks_before(
            orders,
            highest_first,
            #[trigger] t2[j] as int,
            #[trigger] t2[k] as int,
        ) by {
            assert(t2[j] == r2[j + 1] && t2[k] == r2[k + 1]);
        }
        lemma_sorted_unique(orders, highest_first, t1, t2);
        assert forall|k: int| 0 <= k < r1.len() implies r1[k] == r2[k] by {
            if k > 0 {
                assert(r1[k] == t1[k - 1]);
                assert(r2[k] == t2[k - 1]);
            }
        }
        assert(r1 =~= r2);
    }
}

/// A listing is determined by the book and the selection: two rankings of the
/// same selection are the same.
pub proof fn law_ranking_unique(
    orders: Seq<MarketOrder>,
    side: OrderSide,
    item: Seq<char>,
    station: Seq<char>,
    cap: u64,
    highest_first: bool,
    r1: Seq<usize>,
    r2: Seq<usize>,
)
    requires
        is_ranking(orders, side, item, station, cap, highest_first, r1),
        is_ranking(orders, side, item, station, cap, highest_first, r2),
    ensures
        r1 == r2,
{
    assert forall|x: usize| r1.contains(x) <==> r2.contains(x) by {
        if r1.contains(x) {
            let i = choose|i: int| 0 <= i < r1.len() && r1[i] == x;
            assert(x < orders.len() && selects(orders[x as int], side, item, station, cap));
            assert(r2.contains(x as int as usize));
        }
        if r2.contains(x) {
            let i = choose|i: int| 0 <= i < r2.len() && r2[i] == x;
            assert(x < orders.len() && selects(orders[x as int], side, item, station, cap));
            assert(r1.contains(x as int as usize));
        }
    }
    lemma_sorted_unique(orders, highest_first, r1, r2);
}

/// Units taken by a sequence of fills.
pub open spec fn fill_units(fills: Seq<Fill>) -> int
    decreases fills.len(),
{
    if fills.len() == 0 {
        0
    } else {
        fill_units(fills.drop_last()) + fills.last().units
    }
}

/// Units on offer in a book.
pub open spec fn total_quantity(orders: Seq<MarketOrder>) -> int
    decreases orders.len(),
{
    if orders.len() == 0 {
        0
    } else {
        total_quantity(orders.drop_last()) + orders.last().quantity
    }
}

/// Changing one order's quantity changes the book's units by the difference.
pub proof fn lemma_total_update(orders: Seq<MarketOrder>, p: int, o: MarketOrder)
    requires
        0 <= p < orders.len(),
    ensures
        total_quantity(orders.update(p, o)) == total_quantity(orders) - orders[p].quantity
            + o.quantity,
    decreases orders.len(),
{
    let u = orders.update(p, o);
    if p < orders.len() - 1 {
        lemma_total_update(orders.drop_last(), p, o);
        assert(u.drop_last() =~= orders.drop_last().update(p, o));
    } else {
        assert(u.drop_last() =~= orders.drop_last());
    }
}

/// Dropping the orders without units leaves the book's units unchanged.
pub proof fn lemma_total_open(orders: Seq<MarketOrder>)
    ensures
        total_quantity(orders.filter(still_open())) == total_quantity(orders),
    decreases orders.len(),
{
    if orders.len() > 0 {
        let rest = orders.drop_last();
        lemma_total_open(rest);
        assert(rest.push(orders.last()) =~= orders);
        lemma_filter_push(rest, orders.last(), still_open());
        let fr = rest.filter(still_open());
        if orders.last().quantity > 0 {
            assert(fr.push(orders.last()).drop_last() =~= fr);
        }
    }
}

/// Units offered by the orders at the positions `r`.
pub open spec fn quantity_at(orders: Seq<MarketOrder>, r: Seq<usize>) -> int
    decreases r.len(),
{
    if r.len() == 0 {
        0
    } else {
        quantity_at(orders, r.drop_last()) + orders[r.last() as int].quantity
    }
}

/// Units offered by the orders on `side` for `item` at `station` priced at
/// most `cap`.
pub open spec fn selected_quantity(
    orders: Seq<MarketOrder>,
    side: OrderSide,
    item: Seq<char>,
    station: Seq<char>,
    cap: u64,
) -> int
    decreases orders.len(),
{
    if orders.len() == 0 {
        0
    } else {
        selected_quantity(orders.drop_last(), side, item, station, cap) + if selects(
            orders.last(),
            side,
            item,
            station,
            cap,
        ) {
            orders.last().quantity as int
        } else {
            0
        }
    }
}

/// Units an immediate buy may take from: those of the sell orders for the
/// item at the station priced at most `max_price`; none when the limit is not
/// a number.
pub open spec fn units_on_offer(
    orders: Seq<MarketOrder>,
    item: Seq<char>,
    station: Seq<char>,
    max_price: u64,
) -> int {
    if max_price == PRICE_UNORDERED {
        0
    } else {
        selected_quantity(orders, OrderSide::Sell, item, station, max_price)
    }
}

/// The smaller of two integers.
pub open spec fn min_of(a: int, b: int) -> int {
    if a <= b {
        a
    } else {
        b
    }
}

/// Dropping one position takes its units out of the sum.
proof fn lemma_quantity_at_remove(orders: Seq<MarketOrder>, r: Seq<usize>, i: int)
    requires
        0 <= i < r.len(),
    ensures
        quantity_at(orders, r) == quantity_at(orders, r.remove(i)) + orders[r[i] as int].quantity,
    decreases r.len(),
{
    if i == r.len() - 1 {
        assert(r.remove(i) =~= r.drop_last());
    } else {
        lemma_quantity_at_remove(orders, r.drop_last(), i);
        assert(r.remove(i).drop_last() =~= r.drop_last().remove(i));
        assert(r.remove(i).last() == r.last());
    }
}

/// The sum over positions before the last order does not see the last order.
proof fn lemma_quantity_at_prefix(orders: Seq<MarketOrder>, r: Seq<usize>)
    requires
        orders.len() > 0,
        forall|k: int| 0 <= k < r.len() ==> #[trigger] r[k] < orders.len() - 1,
    ensures
        quantity_at(orders, r) == quantity_at(orders.drop_last(), r),
    decreases r.len(),
{
    if r.len() > 0 {
        lemma_quantity_at_prefix(orders, r.drop_last());
        assert(r[r.len() - 1] < orders.len() - 1);
    }
}

/// Summing over distinct positions that are exactly the selected ones gives
/// the selected units.
proof fn lemma_quantity_at_selected(
    orders: Seq<MarketOrder>,
    side: OrderSide,
    item: Seq<char>,
    station: Seq<char>,
    cap: u64,
    r: Seq<usize>,
)
    requires
        orders.len() <= usize::MAX,
        forall|i: int, j: int| 0 <= i < j < r.len() ==> r[i] != r[j],
        forall|k: int| 0 <= k < r.len() ==> #[trigger] r[k] < orders.len(),
        forall|p: int|
            0 <= p < orders.len() ==> (r.contains(p as usize) <==> selects(
                #[trigger] orders[p],
                side,
                item,
                station,
                cap,
            )),
    ensures
        quantity_at(orders, r) == selected_quantity(orders, side, item, station, cap),
    decreases orders.len(),
{
    if orders.len() == 0 {
        if r.len() > 0 {
            assert(r[0] < orders.len());
        }
    } else {
        let n = orders.len();
        let last = (n - 1) as int;
        let rest = orders.drop_last();
        if selects(orders[last], side, item, station, cap) {
            assert(r.contains(last as usize));
            let i = choose|i: int| 0 <= i < r.len() && r[i] == last as usize;
            lemma_quantity_at_remove(orders, r, i);
            let r2 = r.remove(i);
            assert forall|k: int| 0 <= k < r2.len() implies #[trigger] r2[k] < n - 1 by {
                let k0 = if k < i { k } else { k + 1 };
                assert(r2[k] == r[k0]);
                assert(r[k0] != r[i]);
            }
            assert forall|a: int, b: int| 0 <= a < b < r2.len() implies r2[a] != r2[b] by {
                let a0 = if a < i { a } else { a + 1 };
                let b0 = if b < i { b } else { b + 1 };
                assert(r2[a] == r[a0] && r2[b] == r[b0]);
            }
            assert forall|p: int| 0 <= p < rest.len() implies (r2.contains(p as usize) <==> selects(
                #[trigger] rest[p],
                side,
                item,
                station,
                cap,
            )) by {
                assert(rest[p] == orders[p]);
                if r2.contains(p as usize) {
                    let k = choose|k: int| 0 <= k < r2.len() && r2[k] == p as usize;
                    let k0 = if k < i { k } else { k + 1 };
                    assert(r[k0] == p as usize);
                }
                if selects(orders[p], side, item, station, cap) {
                    assert(r.contains(p as usize));
                    let k = choose|k: int| 0 <= k < r.len() && r[k] == p as usize;
                    assert(k != i);
                    let k1 = if k < i { k } else { k - 1 };
                    assert(r2[k1] == p as usize);
                }
            }
            lemma_quantity_at_prefix(orders, r2);
            lemma_quantity_at_selected(rest, side, item, station, cap, r2);
        } else {
            assert forall|k: int| 0 <= k < r.len() implies #[trigger] r[k] < n - 1 by {
                assert(r.contains(r[k]));
                if r[k] == last {
                    assert(selects(orders[last], side, item, station, cap));
                }
            }
            assert forall|p: int| 0 <= p < rest.len() implies (r.contains(p as usize) <==> selects(
                #[trigger] rest[p],
                side,
                item,
                station,
                cap,
            )) by {
                assert(rest[p] == orders[p]);
            }
            lemma_quantity_at_prefix(orders, r);
            lemma_quantity_at_selected(rest, side, item, station, cap, r);
        }
    }
}

/// What a purchase leaves untouched, step by step: orders it has not visited
/// are unchanged, visited ones change only in quantity, which only drops;
/// every fill is priced at most `cap`; and the units still wanted are the
/// units asked for less what the visited orders could give.
proof fn lemma_purchase_frame(
    orders: Seq<MarketOrder>,
    r: Seq<usize>,
    want: u64,
    cap: u64,
    k: nat,
)
    requires
        orders.len() <= usize::MAX,
        k <= r.len(),
        forall|m: int| 0 <= m < r.len() ==> #[trigger] r[m] < orders.len(),
        forall|i: int, j: int| 0 <= i < j < r.len() ==> r[i] != r[j],
        forall|m: int| 0 <= m < r.len() ==> #[trigger] orders[r[m] as int].price_per_unit <= cap,
    ensures
        ({
            let st = buy_through(orders, r, want, k);
            &&& st.0.len() == orders.len()
            &&& forall|p: int|
                0 <= p < orders.len() ==> #[trigger] st.0[p] == with_quantity(
                    orders[p],
                    st.0[p].quantity,
                ) && st.0[p].quantity <= orders[p].quantity
            &&& forall|p: int|
                0 <= p < orders.len() && !r.take(k as int).contains(p as usize) ==> #[trigger] st.0[p]
                    == orders[p]
            &&& forall|j: int| 0 <= j < st.2.len() ==> #[trigger] st.2[j].price_per_unit <= cap
            &&& st.1 == want - min_of(want as int, quantity_at(orders, r.take(k as int)))
        }),
    decreases k,
{
    if k == 0 {
        assert(r.take(0) =~= Seq::<usize>::empty());
    } else {
        lemma_purchase_frame(orders, r, want, cap, (k - 1) as nat);
        let st = buy_through(orders, r, want, (k - 1) as nat);
        let p = r[k - 1] as int;
        assert(r.take(k as int) =~= r.take(k - 1).push(r[k - 1]));
        assert(r.take(k as int).drop_last() =~= r.take(k - 1));
        assert(!r.take(k - 1).contains(r[k - 1])) by {
            if r.take(k - 1).contains(r[k - 1]) {
                let j = choose|j: int| 0 <= j < k - 1 && #[trigger] r.take(k - 1)[j] == r[k - 1];
                assert(r[j] == r[k - 1]);
            }
        }
        assert(st.0[p] == orders[p]);
        let nst = buy_through(orders, r, want, k);
        assert forall|q: int| 0 <= q < orders.len() && !r.take(k as int).contains(q as usize) implies #[trigger] nst.0[q]
            == orders[q] by {
            assert(r.take(k as int)[k - 1] == r[k - 1]);
            assert(q != p);
            if r.take(k - 1).contains(q as usize) {
                let j = choose|j: int| 0 <= j < k - 1 && #[trigger] r.take(k - 1)[j] == q as usize;
                assert(r.take(k as int)[j] == q as usize);
            }
        }
        if st.1 != 0 {
            let fills = nst.2;
            assert forall|j: int| 0 <= j < fills.len() implies #[trigger] fills[j].price_per_unit <= cap by {
                if j < st.2.len() {
                    assert(fills[j] == st.2[j]);
                }
            }
        }
    }
}

/// The units an immediate buy gets are the smaller of the units asked for and
/// the units on offer to it.
pub proof fn law_purchase_quantity(
    orders: Seq<MarketOrder>,
    item: Seq<char>,
    station: Seq<char>,
    max_price: u64,
    r: Seq<usize>,
    want: u64,
)
    requires
        orders.len() <= usize::MAX,
        is_purchase_ranking(orders, item, station, max_price, r),
    ensures
        want - buy_through(orders, r, want, r.len()).1 == min_of(
            want as int,
            units_on_offer(orders, item, station, max_price),
        ),
{
    lemma_ranking_distinct(orders, item, station, max_price, r);
    lemma_purchase_frame(orders, r, want, max_price, r.len());
    assert(r.take(r.len() as int) =~= r);
    if max_price != PRICE_UNORDERED {
        assert forall|p: int| 0 <= p < orders.len() implies (r.contains(p as usize) <==> selects(
            #[trigger] orders[p],
            OrderSide::Sell,
            item,
            station,
            max_price,
        )) by {
            if r.contains(p as usize) {
                let k = choose|k: int| 0 <= k < r.len() && r[k] == p as usize;
                assert(selects(orders[r[k] as int], OrderSide::Sell, item, station, max_price));
            }
        }
        lemma_quantity_at_selected(orders, OrderSide::Sell, item, station, max_price, r);
    }
}

/// A purchase changes the book only where it buys: every order keeps all but
/// its quantity, which never grows; an order that is not a sell order for the
/// item at the station within the price limit is left as it was; and every
/// fill is priced within the limit. The book that remains is this one without
/// its empty orders, in the same order.
pub proof fn law_purchase_frame(
    orders: Seq<MarketOrder>,
    item: Seq<char>,
    station: Seq<char>,
    max_price: u64,
    r: Seq<usize>,
    want: u64,
)
    requires
        orders.len() <= usize::MAX,
        is_purchase_ranking(orders, item, station, max_price, r),
    ensures
        ({
            let bought = buy_through(orders, r, want, r.len());
            &&& bought.0.len() == orders.len()
            &&& forall|p: int|
                0 <= p < orders.len() ==> #[trigger] bought.0[p] == with_quantity(
                    orders[p],
                    bought.0[p].quantity,
                ) && bought.0[p].quantity <= orders[p].quantity
            &&& forall|p: int|
                0 <= p < orders.len() && !(max_price != PRICE_UNORDERED && selects(
                    orders[p],
                    OrderSide::Sell,
                    item,
                    station,
                    max_price,
                )) ==> #[trigger] bought.0[p] == orders[p]
            &&& forall|j: int|
                0 <= j < bought.2.len() ==> #[trigger] bought.2[j].price_per_unit <= max_price
        }),
{
    lemma_ranking_distinct(orders, item, station, max_price, r);
    lemma_purchase_frame(orders, r, want, max_price, r.len());
    assert(r.take(r.len() as int) =~= r);
    assert forall|p: int|
        0 <= p < orders.len() && !(max_price != PRICE_UNORDERED && selects(
            orders[p],
            OrderSide::Sell,
            item,
            station,
            max_price,
        )) implies !r.take(r.len() as int).contains(p as usize) by {
        if r.contains(p as usize) {
            let k = choose|k: int| 0 <= k < r.len() && r[k] == p as usize;
            assert(r[k] < orders.len());
            assert(selects(orders[r[k] as int], OrderSide::Sell, item, station, max_price));
        }
    }
}

/// A purchase ranking lists valid, distinct positions, each priced within the
/// limit.
proof fn lemma_ranking_distinct(
    orders: Seq<MarketOrder>,
    item: Seq<char>,
    station: Seq<char>,
    max_price: u64,
    r: Seq<usize>,
)
    requires
        is_purchase_ranking(orders, item, station, max_price, r),
    ensures
        forall|m: int| 0 <= m < r.len() ==> #[trigger] r[m] < orders.len(),
        forall|i: int, j: int| 0 <= i < j < r.len() ==> r[i] != r[j],
        forall|m: int| 0 <= m < r.len() ==> #[trigger] orders[r[m] as int].price_per_unit <= max_price,
{
    if max_price != PRICE_UNORDERED {
        assert forall|i: int, j: int| 0 <= i < j < r.len() implies r[i] != r[j] by {
            assert(ranks_before(orders, false, r[i] as int, r[j] as int));
        }
        assert forall|m: int| 0 <= m < r.len() implies #[trigger] orders[r[m] as int].price_per_unit
            <= max_price by {
            assert(selects(orders[r[m] as int], OrderSide::Sell, item, station, max_price));
        }
    }
}

/// A purchase accounts for every unit: the units still wanted and the units
/// filled make up the units asked for, and the units filled leave the book.
pub proof fn law_purchase_accounting(orders: Seq<MarketOrder>, r: Seq<usize>, want: u64, k: nat)
    requires
        k <= r.len(),
        forall|m: int| 0 <= m < r.len() ==> #[trigger] r[m] < orders.len(),
    ensures
        buy_through(orders, r, want, k).0.len() == orders.len(),
        buy_through(orders, r, want, k).1 <= want,
        fill_units(buy_through(orders, r, want, k).2) + buy_through(orders, r, want, k).1 == want,
        total_quantity(buy_through(orders, r, want, k).0) + fill_units(
            buy_through(orders, r, want, k).2,
        ) == total_quantity(orders),
    decreases k,
{
    if k > 0 {
        law_purchase_accounting(orders, r, want, (k - 1) as nat);
        let st = buy_through(orders, r, want, (k - 1) as nat);
        let p = r[k - 1] as int;
        if st.1 != 0 {
            let o = st.0[p];
            let take: u64 = if o.quantity < st.1 {
                o.quantity
            } else {
                st.1
            };
            lemma_total_update(st.0, p, with_quantity(o, (o.quantity - take) as u64));
            let fills = st.2.push(Fill { order_id: o.order_id, price_per_unit: o.price_per_unit, units: take });
            assert(fills.drop_last() =~= st.2);
        }
    }
}

/// Removing what was just added gives back the holdings, unless the item was
/// held at zero units, whose entry the removal drops.
pub proof fn law_remove_undoes_add(held: Map<Seq<char>, u64>, name: Seq<char>, qty: u64)
    requires
        held_quantity(held, name) + qty <= u64::MAX,
        !(held.contains_key(name) && held[name] == 0),
    ensures
        after_remove(after_add(held, name, qty), name, qty) == held,
{
    let added = after_add(held, name, qty);
    assert(held_quantity(added, name) == held_quantity(held, name) + qty);
    if held.contains_key(name) {
        assert(after_remove(added, name, qty) =~= held);
    } else {
        assert(after_remove(added, name, qty) =~= held);
    }
}

/// The holdings after adding `qty` units of the item named `name`.
pub open spec fn after_add(held: Map<Seq<char>, u64>, name: Seq<char>, qty: u64) -> Map<
    Seq<char>,
    u64,
> {
    held.insert(name, (held_quantity(held, name) + qty) as u64)
}

/// The holdings after removing `qty` units of the item named `name`: unchanged
/// when fewer are held, without the item when exactly that many are held.
pub open spec fn after_remove(held: Map<Seq<char>, u64>, name: Seq<char>, qty: u64) -> Map<
    Seq<char>,
    u64,
> {
    let q = held_quantity(held, name);
    if q < qty {
        held
    } else if q == qty {
        held.remove(name)
    } else {
        held.insert(name, (q - qty) as u64)
    }
}

/// Player inventory: quantities of each item type held in cargo.
#[derive(Debug, Clone)]
pub struct Inventory {
    items: Vec<(String, u64)>,
}

impl Inventory {
    /// The quantities held, by item name.
    pub closed spec fn spec_items(&self) -> Map<Seq<char>, u64> {
        entry_map(self.items@)
    }

    /// No item name is listed twice.
    pub closed spec fn wf(&self) -> bool {
        names_unique(self.items@)
    }

    /// An empty inventory.
    pub fn new() -> (inv: Self)
        ensures
            inv.wf(),
            inv.spec_items() == Map::<Seq<char>, u64>::empty(),
    {
        let inv = Inventory { items: Vec::new() };
        assert(inv.spec_items() =~= Map::<Seq<char>, u64>::empty());
        inv
    }

    /// The entries held: item name and quantity, each name once.
    pub fn entries(&self) -> (entries: &Vec<(String, u64)>)
        ensures
            names_unique(entries@) == self.wf(),
            entry_map(entries@) == self.spec_items(),
    {
        &self.items
    }

    /// The quantity held of `item`: 0 when none is held.
    pub fn quantity(&self, item: &ItemType) -> (q: u64)
        requires
            self.wf(),
        ensures
            q == held_quantity(self.spec_items(), item.0@),
    {
        match position(&self.items, item.0.as_str()) {
            Some(i) => {
                proof {
                    lemma_entry(self.items@, i as int);
                }
                self.items[i].1
            },
            None => 0,
        }
    }

    /// Adds `qty` units of `item`; an item not yet held gets an entry, even
    /// for zero units.
    pub fn add(&mut self, item: &ItemType, qty: u64)
        requires
            old(self).wf(),
            held_quantity(old(self).spec_items(), item.0@) + qty <= u64::MAX,
        ensures
            final(self).wf(),
            final(self).spec_items() == after_add(old(self).spec_items(), item.0@, qty),
    {
        let ghost old_items = self.items@;
        match position(&self.items, item.0.as_str()) {
            Some(i) => {
                proof {
                    lemma_entry(old_items, i as int);
                }
                let (name, q) = self.items.remove(i);
                self.items.insert(i, (name, q + qty));
                proof {
                    lemma_update(old_items, self.items@, i as int);
                }
            },
            None => {
                let entry = (item.0.clone(), qty);
                proof {
                    lemma_push(old_items, entry);
                }
                self.items.push(entry);
            },
        }
    }

    /// Removes items from inventory. Returns `false` if there are not enough.
    /// An entry that reaches zero units is dropped; removing zero units of an
    /// item not held succeeds and changes nothing.
    pub fn remove(&mut self, item: &ItemType, qty: u64) -> (removed: bool)
        requires
            old(self).wf(),
        ensures
            final(self).wf(),
            removed == (held_quantity(old(self).spec_items(), item.0@) >= qty),
            final(self).spec_items() == after_remove(old(self).spec_items(), item.0@, qty),
    {
        let current = self.quantity(item);
        if current >= qty {
            let ghost old_items = self.items@;
            match position(&self.items, item.0.as_str()) {
                Some(i) => {
                    proof {
                        lemma_entry(old_items, i as int);
                    }
                    let (name, q) = self.items.remove(i);
                    if q - qty == 0 {
                        proof {
                            lemma_remove(old_items, i as int);
                        }
                    } else {
                        self.items.insert(i, (name, q - qty));
                        proof {
                            lemma_update(old_items, self.items@, i as int);
                        }
                    }
                },
                None => {
                    // Nothing held and nothing to remove.
                    assert(old(self).spec_items().remove(item.0@) =~= old(self).spec_items());
                },
            }
            true
        } else {
            false
        }
    }
}

impl Default for Inventory {
    fn default() -> (inv: Self)
        ensures
            inv.wf(),
            inv.spec_items() == Map::<Seq<char>, u64>::empty(),
    {
        Inventory::new()
    }
}

} // verus!
