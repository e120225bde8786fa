use novaforge::economy::{
    Fill, Inventory, ItemType, MarketOrder, OrderBook, OrderSide, PRICE_UNORDERED, PRICE_ZERO,
};

fn order(owner: &str, item: &str, side: OrderSide, price: u64, quantity: u64, station: &str) -> MarketOrder {
    MarketOrder {
        order_id: 999,
        owner: owner.to_string(),
        item: ItemType::new(item),
        side,
        price_per_unit: price,
        quantity,
        station: station.to_string(),
    }
}

fn ids(orders: &[&MarketOrder]) -> Vec<u64> {
    orders.iter().map(|o| o.order_id).collect()
}

#[test]
fn item_type_new_and_default() {
    assert_eq!(ItemType::new("Tritanium").0, "Tritanium");
    assert_eq!(ItemType::default().0, "Unknown");
}

#[test]
fn order_side_and_order_defaults() {
    assert_eq!(OrderSide::default(), OrderSide::Sell);
    let o = MarketOrder::default();
    assert_eq!(o.order_id, 0);
    assert_eq!(o.owner, "");
    assert_eq!(o.item.0, "Unknown");
    assert_eq!(o.side, OrderSide::Sell);
    assert_eq!(o.price_per_unit, PRICE_ZERO);
    assert_eq!(o.quantity, 0);
    assert_eq!(o.station, "");
}

#[test]
fn post_assigns_consecutive_ids() {
    let mut book = OrderBook::new();
    assert_eq!(book.post(order("a", "Tritanium", OrderSide::Sell, PRICE_ZERO + 5, 10, "Jita")), 0);
    assert_eq!(book.post(order("b", "Tritanium", OrderSide::Sell, PRICE_ZERO + 4, 10, "Jita")), 1);
    assert_eq!(book.post(order("c", "Tritanium", OrderSide::Buy, PRICE_ZERO + 3, 10, "Jita")), 2);
    let item = ItemType::new("Tritanium");
    assert_eq!(ids(&book.best_sells(&item, "Jita")), vec![1, 0]);
    assert_eq!(ids(&book.best_buys(&item, "Jita")), vec![2]);
}

#[test]
fn cancel_removes_only_that_order() {
    let mut book = OrderBook::default();
    let a = book.post(order("a", "Tritanium", OrderSide::Sell, PRICE_ZERO + 5, 10, "Jita"));
    let b = book.post(order("b", "Tritanium", OrderSide::Sell, PRICE_ZERO + 6, 10, "Jita"));
    assert!(book.cancel(a));
    assert!(!book.cancel(a));
    assert!(!book.cancel(77));
    let item = ItemType::new("Tritanium");
    assert_eq!(ids(&book.best_sells(&item, "Jita")), vec![b]);
}

#[test]
fn cancel_after_post_restores_listing() {
    let mut book = OrderBook::new();
    let item = ItemType::new("Pyerite");
    book.post(order("a", "Pyerite", OrderSide::Sell, PRICE_ZERO + 9, 3, "Amarr"));
    let before = ids(&book.best_sells(&item, "Amarr"));
    let id = book.post(order("b", "Pyerite", OrderSide::Sell, PRICE_ZERO + 1, 3, "Amarr"));
    assert!(book.cancel(id));
    assert_eq!(ids(&book.best_sells(&item, "Amarr")), before);
}

#[test]
fn best_sells_cheapest_first_ties_oldest_first() {
    let mut book = OrderBook::new();
    book.post(order("a", "Tritanium", OrderSide::Sell, PRICE_ZERO + 7, 1, "Jita"));
    book.post(order("b", "Tritanium", OrderSide::Sell, PRICE_ZERO + 3, 1, "Jita"));
    book.post(order("c", "Tritanium", OrderSide::Sell, PRICE_ZERO + 7, 1, "Jita"));
    book.post(order("d", "Tritanium", OrderSide::Sell, PRICE_ZERO + 3, 1, "Jita"));
    book.post(order("e", "Tritanium", OrderSide::Sell, PRICE_ZERO + 1, 1, "Dodixie"));
    book.post(order("f", "Mexallon", OrderSide::Sell, PRICE_ZERO + 1, 1, "Jita"));
    book.post(order("g", "Tritanium", OrderSide::Buy, PRICE_ZERO + 1, 1, "Jita"));
    let item = ItemType::new("Tritanium");
    assert_eq!(ids(&book.best_sells(&item, "Jita")), vec![1, 3, 0, 2]);
}

#[test]
fn best_buys_highest_first_ties_oldest_first() {
    let mut book = OrderBook::new();
    book.post(order("a", "Tritanium", OrderSide::Buy, PRICE_ZERO + 2, 1, "Jita"));
    book.post(order("b", "Tritanium", OrderSide::Buy, PRICE_ZERO + 8, 1, "Jita"));
    book.post(order("c", "Tritanium", OrderSide::Buy, PRICE_ZERO + 2, 1, "Jita"));
    book.post(order("d", "Tritanium", OrderSide::Sell, PRICE_ZERO + 9, 1, "Jita"));
    let item = ItemType::new("Tritanium");
    assert_eq!(ids(&book.best_buys(&item, "Jita")), vec![1, 0, 2]);
    assert!(book.best_buys(&item, "Hek").is_empty());
}

#[test]
fn negative_prices_order_below_zero() {
    let mut book = OrderBook::new();
    book.post(order("a", "Scrap", OrderSide::Sell, PRICE_ZERO, 1, "Jita"));
    book.post(order("b", "Scrap", OrderSide::Sell, PRICE_ZERO - 10, 1, "Jita"));
    let item = ItemType::new("Scrap");
    assert_eq!(ids(&book.best_sells(&item, "Jita")), vec![1, 0]);
}

#[test]
fn offers_comparable_detects_unordered_price() {
    let mut book = OrderBook::new();
    let item = ItemType::new("Tritanium");
    book.post(order("a", "Tritanium", OrderSide::Sell, PRICE_UNORDERED, 1, "Jita"));
    assert!(book.offers_comparable(OrderSide::Sell, &item, "Jita"));
    book.post(order("b", "Tritanium", OrderSide::Sell, PRICE_ZERO + 1, 1, "Jita"));
    assert!(!book.offers_comparable(OrderSide::Sell, &item, "Jita"));
    assert!(book.offers_comparable(OrderSide::Buy, &item, "Jita"));
    assert!(book.offers_comparable(OrderSide::Sell, &item, "Amarr"));
}

#[test]
fn immediate_buy_takes_cheapest_first() {
    let mut book = OrderBook::new();
    book.post(order("a", "Tritanium", OrderSide::Sell, PRICE_ZERO + 6, 5, "Jita"));
    book.post(order("b", "Tritanium", OrderSide::Sell, PRICE_ZERO + 4, 3, "Jita"));
    book.post(order("c", "Tritanium", OrderSide::Sell, PRICE_ZERO + 9, 100, "Jita"));
    let item = ItemType::new("Tritanium");
    let (fills, units) = book.immediate_buy(&item, "Jita", 6, PRICE_ZERO + 8);
    assert_eq!(units, 6);
    assert_eq!(
        fills,
        vec![
            Fill { order_id: 1, price_per_unit: PRICE_ZERO + 4, units: 3 },
            Fill { order_id: 0, price_per_unit: PRICE_ZERO + 6, units: 3 },
        ]
    );
    // Order 1 is used up and gone; order 0 keeps 2 units.
    let left = book.best_sells(&item, "Jita");
    assert_eq!(ids(&left), vec![0, 2]);
    assert_eq!(left[0].quantity, 2);
    assert_eq!(left[1].quantity, 100);
}

#[test]
fn immediate_buy_short_supply_buys_what_exists() {
    let mut book = OrderBook::new();
    book.post(order("a", "Tritanium", OrderSide::Sell, PRICE_ZERO + 6, 5, "Jita"));
    let item = ItemType::new("Tritanium");
    let (fills, units) = book.immediate_buy(&item, "Jita", 50, PRICE_ZERO + 6);
    assert_eq!(units, 5);
    assert_eq!(fills.len(), 1);
    assert!(book.best_sells(&item, "Jita").is_empty());
}

#[test]
fn immediate_buy_respects_price_limit_and_nan_limit() {
    let mut book = OrderBook::new();
    book.post(order("a", "Tritanium", OrderSide::Sell, PRICE_ZERO + 6, 5, "Jita"));
    let item = ItemType::new("Tritanium");
    let (fills, units) = book.immediate_buy(&item, "Jita", 5, PRICE_ZERO + 5);
    assert_eq!((fills.len(), units), (0, 0));
    let (fills, units) = book.immediate_buy(&item, "Jita", 5, PRICE_UNORDERED);
    assert_eq!((fills.len(), units), (0, 0));
    assert_eq!(book.best_sells(&item, "Jita")[0].quantity, 5);
}

#[test]
fn immediate_buy_drops_empty_orders_everywhere() {
    let mut book = OrderBook::new();
    book.post(order("a", "Mexallon", OrderSide::Sell, PRICE_ZERO + 6, 0, "Jita"));
    book.post(order("b", "Tritanium", OrderSide::Sell, PRICE_ZERO + 6, 1, "Jita"));
    let other = ItemType::new("Mexallon");
    assert_eq!(book.best_sells(&other, "Jita").len(), 1);
    let (_, units) = book.immediate_buy(&ItemType::new("Tritanium"), "Jita", 0, PRICE_ZERO + 6);
    assert_eq!(units, 0);
    assert!(book.best_sells(&other, "Jita").is_empty());
}

#[test]
fn immediate_buy_visits_empty_order_while_units_wanted() {
    let mut book = OrderBook::new();
    book.post(order("a", "Tritanium", OrderSide::Sell, PRICE_ZERO + 1, 0, "Jita"));
    book.post(order("b", "Tritanium", OrderSide::Sell, PRICE_ZERO + 2, 4, "Jita"));
    let (fills, units) = book.immediate_buy(&ItemType::new("Tritanium"), "Jita", 2, PRICE_ZERO + 9);
    assert_eq!(units, 2);
    assert_eq!(
        fills,
        vec![
            Fill { order_id: 0, price_per_unit: PRICE_ZERO + 1, units: 0 },
            Fill { order_id: 1, price_per_unit: PRICE_ZERO + 2, units: 2 },
        ]
    );
}

#[test]
fn inventory_add_quantity_remove() {
    let mut inv = Inventory::new();
    let trit = ItemType::new("Tritanium");
    let pye = ItemType::new("Pyerite");
    assert_eq!(inv.quantity(&trit), 0);
    inv.add(&trit, 10);
    inv.add(&trit, 5);
    inv.add(&pye, 1);
    assert_eq!(inv.quantity(&trit), 15);
    assert_eq!(inv.quantity(&pye), 1);
    assert!(!inv.remove(&trit, 16));
    assert_eq!(inv.quantity(&trit), 15);
    assert!(inv.remove(&trit, 15));
    assert_eq!(inv.quantity(&trit), 0);
    assert!(!inv.remove(&trit, 1));
    assert_eq!(inv.quantity(&pye), 1);
}

#[test]
fn inventory_remove_undoes_add() {
    let mut inv = Inventory::default();
    let trit = ItemType::new("Tritanium");
    inv.add(&trit, 7);
    inv.add(&trit, 3);
    assert!(inv.remove(&trit, 3));
    assert_eq!(inv.quantity(&trit), 7);
}

#[test]
fn inventory_zero_entry_is_dropped_by_zero_removal() {
    let mut inv = Inventory::new();
    let trit = ItemType::new("Tritanium");
    inv.add(&trit, 0);
    assert!(inv.remove(&trit, 0));
    // The entry is gone: removing one unit is refused, adding works again.
    assert!(!inv.remove(&trit, 1));
    inv.add(&trit, 2);
    assert_eq!(inv.quantity(&trit), 2);
}

#[test]
fn immediate_buy_units_leave_the_book() {
    let mut book = OrderBook::new();
    book.post(order("a", "Isogen", OrderSide::Sell, PRICE_ZERO + 3, 4, "Rens"));
    book.post(order("b", "Isogen", OrderSide::Sell, PRICE_ZERO + 2, 2, "Rens"));
    book.post(order("c", "Isogen", OrderSide::Sell, PRICE_ZERO + 5, 9, "Rens"));
    let item = ItemType::new("Isogen");
    let total = |b: &OrderBook| -> u64 { b.best_sells(&item, "Rens").iter().map(|o| o.quantity).sum() };
    let before = total(&book);
    let (fills, units) = book.immediate_buy(&item, "Rens", 7, PRICE_ZERO + 5);
    assert_eq!(units, 7);
    assert_eq!(fills.iter().map(|f| f.units).sum::<u64>(), units);
    assert_eq!(total(&book) + units, before);
    assert_eq!(book.next_id(), 3);
}

#[test]
fn inventory_remove_zero_of_item_not_held() {
    let mut inv = Inventory::default();
    let veld = ItemType::new("Veldspar");
    assert!(inv.remove(&veld, 0));
    assert_eq!(inv.quantity(&veld), 0);
    assert!(!inv.remove(&veld, 1));
}

#[test]
fn immediate_buy_gets_min_of_asked_and_offered() {
    let mut book = OrderBook::new();
    book.post(order("a", "Zydrine", OrderSide::Sell, PRICE_ZERO + 3, 4, "Hek"));
    book.post(order("b", "Zydrine", OrderSide::Sell, PRICE_ZERO + 30, 50, "Hek"));
    book.post(order("c", "Zydrine", OrderSide::Buy, PRICE_ZERO + 1, 50, "Hek"));
    book.post(order("d", "Zydrine", OrderSide::Sell, PRICE_ZERO + 2, 3, "Hek"));
    let item = ItemType::new("Zydrine");
    // Offered within the limit: 4 + 3 units.
    let (fills, units) = book.immediate_buy(&item, "Hek", 100, PRICE_ZERO + 10);
    assert_eq!(units, 7);
    assert!(fills.iter().all(|f| f.price_per_unit <= PRICE_ZERO + 10));
    // Orders outside the purchase are kept as they were.
    assert_eq!(book.best_sells(&item, "Hek")[0].quantity, 50);
    assert_eq!(book.best_buys(&item, "Hek")[0].quantity, 50);
}

#[test]
fn order_book_saved_and_restored() {
    let mut book = OrderBook::new();
    book.post(order("a", "Tritanium", OrderSide::Sell, PRICE_ZERO + 5, 10, "Jita"));
    book.post(order("b", "Tritanium", OrderSide::Buy, PRICE_ZERO + 4, 2, "Jita"));
    assert_eq!(book.orders().len(), 2);
    assert_eq!(book.orders()[1].order_id, 1);
    let saved: Vec<MarketOrder> = book
        .orders()
        .iter()
        .map(|o| order(&o.owner, &o.item.0, o.side, o.price_per_unit, o.quantity, &o.station))
        .zip([0u64, 1])
        .map(|(mut o, id)| {
            o.order_id = id;
            o
        })
        .collect();
    let mut restored = OrderBook::from_orders(saved, book.next_id()).unwrap();
    assert_eq!(restored.next_id(), 2);
    assert_eq!(restored.post(MarketOrder::default()), 2);
}

#[test]
fn order_book_restore_refuses_bad_ids() {
    let orders = vec![
        order("a", "X", OrderSide::Sell, PRICE_ZERO, 1, "S"),
        order("b", "X", OrderSide::Sell, PRICE_ZERO, 1, "S"),
    ];
    // Both carry the same identifier.
    assert!(OrderBook::from_orders(orders, 1000).is_none());
    let mut o = order("a", "X", OrderSide::Sell, PRICE_ZERO, 1, "S");
    o.order_id = 5;
    assert!(OrderBook::from_orders(vec![o], 5).is_none());
    assert!(OrderBook::from_orders(Vec::new(), 0).is_some());
}

#[test]
fn inventory_entries() {
    let mut inv = Inventory::new();
    inv.add(&ItemType::new("Tritanium"), 4);
    inv.add(&ItemType::new("Pyerite"), 0);
    let e = inv.entries();
    assert_eq!(e.len(), 2);
    assert!(e.contains(&("Tritanium".to_string(), 4)));
    assert!(e.contains(&("Pyerite".to_string(), 0)));
}
