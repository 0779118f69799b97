use chrono::Utc;
use command_domain::{
    DiscountError, Fixed, Order, OrderError, OrderId, OrderItem, OrderItemId, PriceError,
    ProductNameError, QuantityError, Timestamp,
};
use rust_decimal::Decimal;

fn to_decimal(f: Fixed) -> Decimal {
    Decimal::from_i128_with_scale(f.hundredths, 2)
}

fn now() -> Timestamp {
    let t = Utc::now();
    Timestamp::from_unix(t.timestamp(), t.timestamp_subsec_nanos()).unwrap()
}

#[test]
fn test_order_calc_total_price_success() {
    let data1 = OrderItem::place_order_item(OrderItemId::new(), 1, "hogehoge", 500, 1, 2).unwrap();
    let data2 = OrderItem::place_order_item(OrderItemId::new(), 2, "fugafuga", 100, 1, 10).unwrap();
    let vec: Vec<OrderItem> = vec![data1.clone(), data2.clone()];
    let result = Order::calc_total_price(&vec);

    let expected_value = {
        let data1_unit_price = to_decimal(data1.get_unit_price());
        let data1_quantity = Decimal::from(data1.get_quantity());
        let data1_discount = to_decimal(data1.get_discount());
        let data1_item_total = data1_unit_price * data1_quantity;
        let data1_discounted =
            data1_item_total - (data1_item_total * data1_discount / Decimal::from(100));

        let data2_unit_price = to_decimal(data2.get_unit_price());
        let data2_quantity = Decimal::from(data2.get_quantity());
        let data2_discount = to_decimal(data2.get_discount());
        let data2_item_total = data2_unit_price * data2_quantity;
        let data2_discounted =
            data2_item_total - (data2_item_total * data2_discount / Decimal::from(100));

        data1_discounted + data2_discounted
    };

    assert_eq!(expected_value, to_decimal(result.unwrap().value()))
}

#[test]
fn test_order_place_order_success() {
    let order_id = OrderId::new();
    let ordered_at = now();
    let data1 = OrderItem::place_order_item(OrderItemId::new(), 1, "hogehoge", 500, 1, 2).unwrap();
    let data2 = OrderItem::place_order_item(OrderItemId::new(), 2, "fugafuga", 100, 1, 10).unwrap();
    let order_items: Vec<OrderItem> = vec![data1.clone(), data2.clone()];

    let result = Order::place_order(order_id.clone(), ordered_at.clone(), order_items);

    assert!(result.is_ok());
    assert_eq!(result.unwrap().id(), order_id);
}

#[test]
fn test_order_place_order_failed() {
    let order_id = OrderId::new();
    let ordered_at = now();
    let order_items: Vec<OrderItem> = vec![];

    let result = Order::place_order(order_id, ordered_at, order_items);

    assert!(result.is_err())
}

#[test]
fn empty_order_fails_with_empty_order() {
    let result = Order::place_order(OrderId::from_raw(7), Timestamp::from_unix(0, 0).unwrap(), vec![]);
    assert_eq!(result.unwrap_err(), OrderError::EmptyOrder);
}

#[test]
fn scenario_two_items_total_1900() {
    let a = OrderItem::place_order_item(OrderItemId::new(), 1, "a", 500, 10, 2).unwrap();
    let b = OrderItem::place_order_item(OrderItemId::new(), 2, "b", 100, 0, 10).unwrap();
    let total = Order::calc_total_price(&vec![a.clone(), b.clone()]).unwrap();
    assert_eq!(total.value(), Fixed::from_int(1900));
    assert_eq!(to_decimal(total.value()), Decimal::from(1900));

    let at = now();
    let order = Order::place_order(OrderId::from_raw(1), at, vec![a, b]).unwrap();
    assert_eq!(order.total_price().value(), Fixed::from_int(1900));
    assert_eq!(order.order_items().len(), 2);
    assert_eq!(order.ordered_at(), at);
    assert_eq!(order.id().raw_value(), 1);
}

#[test]
fn scenario_full_discount_total_is_rejected() {
    let item = OrderItem::place_order_item(OrderItemId::new(), 1, "free", 50, 100, 1).unwrap();
    let total = Order::calc_total_price(&vec![item.clone()]);
    assert_eq!(
        total.unwrap_err(),
        OrderError::InvalidPriceError(PriceError { value: Fixed::from_int(0) })
    );
    let placed = Order::place_order(OrderId::new(), now(), vec![item]);
    assert_eq!(
        placed.unwrap_err(),
        OrderError::InvalidPriceError(PriceError { value: Fixed::from_int(0) })
    );
}

#[test]
fn fractional_discount_total_is_exact() {
    let a = OrderItem::place_order_item(OrderItemId::new(), 1, "a", 3, 33, 7).unwrap();
    let b = OrderItem::place_order_item(OrderItemId::new(), 2, "b", 1, 99, 1).unwrap();
    let total = Order::calc_total_price(&vec![a, b]).unwrap();
    // 3 * 7 * 0.67 + 1 * 1 * 0.01 = 14.07 + 0.01
    assert_eq!(total.value(), Fixed::from_hundredths(1408));
}

#[test]
fn calc_total_price_twice_gives_same_result() {
    let a = OrderItem::place_order_item(OrderItemId::new(), 1, "a", 250, 15, 4).unwrap();
    let b = OrderItem::place_order_item(OrderItemId::new(), 2, "b", 999, 0, 3).unwrap();
    let items = vec![a, b];
    let first = Order::calc_total_price(&items).unwrap();
    let second = Order::calc_total_price(&items).unwrap();
    assert_eq!(first, second);
    assert_eq!(first.value(), Fixed::from_int(850 + 2997));
}

#[test]
fn largest_item_total_is_exact() {
    let m = i32::MAX;
    let item = OrderItem::place_order_item(OrderItemId::new(), 1, "max", m, 0, m).unwrap();
    let total = Order::calc_total_price(&vec![item.clone(), item]).unwrap();
    assert_eq!(total.value().hundredths, 2 * (m as i128) * (m as i128) * 100);
}

#[test]
fn scenario_negative_quantity_fails_first() {
    let r = OrderItem::place_order_item(OrderItemId::new(), 1, "", -5, 500, -1);
    assert_eq!(r.unwrap_err(), OrderError::InvalidQuantityError(QuantityError { value: -1 }));
}

#[test]
fn item_errors_come_in_order() {
    let r = OrderItem::place_order_item(OrderItemId::new(), 1, "", 0, 500, 1);
    assert_eq!(
        r.unwrap_err(),
        OrderError::InvalidPriceError(PriceError { value: Fixed::from_int(0) })
    );
    let r = OrderItem::place_order_item(OrderItemId::new(), 1, "", 10, 101, 1);
    assert_eq!(r.unwrap_err(), OrderError::InvalidDiscountError(DiscountError { value: 101 }));
    let r = OrderItem::place_order_item(OrderItemId::new(), 1, "", 10, -1, 1);
    assert_eq!(r.unwrap_err(), OrderError::InvalidDiscountError(DiscountError { value: -1 }));
    let r = OrderItem::place_order_item(OrderItemId::new(), 1, "", 10, 100, 1);
    assert_eq!(r.unwrap_err(), OrderError::InvalidProductName(ProductNameError::NameEmpty));
}

#[test]
fn item_getters_return_fields() {
    let id = OrderItemId::from_raw(42);
    let item = OrderItem::place_order_item(id, 9, "pen", 120, 5, 3).unwrap();
    assert_eq!(item.get_order_item_id(), id);
    assert_eq!(item.get_product_id(), 9);
    assert_eq!(item.get_product_name().as_str(), "pen");
    assert_eq!(item.get_unit_price(), Fixed::from_int(120));
    assert_eq!(item.get_discount(), Fixed::from_int(5));
    assert_eq!(item.get_quantity(), 3);
    let copy = item.clone();
    assert_eq!(copy.get_product_name().as_str(), "pen");
}

#[test]
fn timestamp_rejects_two_seconds_of_nanos() {
    assert!(Timestamp::from_unix(10, 2_000_000_000).is_none());
    let t = Timestamp::from_unix(10, 1_999_999_999).unwrap();
    assert_eq!(t.secs(), 10);
    assert_eq!(t.subsec_nanos(), 1_999_999_999);
}

#[test]
fn order_error_from_value_object_errors() {
    assert_eq!(
        OrderError::from(QuantityError { value: 0 }),
        OrderError::InvalidQuantityError(QuantityError { value: 0 })
    );
    assert_eq!(
        OrderError::from(PriceError { value: Fixed::from_int(-2) }),
        OrderError::InvalidPriceError(PriceError { value: Fixed::from_int(-2) })
    );
    assert_eq!(
        OrderError::from(DiscountError { value: 300 }),
        OrderError::InvalidDiscountError(DiscountError { value: 300 })
    );
    assert_eq!(
        OrderError::from(ProductNameError::NameEmpty),
        OrderError::InvalidProductName(ProductNameError::NameEmpty)
    );
}

#[test]
fn cloned_order_keeps_items_and_total() {
    let a = OrderItem::place_order_item(OrderItemId::new(), 1, "a", 40, 25, 5).unwrap();
    let order = Order::place_order(OrderId::from_raw(3), now(), vec![a]).unwrap();
    let copy = order.clone();
    assert_eq!(copy.id(), order.id());
    assert_eq!(copy.ordered_at(), order.ordered_at());
    assert_eq!(copy.total_price(), order.total_price());
    assert_eq!(copy.total_price().value(), Fixed::from_int(150));
    assert_eq!(copy.order_items()[0].get_product_name().as_str(), "a");
}
