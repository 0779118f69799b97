//! A validated line of an order.
use vstd::prelude::*;
use crate::aggregate_id::AggregateId;
use crate::order_error::OrderError;
use crate::order_item_id::OrderItemId;
use crate::product::{ProductName, ProductNameError};
use crate::value_object::{
    Discount, DiscountError, Fixed, Price, PriceError, Quantity, QuantityError,
};

verus! {

/// What an order item holds, as plain values: the unit price in whole
/// currency units, the discount in percent.
pub struct OrderItemView {
    pub order_item_id: u128,
    pub product_id: i32,
    pub product_name: Seq<char>,
    pub unit_price: int,
    pub discount: int,
    pub quantity: int,
}

/// The first rule that the raw fields of an order item break, checked in the
/// order quantity, unit price, discount, product name; `None` when all hold.
pub open spec fn first_item_error(
    product_name: Seq<char>,
    unit_price: i32,
    discount: i32,
    quantity: i32,
) -> Option<OrderError> {
    if quantity <= 0 {
        Some(OrderError::InvalidQuantityError(QuantityError { value: quantity as i64 }))
    } else if unit_price <= 0 {
        Some(
            OrderError::InvalidPriceError(
                PriceError { value: Fixed { hundredths: (unit_price * 100) as i128 } },
            ),
        )
    } else if !(0 <= discount <= 100) {
        Some(OrderError::InvalidDiscountError(DiscountError { value: discount }))
    } else if product_name.len() == 0 {
        Some(OrderError::InvalidProductName(ProductNameError::NameEmpty))
    } else {
        None
    }
}

/// The amount due for one item, in hundredths:
/// `unit_price * quantity * (1 - discount / 100)`, times one hundred.
pub open spec fn line_total(v: OrderItemView) -> int {
    v.unit_price * v.quantity * (100 - v.discount)
}

/// A line of an order: a product, its unit price, a discount and a quantity.
#[derive(Debug)]
pub struct OrderItem {
    order_item_id: OrderItemId,
    product_id: i32,
    product_name: ProductName,
    unit_price: Price,
    discount: Discount,
    quantity: Quantity,
}

impl View for OrderItem {
    type V = OrderItemView;

    closed spec fn view(&self) -> OrderItemView {
        OrderItemView {
            order_item_id: self.order_item_id.raw(),
            product_id: self.product_id,
            product_name: self.product_name@,
            unit_price: self.unit_price@ / 100,
            discount: self.discount@,
            quantity: self.quantity@,
        }
    }
}

impl OrderItem {
    /// The unit price is a whole amount that fits an `i32`.
    #[verifier::type_invariant]
    spec fn whole_unit_price(self) -> bool {
        &&& self.unit_price@ % 100 == 0
        &&& self.unit_price@ <= 100 * i32::MAX
    }

    /// Builds an item from raw fields, validating quantity, unit price,
    /// discount and product name in that order and reporting the first
    /// failure.
    pub fn place_order_item(
        order_item_id: OrderItemId,
        product_id: i32,
        product_name: &str,
        unit_price: i32,
        discount: i32,
        quantity: i32,
    ) -> (r: Result<OrderItem, OrderError>)
        ensures
            match r {
                Ok(item) => first_item_error(product_name@, unit_price, discount, quantity) is None
                    && item@ == (OrderItemView {
                    order_item_id: order_item_id.raw(),
                    product_id,
                    product_name: product_name@,
                    unit_price: unit_price as int,
                    discount: discount as int,
                    quantity: quantity as int,
                }),
                Err(e) => first_item_error(product_name@, unit_price, discount, quantity) == Some(
                    e,
                ),
            },
    {
        let quantity = match Quantity::try_from(quantity) {
            Ok(q) => q,
            Err(e) => return Err(OrderError::InvalidQuantityError(e)),
        };
        let unit_price = match Price::try_from(Fixed::from_int(unit_price as i64)) {
            Ok(p) => p,
            Err(e) => return Err(OrderError::InvalidPriceError(e)),
        };
        let discount = match Discount::try_from(discount) {
            Ok(d) => d,
            Err(e) => return Err(OrderError::InvalidDiscountError(e)),
        };
        let product_name = match ProductName::new(product_name) {
            Ok(n) => n,
            Err(e) => return Err(OrderError::InvalidProductName(e)),
        };
        Ok(OrderItem { order_item_id, product_id, product_name, unit_price, discount, quantity })
    }

    /// The identifier of this item.
    pub fn get_order_item_id(&self) -> (r: OrderItemId)
        ensures
            r.raw() == self@.order_item_id,
    {
        self.order_item_id
    }

    /// The identifier of the product.
    pub fn get_product_id(&self) -> (r: i32)
        ensures
            r == self@.product_id,
    {
        self.product_id
    }

    /// The name of the product.
    pub fn get_product_name(&self) -> (r: &ProductName)
        ensures
            r@ == self@.product_name,
    {
        &self.product_name
    }

    /// The unit price.
    pub fn get_unit_price(&self) -> (r: Fixed)
        ensures
            r@ == 100 * self@.unit_price,
            0 < self@.unit_price <= i32::MAX,
    {
        proof {
            use_type_invariant(self);
        }
        self.unit_price.value()
    }

    /// The quantity.
    pub fn get_quantity(&self) -> (r: i32)
        ensures
            r == self@.quantity,
            0 < r,
    {
        self.quantity.value()
    }

    /// The discount in percent.
    pub fn get_discount(&self) -> (r: Fixed)
        ensures
            r@ == 100 * self@.discount,
            0 <= self@.discount <= 100,
    {
        self.discount.value()
    }
}

impl Clone for OrderItem {
    fn clone(&self) -> (r: OrderItem)
        ensures
            r@ == self@,
    {
        proof {
            use_type_invariant(self);
        }
        OrderItem {
            order_item_id: self.order_item_id,
            product_id: self.product_id,
            product_name: self.product_name.clone(),
            unit_price: self.unit_price,
            discount: self.discount,
            quantity: self.quantity,
        }
    }
}

} // verus!
