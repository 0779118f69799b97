//! Order-management domain core: validated value objects, typed aggregate
//! identifiers, order items and the `Order` aggregate with its derived total.
pub mod aggregate_id;
pub mod order;
pub mod order_error;
pub mod order_id;
pub mod order_item;
pub mod order_item_id;
pub mod product;
pub mod timestamp;
pub mod value_object;

pub use aggregate_id::AggregateId;
pub use order::Order;
pub use order_error::OrderError;
pub use order_id::OrderId;
pub use order_item::OrderItem;
pub use order_item_id::OrderItemId;
pub use product::{ProductName, ProductNameError};
pub use timestamp::Timestamp;
pub use value_object::{Discount, DiscountError, Fixed, Price, PriceError, Quantity, QuantityError};
