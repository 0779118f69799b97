//! The errors reported when an order or one of its items cannot be built.
use vstd::prelude::*;
use crate::product::ProductNameError;
use crate::value_object::{DiscountError, PriceError, QuantityError};

verus! {

/// Why an order or an order item was refused; each variant carries the
/// error of the value object whose rule was broken.
#[derive(Debug, Clone, Copy, PartialEq, Eq, Structural)]
pub enum OrderError {
    /// A quantity was not strictly positive.
    InvalidQuantityError(QuantityError),
    /// A unit price or a derived total was not strictly positive.
    InvalidPriceError(PriceError),
    /// A discount was outside `0..=100` percent.
    InvalidDiscountError(DiscountError),
    /// A product name was empty.
    InvalidProductName(ProductNameError),
    /// An order was placed without any item.
    EmptyOrder,
}

impl From<QuantityError> for OrderError {
    fn from(e: QuantityError) -> (r: OrderError)
        ensures
            r == OrderError::InvalidQuantityError(e),
    {
        OrderError::InvalidQuantityError(e)
    }
}

impl vstd::std_specs::convert::FromSpecImpl<QuantityError> for OrderError {
    open spec fn obeys_from_spec() -> bool {
        true
    }

    open spec fn from_spec(e: QuantityError) -> OrderError {
        OrderError::InvalidQuantityError(e)
    }
}

impl From<PriceError> for OrderError {
    fn from(e: PriceError) -> (r: OrderError)
        ensures
            r == OrderError::InvalidPriceError(e),
    {
        OrderError::InvalidPriceError(e)
    }
}

impl vstd::std_specs::convert::FromSpecImpl<PriceError> for OrderError {
    open spec fn obeys_from_spec() -> bool {
        true
    }

    open spec fn from_spec(e: PriceError) -> OrderError {
        OrderError::InvalidPriceError(e)
    }
}

impl From<DiscountError> for OrderError {
    fn from(e: DiscountError) -> (r: OrderError)
        ensures
            r == OrderError::InvalidDiscountError(e),
    {
        OrderError::InvalidDiscountError(e)
    }
}

impl vstd::std_specs::convert::FromSpecImpl<DiscountError> for OrderError {
    open spec fn obeys_from_spec() -> bool {
        true
    }

    open spec fn from_spec(e: DiscountError) -> OrderError {
        OrderError::InvalidDiscountError(e)
    }
}

impl From<ProductNameError> for OrderError {
    fn from(e: ProductNameError) -> (r: OrderError)
        ensures
            r == OrderError::InvalidProductName(e),
    {
        OrderError::InvalidProductName(e)
    }
}

impl vstd::std_specs::convert::FromSpecImpl<ProductNameError> for OrderError {
    open spec fn obeys_from_spec() -> bool {
        true
    }

    open spec fn from_spec(e: ProductNameError) -> OrderError {
        OrderError::InvalidProductName(e)
    }
}

} // verus!
