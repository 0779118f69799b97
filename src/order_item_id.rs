//! The identifier of an order item.
use vstd::prelude::*;
use crate::aggregate_id::{AggregateId, hyphenated, is_v4, random_v4, render_id};

verus! {

/// The type prefix of order item identifiers.
pub open spec fn order_item_prefix() -> Seq<char> {
    seq!['O', 'R', 'D', 'E', 'R', '_', 'I', 'T', 'E', 'M']
}

/// The identifier of an order item; equality and ordering follow the raw value.
#[derive(Debug, Clone, Copy, PartialEq, Eq, Structural, PartialOrd, Ord, Hash)]
pub struct OrderItemId {
    value: u128,
}

impl OrderItemId {
    /// A fresh random identifier.
    pub fn new() -> (r: OrderItemId)
        ensures
            is_v4(r.raw()),
    {
        OrderItemId { value: Self::generate_id() }
    }

    /// Wraps a value known from before, e.g. one read back from storage.
    pub fn from_raw(value: u128) -> (r: OrderItemId)
        ensures
            r.raw() == value,
    {
        OrderItemId { value }
    }

    /// The 128-bit value.
    pub fn raw_value(&self) -> (r: u128)
        ensures
            r == self.raw(),
    {
        self.value
    }
}

impl AggregateId for OrderItemId {
    open spec fn prefix() -> Seq<char> {
        order_item_prefix()
    }

    closed spec fn raw(&self) -> u128 {
        self.value
    }

    fn type_prefix(&self) -> (r: String) {
        proof {
            reveal_strlit("ORDER_ITEM");
        }
        let r = "ORDER_ITEM".to_owned();
        assert(r@ =~= order_item_prefix());
        r
    }

    fn value(&self) -> (r: String) {
        hyphenated(self.value)
    }

    fn generate_id() -> (r: u128) {
        random_v4()
    }

    fn display(&self) -> (r: String) {
        proof {
            reveal_strlit("ORDER_ITEM");
        }
        assert("ORDER_ITEM"@ =~= order_item_prefix());
        render_id("ORDER_ITEM", self.value)
    }
}

} // verus!
