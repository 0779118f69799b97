//! The identifier of an order.
use vstd::prelude::*;
use crate::aggregate_id::{AggregateId, hyphenated, is_v4, random_v4, render_id};

verus! {

/// The type prefix of order identifiers.
pub open spec fn order_prefix() -> Seq<char> {
    seq!['O', 'R', 'D', 'E', 'R']
}

/// The identifier of an order; equality and ordering follow the raw value.
#[derive(Debug, Clone, Copy, PartialEq, Eq, Structural, PartialOrd, Ord, Hash)]
pub struct OrderId {
    value: u128,
}

impl OrderId {
    /// A fresh random identifier.
    pub fn new() -> (r: OrderId)
        ensures
            is_v4(r.raw()),
    {
        OrderId { value: Self::generate_id() }
    }

    /// Wraps a value known from before, e.g. one read back from storage.
    pub fn from_raw(value: u128) -> (r: OrderId)
        ensures
            r.raw() == value,
    {
        OrderId { value }
    }

    /// The 128-bit value.
    pub fn raw_value(&self) -> (r: u128)
        ensures
            r == self.raw(),
    {
        self.value
    }
}

impl AggregateId for OrderId {
    open spec fn prefix() -> Seq<char> {
        order_prefix()
    }

    closed spec fn raw(&self) -> u128 {
        self.value
    }

    fn type_prefix(&self) -> (r: String) {
        proof {
            reveal_strlit("ORDER");
        }
        let r = "ORDER".to_owned();
        assert(r@ =~= order_prefix());
        r
    }

    fn value(&self) -> (r: String) {
        hyphenated(self.value)
    }

    fn generate_id() -> (r: u128) {
        random_v4()
    }

    fn display(&self) -> (r: String) {
        proof {
            reveal_strlit("ORDER");
        }
        assert("ORDER"@ =~= order_prefix());
        render_id("ORDER", self.value)
    }
}

} // verus!
