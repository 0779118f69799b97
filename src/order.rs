//! The `Order` aggregate: a non-empty list of items and the total derived
//! from them.
use vstd::prelude::*;
use vstd::arithmetic::div_mod::lemma_div_multiples_vanish;
use crate::order_error::OrderError;
use crate::order_id::OrderId;
use crate::timestamp::Timestamp;
use crate::order_item::{OrderItem, line_total};
use crate::value_object::{Fixed, Price, PriceError};

verus! {

/// No vector of order items can be longer than this: with at least 64 bytes
/// per item, more would not fit in an allocation of at most `isize::MAX` bytes.
pub open spec fn max_order_items() -> int {
    0x200000000000000
}

/// An upper bound on the total of one item, in hundredths:
/// `(2^31)^2 * 100 <= 2^69`.
pub open spec fn line_bound() -> int {
    0x200000000000000000
}

/// The sum of the item totals, in hundredths.
pub open spec fn order_total(items: Seq<OrderItem>) -> int
    decreases items.len(),
{
    if items.len() == 0 {
        0
    } else {
        order_total(items.drop_last()) + line_total(items.last()@)
    }
}

/// What `calc_total_price` returns for `items`: the total as a price when it
/// is positive, else the price error that reports it.
pub open spec fn total_price_outcome(items: Seq<OrderItem>, r: Result<Price, OrderError>) -> bool {
    match r {
        Ok(p) => order_total(items) > 0 && p@ == order_total(items),
        Err(e) => order_total(items) <= 0 && e == OrderError::InvalidPriceError(
            PriceError { value: Fixed { hundredths: order_total(items) as i128 } },
        ),
    }
}

/// What `place_order` returns: `EmptyOrder` for no items; otherwise the
/// order with its total when the total is positive, else the price error.
pub open spec fn place_order_outcome(
    id: OrderId,
    ordered_at: Timestamp,
    items: Seq<OrderItem>,
    r: Result<Order, OrderError>,
) -> bool {
    match r {
        Ok(o) => items.len() > 0 && order_total(items) > 0 && o@ == (OrderView {
            id,
            ordered_at,
            items,
            total_price: order_total(items),
        }),
        Err(e) => if items.len() == 0 {
            e == OrderError::EmptyOrder
        } else {
            total_price_outcome(items, Err(e))
        },
    }
}

/// What an order holds: its identifier, when it was placed, its items and
/// its total in hundredths.
pub struct OrderView {
    pub id: OrderId,
    pub ordered_at: Timestamp,
    pub items: Seq<OrderItem>,
    pub total_price: int,
}

/// The aggregate root of an order. Its total is always the total of its
/// items, and it always has at least one item.
#[derive(Debug)]
pub struct Order {
    id: OrderId,
    ordered_at: Timestamp,
    total_price: Price,
    order_items: Vec<OrderItem>,
}

impl View for Order {
    type V = OrderView;

    closed spec fn view(&self) -> OrderView {
        OrderView {
            id: self.id,
            ordered_at: self.ordered_at,
            items: self.order_items@,
            total_price: self.total_price@,
        }
    }
}

impl Order {
    #[verifier::type_invariant]
    spec fn consistent(self) -> bool {
        &&& self.order_items@.len() > 0
        &&& self.total_price@ == order_total(self.order_items@)
    }

    /// Places an order: refuses an empty item list, then derives the total
    /// price from the items, which must be positive.
    pub fn place_order(id: OrderId, ordered_at: Timestamp, order_items: Vec<OrderItem>) -> (r:
        Result<Order, OrderError>)
        requires
            order_items@.len() <= max_order_items(),
        ensures
            place_order_outcome(id, ordered_at, order_items@, r),
    {
        if order_items.len() == 0 {
            return Err(OrderError::EmptyOrder);
        }
        let total_price = match Self::calc_total_price(&order_items) {
            Ok(p) => p,
            Err(e) => return Err(e),
        };
        Ok(Order { id, ordered_at, total_price, order_items })
    }

    /// The total of `items`: for each item `unit_price * quantity` less the
    /// discount percentage of it, summed exactly, and accepted as a price
    /// only when positive.
    pub fn calc_total_price(items: &Vec<OrderItem>) -> (r: Result<Price, OrderError>)
        requires
            items@.len() <= max_order_items(),
        ensures
            total_price_outcome(items@, r),
    {
        let mut acc: i128 = 0;
        let mut i: usize = 0;
        while i < items.len()
            invariant
                i <= items@.len() <= max_order_items(),
                acc == order_total(items@.take(i as int)),
                0 <= acc <= i * line_bound(),
            decreases items@.len() - i,
        {
            let item = &items[i];
            let unit = item.get_unit_price();
            let q = item.get_quantity();
            let d = item.get_discount();
            let ghost v = item@;
            proof {
                assert(0 < v.unit_price * v.quantity <= 0x4000000000000000) by (nonlinear_arith)
                    requires
                        0 < v.unit_price <= i32::MAX,
                        0 < v.quantity <= i32::MAX,
                ;
                assert(unit.hundredths * q == 100 * (v.unit_price * v.quantity))
                    by (nonlinear_arith)
                    requires
                        unit.hundredths == 100 * v.unit_price,
                        q == v.quantity,
                ;
            }
            let subtotal: i128 = unit.hundredths * (q as i128);
            proof {
                assert(subtotal * d.hundredths == 10000 * (v.unit_price * v.quantity
                    * v.discount)) by (nonlinear_arith)
                    requires
                        subtotal == 100 * (v.unit_price * v.quantity),
                        d.hundredths == 100 * v.discount,
                ;
                assert(0 <= subtotal * d.hundredths <= 100 * 0x4000000000000000 * 10000)
                    by (nonlinear_arith)
                    requires
                        0 < subtotal <= 100 * 0x4000000000000000,
                        0 <= d.hundredths <= 10000,
                ;
                lemma_div_multiples_vanish(v.unit_price * v.quantity * v.discount, 10000);
            }
            let off: i128 = subtotal * d.hundredths / 10000;
            let line: i128 = subtotal - off;
            proof {
                assert(line == line_total(v) && 0 <= line <= line_bound()) by (nonlinear_arith)
                    requires
                        line == subtotal - off,
                        subtotal == 100 * (v.unit_price * v.quantity),
                        off == v.unit_price * v.quantity * v.discount,
                        0 < v.unit_price * v.quantity <= 0x4000000000000000,
                        0 <= v.discount <= 100,
                        line_total(v) == v.unit_price * v.quantity * (100 - v.discount),
                        line_bound() == 0x200000000000000000,
                ;
                assert(items@.take(i + 1).drop_last() =~= items@.take(i as int));
                assert(i * line_bound() + line_bound() == (i + 1) * line_bound())
                    by (nonlinear_arith);
                assert((i + 1) * line_bound() <= max_order_items() * line_bound())
                    by (nonlinear_arith)
                    requires
                        i + 1 <= max_order_items(),
                        line_bound() > 0,
                ;
            }
            acc = acc + line;
            i = i + 1;
        }
        proof {
            assert(items@.take(items@.len() as int) =~= items@);
        }
        match Price::try_from(Fixed { hundredths: acc }) {
            Ok(p) => Ok(p),
            Err(e) => Err(OrderError::InvalidPriceError(e)),
        }
    }

    /// The identifier of the order.
    pub fn id(&self) -> (r: OrderId)
        ensures
            r == self@.id,
    {
        self.id
    }

    /// When the order was placed.
    pub fn ordered_at(&self) -> (r: Timestamp)
        ensures
            r == self@.ordered_at,
    {
        self.ordered_at
    }

    /// The total price, derived from the items.
    pub fn total_price(&self) -> (r: Price)
        ensures
            r@ == self@.total_price,
            r@ == order_total(self@.items),
    {
        proof {
            use_type_invariant(self);
        }
        self.total_price
    }

    /// The items, in the order they were given.
    pub fn order_items(&self) -> (r: &Vec<OrderItem>)
        ensures
            r@ == self@.items,
            r@.len() > 0,
    {
        proof {
            use_type_invariant(self);
        }
        &self.order_items
    }
}

/// Two item lists that agree item by item have the same total.
proof fn lemma_order_total_by_views(a: Seq<OrderItem>, b: Seq<OrderItem>)
    requires
        a.len() == b.len(),
        forall|i: int| 0 <= i < a.len() ==> #[trigger] a[i]@ == b[i]@,
    ensures
        order_total(a) == order_total(b),
    decreases a.len(),
{
    if a.len() > 0 {
        assert forall|i: int| 0 <= i < a.drop_last().len() implies #[trigger] a.drop_last()[i]@
            == b.drop_last()[i]@ by {
            assert(a[i]@ == b[i]@);
        }
        lemma_order_total_by_views(a.drop_last(), b.drop_last());
    }
}

impl Clone for Order {
    fn clone(&self) -> (r: Order)
        ensures
            r@.id == self@.id,
            r@.ordered_at == self@.ordered_at,
            r@.total_price == self@.total_price,
            r@.items.len() == self@.items.len(),
            forall|i: int| 0 <= i < r@.items.len() ==> #[trigger] r@.items[i]@ == self@.items[i]@,
    {
        proof {
            use_type_invariant(self);
        }
        let order_items = self.order_items.clone();
        proof {
            assert forall|i: int| 0 <= i < order_items@.len() implies #[trigger] order_items@[i]@
                == self.order_items@[i]@ by {
                assert(cloned::<OrderItem>(self.order_items[i], order_items[i]));
            }
            lemma_order_total_by_views(order_items@, self.order_items@);
        }
        Order { id: self.id, ordered_at: self.ordered_at, total_price: self.total_price, order_items }
    }
}

/// Computing the total of the same items twice gives the same outcome: what
/// `calc_total_price` returns depends on the items alone.
pub proof fn lemma_calc_total_price_idempotent(
    items: Seq<OrderItem>,
    r1: Result<Price, OrderError>,
    r2: Result<Price, OrderError>,
)
    requires
        total_price_outcome(items, r1),
        total_price_outcome(items, r2),
    ensures
        r1 == r2,
{
    if let (Ok(p1), Ok(p2)) = (r1, r2) {
        Price::lemma_view_injective(p1, p2);
    }
}

/// Placing a non-empty list of items whose total is positive always
/// succeeds, and the order's total is the sum over the items of
/// `unit_price * quantity * (1 - discount / 100)`, exactly.
pub proof fn lemma_place_order_total(
    id: OrderId,
    ordered_at: Timestamp,
    items: Seq<OrderItem>,
    r: Result<Order, OrderError>,
)
    requires
        items.len() > 0,
        order_total(items) > 0,
        place_order_outcome(id, ordered_at, items, r),
    ensures
        r is Ok,
        r->Ok_0@.total_price == order_total(items),
        r->Ok_0@.items == items,
{
}

/// Placing an order without items always fails with `EmptyOrder`, whatever
/// the identifier and the time.
pub proof fn lemma_place_empty_order(
    id: OrderId,
    ordered_at: Timestamp,
    r: Result<Order, OrderError>,
)
    requires
        place_order_outcome(id, ordered_at, Seq::empty(), r),
    ensures
        r == Err::<Order, OrderError>(OrderError::EmptyOrder),
{
}

} // verus!
