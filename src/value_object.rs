//! Smart-constructed value objects: each one can only exist in a valid state.
use vstd::prelude::*;

verus! {

/// An exact decimal number with two fractional digits, stored as a count of
/// hundredths (`12.34` is `Fixed { hundredths: 1234 }`).
#[derive(Debug, Clone, Copy, PartialEq, Eq, Structural, Hash)]
pub struct Fixed {
    pub hundredths: i128,
}

impl View for Fixed {
    /// The number times one hundred.
    type V = int;

    open spec fn view(&self) -> int {
        self.hundredths as int
    }
}

impl Fixed {
    /// The whole number `n`.
    pub fn from_int(n: i64) -> (r: Fixed)
        ensures
            r@ == 100 * n,
    {
        Fixed { hundredths: (n as i128) * 100 }
    }

    /// The number `h / 100`.
    pub fn from_hundredths(h: i128) -> (r: Fixed)
        ensures
            r@ == h,
    {
        Fixed { hundredths: h }
    }
}

/// Reports a price that is not strictly positive.
#[derive(Debug, Clone, Copy, PartialEq, Eq, Structural)]
pub struct PriceError {
    /// The rejected amount.
    pub value: Fixed,
}

/// A strictly positive monetary amount.
#[derive(Debug, Clone, Copy, PartialEq, Eq)]
pub struct Price {
    price: Fixed,
}

impl View for Price {
    /// The amount in hundredths.
    type V = int;

    closed spec fn view(&self) -> int {
        self.price@
    }
}

impl Price {
    #[verifier::type_invariant]
    spec fn positive(self) -> bool {
        self.price@ > 0
    }

    /// Two prices with the same amount are the same value.
    pub proof fn lemma_view_injective(a: Price, b: Price)
        requires
            a@ == b@,
        ensures
            a == b,
    {
    }

    /// Accepts `value` as a price exactly when it is greater than zero.
    pub fn try_from(value: Fixed) -> (r: Result<Price, PriceError>)
        ensures
            match r {
                Ok(p) => value@ > 0 && p@ == value@,
                Err(e) => value@ <= 0 && e == (PriceError { value }),
            },
    {
        if value.hundredths <= 0 {
            Err(PriceError { value })
        } else {
            Ok(Price { price: value })
        }
    }

    /// Adds `quantity` times the positive amount `value` to this price.
    /// Fails when `value` is not positive (reporting `value`) or when the sum
    /// is not positive (reporting the sum).
    pub fn add(self, value: Fixed, quantity: i32) -> (r: Result<Price, PriceError>)
        requires
            i128::MIN <= value@ * quantity <= i128::MAX,
            i128::MIN <= self@ + value@ * quantity <= i128::MAX,
        ensures
            match r {
                Ok(p) => value@ > 0 && self@ + value@ * quantity > 0 && p@ == self@ + value@
                    * quantity,
                Err(e) => if value@ <= 0 {
                    e.value == value
                } else {
                    self@ + value@ * quantity <= 0 && e.value@ == self@ + value@ * quantity
                },
            },
    {
        if value.hundredths <= 0 {
            return Err(PriceError { value });
        }
        let sum = Fixed { hundredths: self.price.hundredths + value.hundredths * (quantity as i128) };
        Price::try_from(sum)
    }

    /// The amount.
    pub fn value(&self) -> (r: Fixed)
        ensures
            r@ == self@,
            r@ > 0,
    {
        proof {
            use_type_invariant(self);
        }
        self.price
    }
}

/// Reports a quantity that is not strictly positive or does not fit an `i32`.
#[derive(Debug, Clone, Copy, PartialEq, Eq, Structural)]
pub struct QuantityError {
    /// The rejected count.
    pub value: i64,
}

/// A strictly positive count.
#[derive(Debug, Clone, Copy, PartialEq, Eq)]
pub struct Quantity {
    quantity: i32,
}

impl View for Quantity {
    type V = int;

    closed spec fn view(&self) -> int {
        self.quantity as int
    }
}

impl Quantity {
    #[verifier::type_invariant]
    spec fn positive(self) -> bool {
        self.quantity > 0
    }

    /// Accepts `value` as a quantity exactly when it is greater than zero.
    pub fn try_from(value: i32) -> (r: Result<Quantity, QuantityError>)
        ensures
            match r {
                Ok(q) => value > 0 && q@ == value,
                Err(e) => value <= 0 && e.value == value,
            },
    {
        if value <= 0 {
            Err(QuantityError { value: value as i64 })
        } else {
            Ok(Quantity { quantity: value })
        }
    }

    /// The quantity `self + value`, which must again be positive and fit an `i32`.
    pub fn add(&self, value: i32) -> (r: Result<Quantity, QuantityError>)
        ensures
            match r {
                Ok(q) => 0 < self@ + value <= i32::MAX && q@ == self@ + value,
                Err(e) => !(0 < self@ + value <= i32::MAX) && e.value == self@ + value,
            },
    {
        let sum: i64 = self.quantity as i64 + value as i64;
        if sum <= 0 || sum > i32::MAX as i64 {
            Err(QuantityError { value: sum })
        } else {
            Ok(Quantity { quantity: sum as i32 })
        }
    }

    /// The count.
    pub fn value(&self) -> (r: i32)
        ensures
            r == self@,
            r > 0,
    {
        proof {
            use_type_invariant(self);
        }
        self.quantity
    }
}

/// Reports a discount outside `0..=100` percent.
#[derive(Debug, Clone, Copy, PartialEq, Eq, Structural)]
pub struct DiscountError {
    /// The rejected percentage.
    pub value: i32,
}

/// A percentage between 0 and 100 inclusive.
#[derive(Debug, Clone, Copy, PartialEq, Eq)]
pub struct Discount {
    discount: i32,
}

impl View for Discount {
    /// The percentage.
    type V = int;

    closed spec fn view(&self) -> int {
        self.discount as int
    }
}

impl Discount {
    #[verifier::type_invariant]
    spec fn in_range(self) -> bool {
        0 <= self.discount <= 100
    }

    /// Accepts `value` as a discount exactly when `0 <= value <= 100`.
    pub fn try_from(value: i32) -> (r: Result<Discount, DiscountError>)
        ensures
            match r {
                Ok(d) => 0 <= value <= 100 && d@ == value,
                Err(e) => !(0 <= value <= 100) && e.value == value,
            },
    {
        if value < 0 || value > 100 {
            Err(DiscountError { value })
        } else {
            Ok(Discount { discount: value })
        }
    }

    /// The percentage as a decimal number.
    pub fn value(&self) -> (r: Fixed)
        ensures
            r@ == 100 * self@,
            0 <= self@ <= 100,
    {
        proof {
            use_type_invariant(self);
        }
        Fixed { hundredths: (self.discount as i128) * 100 }
    }
}

} // verus!
