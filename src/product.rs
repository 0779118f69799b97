//! The product name carried by an order item.
use vstd::prelude::*;

verus! {

/// Reports an invalid product name.
#[derive(Debug, Clone, Copy, PartialEq, Eq, Structural)]
pub enum ProductNameError {
    /// The name was the empty string.
    NameEmpty,
}

/// A non-empty display name of a product.
#[derive(Debug, PartialEq, Eq)]
pub struct ProductName(String);

impl View for ProductName {
    type V = Seq<char>;

    closed spec fn view(&self) -> Seq<char> {
        self.0@
    }
}

impl ProductName {
    #[verifier::type_invariant]
    spec fn non_empty(self) -> bool {
        self.0@.len() > 0
    }

    /// Accepts `value` as a product name exactly when it is not empty.
    pub fn new(value: &str) -> (r: Result<ProductName, ProductNameError>)
        ensures
            match r {
                Ok(n) => value@.len() > 0 && n@ == value@,
                Err(e) => value@.len() == 0 && e == ProductNameError::NameEmpty,
            },
    {
        if value.is_empty() {
            return Err(ProductNameError::NameEmpty);
        }
        Ok(ProductName(value.to_owned()))
    }

    /// The name.
    pub fn as_str(&self) -> (r: &str)
        ensures
            r@ == self@,
            r@.len() > 0,
    {
        proof {
            use_type_invariant(self);
        }
        self.0.as_str()
    }
}

impl Clone for ProductName {
    fn clone(&self) -> (r: ProductName)
        ensures
            r@ == self@,
    {
        proof {
            use_type_invariant(self);
        }
        ProductName(self.0.clone())
    }
}

impl std::str::FromStr for ProductName {
    type Err = ProductNameError;

    fn from_str(s: &str) -> Result<ProductName, ProductNameError> {
        ProductName::new(s)
    }
}

} // verus!
