//! An order line: a product name, a quantity and a unit price in cents,
//! none of which can hold an invalid value.

use vstd::prelude::*;
use crate::validation::{check_text, text_ok, text_verdict, ValidationError};

verus! {

/// An order for some quantity of one product.
pub struct Order {
    product_name: String,
    quantity: u32,
    unit_price: u32,
}

/// What an order is: the product's name, how many, and the price of one.
pub struct OrderView {
    pub product_name: Seq<char>,
    pub quantity: nat,
    pub unit_price: nat,
}

impl OrderView {
    /// The name is non-empty and within the byte bound, and the quantity
    /// and the unit price are not zero.
    pub open spec fn wf(self) -> bool {
        &&& text_ok(self.product_name)
        &&& self.quantity > 0
        &&& self.unit_price > 0
    }

    /// The price of the whole order.
    pub open spec fn total(self) -> nat {
        self.quantity * self.unit_price
    }
}

/// The verdict on a quantity: it must not be zero.
pub open spec fn quantity_verdict(quantity: u32) -> Result<(), ValidationError> {
    if quantity == 0 {
        Err(ValidationError::ZeroQuantity)
    } else {
        Ok(())
    }
}

/// The verdict on a unit price: it must not be zero.
pub open spec fn unit_price_verdict(unit_price: u32) -> Result<(), ValidationError> {
    if unit_price == 0 {
        Err(ValidationError::ZeroUnitPrice)
    } else {
        Ok(())
    }
}

/// The verdict on the three fields of an order together: that on the first
/// field that is refused, taking the name, then the quantity, then the
/// unit price.
pub open spec fn order_verdict(product_name: Seq<char>, quantity: u32, unit_price: u32) -> Result<
    (),
    ValidationError,
> {
    match text_verdict(product_name) {
        Err(e) => Err(e),
        Ok(()) => match quantity_verdict(quantity) {
            Err(e) => Err(e),
            Ok(()) => unit_price_verdict(unit_price),
        },
    }
}

impl View for Order {
    type V = OrderView;

    closed spec fn view(&self) -> OrderView {
        OrderView {
            product_name: self.product_name@,
            quantity: self.quantity as nat,
            unit_price: self.unit_price as nat,
        }
    }
}

impl Order {
    #[verifier::type_invariant]
    spec fn valid(self) -> bool {
        self@.wf()
    }

    /// An order with the given fields, or the reason why one of them is
    /// refused.
    pub fn new(product_name: String, quantity: u32, unit_price: u32) -> (r: Result<
        Order,
        ValidationError,
    >)
        ensures
            match r {
                Ok(order) => {
                    &&& order_verdict(product_name@, quantity, unit_price) is Ok
                    &&& order@.wf()
                    &&& order@ == (OrderView {
                        product_name: product_name@,
                        quantity: quantity as nat,
                        unit_price: unit_price as nat,
                    })
                },
                Err(e) => order_verdict(product_name@, quantity, unit_price) == Err::<
                    (),
                    ValidationError,
                >(e),
            },
    {
        match Self::validate_fields(product_name, quantity, unit_price) {
            Ok((product_name, quantity, unit_price)) => Ok(
                Order { product_name, quantity, unit_price },
            ),
            Err(e) => Err(e),
        }
    }

    /// The price of the whole order, where it fits in a `u32`.
    pub fn total(&self) -> (r: u32)
        requires
            self@.total() <= u32::MAX,
        ensures
            r == self@.total(),
    {
        self.quantity * self.unit_price
    }

    /// The price of the whole order, or `None` where it does not fit in a
    /// `u32`.
    pub fn checked_total(&self) -> (r: Option<u32>)
        ensures
            match r {
                Some(total) => total == self@.total(),
                None => self@.total() > u32::MAX,
            },
    {
        self.quantity.checked_mul(self.unit_price)
    }

    pub fn product_name(&self) -> (r: &String)
        ensures
            r@ == self@.product_name,
            self@.wf(),
    {
        proof {
            use_type_invariant(self);
        }
        &self.product_name
    }

    /// Gives the order another product name, unless the name is refused:
    /// then the order stays as it was.
    pub fn set_product_name(&mut self, product_name: String) -> (r: Result<(), ValidationError>)
        ensures
            r == text_verdict(product_name@),
            final(self)@.wf(),
            match r {
                Ok(()) => final(self)@ == (OrderView {
                    product_name: product_name@,
                    ..old(self)@
                }),
                Err(_) => final(self)@ == old(self)@,
            },
    {
        proof {
            use_type_invariant(&*self);
        }
        match Self::validate_product_name(product_name) {
            Ok(product_name) => {
                self.product_name = product_name;
                Ok(())
            },
            Err(e) => Err(e),
        }
    }

    pub fn quantity(&self) -> (r: &u32)
        ensures
            *r == self@.quantity,
            self@.wf(),
    {
        proof {
            use_type_invariant(self);
        }
        &self.quantity
    }

    /// Gives the order another quantity, unless it is zero: then the order
    /// stays as it was.
    pub fn set_quantity(&mut self, quantity: u32) -> (r: Result<(), ValidationError>)
        ensures
            r == quantity_verdict(quantity),
            final(self)@.wf(),
            match r {
                Ok(()) => final(self)@ == (OrderView { quantity: quantity as nat, ..old(self)@ }),
                Err(_) => final(self)@ == old(self)@,
            },
    {
        proof {
            use_type_invariant(&*self);
        }
        match Self::validate_quantity(quantity) {
            Ok(quantity) => {
                self.quantity = quantity;
                Ok(())
            },
            Err(e) => Err(e),
        }
    }

    pub fn unit_price(&self) -> (r: &u32)
        ensures
            *r == self@.unit_price,
            self@.wf(),
    {
        proof {
            use_type_invariant(self);
        }
        &self.unit_price
    }

    /// Gives the order another unit price, unless it is zero: then the
    /// order stays as it was.
    pub fn set_unit_price(&mut self, unit_price: u32) -> (r: Result<(), ValidationError>)
        ensures
            r == unit_price_verdict(unit_price),
            final(self)@.wf(),
            match r {
                Ok(()) => final(self)@ == (OrderView {
                    unit_price: unit_price as nat,
                    ..old(self)@
                }),
                Err(_) => final(self)@ == old(self)@,
            },
    {
        proof {
            use_type_invariant(&*self);
        }
        match Self::validate_unit_price(unit_price) {
            Ok(unit_price) => {
                self.unit_price = unit_price;
                Ok(())
            },
            Err(e) => Err(e),
        }
    }

    /// The three fields as they came, where all are accepted; else the
    /// reason why the first of them is refused.
    fn validate_fields(product_name: String, quantity: u32, unit_price: u32) -> (r: Result<
        (String, u32, u32),
        ValidationError,
    >)
        ensures
            match r {
                Ok(fields) => {
                    &&& order_verdict(product_name@, quantity, unit_price) is Ok
                    &&& fields == (product_name, quantity, unit_price)
                },
                Err(e) => order_verdict(product_name@, quantity, unit_price) == Err::<
                    (),
                    ValidationError,
                >(e),
            },
    {
        let product_name = match Self::validate_product_name(product_name) {
            Ok(name) => name,
            Err(e) => {
                return Err(e);
            },
        };
        let quantity = match Self::validate_quantity(quantity) {
            Ok(quantity) => quantity,
            Err(e) => {
                return Err(e);
            },
        };
        match Self::validate_unit_price(unit_price) {
            Ok(unit_price) => Ok((product_name, quantity, unit_price)),
            Err(e) => Err(e),
        }
    }

    /// The name as it came, where it is non-empty and within the byte
    /// bound.
    fn validate_product_name(product_name: String) -> (r: Result<String, ValidationError>)
        ensures
            match r {
                Ok(name) => text_verdict(product_name@) is Ok && name == product_name,
                Err(e) => text_verdict(product_name@) == Err::<(), ValidationError>(e),
            },
    {
        match check_text(product_name.as_str()) {
            Ok(()) => Ok(product_name),
            Err(e) => Err(e),
        }
    }

    /// The quantity as it came, where it is not zero.
    fn validate_quantity(quantity: u32) -> (r: Result<u32, ValidationError>)
        ensures
            match r {
                Ok(q) => quantity_verdict(quantity) is Ok && q == quantity,
                Err(e) => quantity_verdict(quantity) == Err::<(), ValidationError>(e),
            },
    {
        if quantity == 0 {
            Err(ValidationError::ZeroQuantity)
        } else {
            Ok(quantity)
        }
    }

    /// The unit price as it came, where it is not zero.
    fn validate_unit_price(unit_price: u32) -> (r: Result<u32, ValidationError>)
        ensures
            match r {
                Ok(p) => unit_price_verdict(unit_price) is Ok && p == unit_price,
                Err(e) => unit_price_verdict(unit_price) == Err::<(), ValidationError>(e),
            },
    {
        if unit_price == 0 {
            Err(ValidationError::ZeroUnitPrice)
        } else {
            Ok(unit_price)
        }
    }
}

} // verus!
