//! The request schema: the shape of a basket request and the constraint
//! that its quantity declares.

use vstd::prelude::*;

verus! {

/// The smallest quantity that a valid request may ask for.
pub const MIN_QUANTITY: i32 = 1;

/// The name of the field that carries the declared constraint.
pub const QUANTITY_FIELD: &'static str = "quantity";

/// The kind of constraint that the quantity declares: a range.
pub const RANGE_CODE: &'static str = "range";

/// What a client is told when the quantity is below [`MIN_QUANTITY`].
pub const QUANTITY_MESSAGE: &'static str = "Quantity must be at least 1";

/// A decoded basket request.
///
/// Decoding fixes only the types of the fields. A value of this type may
/// hold any quantity, also zero or a negative one: whether the declared
/// constraint holds is a separate question, which [`BasketRequest::is_valid`]
/// states and [`BasketRequest::validate`] answers.
#[derive(Clone, Copy, Debug, PartialEq, Eq, Structural)]
pub struct BasketRequest {
    pub item_id: u32,
    pub quantity: i32,
}

impl BasketRequest {
    /// A request is valid when its quantity is at least [`MIN_QUANTITY`].
    /// The item identifier carries no constraint.
    pub open spec fn is_valid(&self) -> bool {
        self.quantity >= MIN_QUANTITY
    }
}

} // verus!
