//! Evaluation of the declared constraints on a decoded request.

use vstd::prelude::*;
use crate::schema::{BasketRequest, MIN_QUANTITY, QUANTITY_FIELD, QUANTITY_MESSAGE, RANGE_CODE};

verus! {

/// One constraint that a request fails to meet.
#[derive(Clone, Copy, Debug, PartialEq, Eq)]
pub struct Violation {
    /// The name of the offending field.
    pub field: &'static str,
    /// The kind of constraint that was violated.
    pub code: &'static str,
    /// The message for the client.
    pub message: &'static str,
}

/// A violation as plain text values.
pub ghost struct ViolationView {
    pub field: Seq<char>,
    pub code: Seq<char>,
    pub message: Seq<char>,
}

impl View for Violation {
    type V = ViolationView;

    open spec fn view(&self) -> ViolationView {
        ViolationView { field: self.field@, code: self.code@, message: self.message@ }
    }
}

/// The views of a list of violations, in the same order.
pub open spec fn views_of(list: Seq<Violation>) -> Seq<ViolationView> {
    list.map_values(|v: Violation| v@)
}

/// The violation that a quantity below [`MIN_QUANTITY`] gives rise to.
pub open spec fn quantity_violation() -> ViolationView {
    ViolationView { field: QUANTITY_FIELD@, code: RANGE_CODE@, message: QUANTITY_MESSAGE@ }
}

impl BasketRequest {
    /// The constraints that a request violates, in the order in which they
    /// are declared. The schema declares one: the quantity's lower bound.
    pub open spec fn violations(&self) -> Seq<ViolationView> {
        if self.quantity >= MIN_QUANTITY {
            Seq::empty()
        } else {
            seq![quantity_violation()]
        }
    }

    /// Evaluates the declared constraints.
    ///
    /// Returns `Ok` exactly when the quantity is at least 1. Otherwise the
    /// error lists the violations: one entry, which names the quantity
    /// field and carries [`QUANTITY_MESSAGE`]. The result depends on the
    /// request alone, and on its quantity only.
    pub fn validate(&self) -> (outcome: Result<(), Vec<Violation>>)
        ensures
            outcome is Ok <==> self.quantity >= 1,
            outcome is Err <==> self.quantity <= 0,
            outcome matches Err(list) ==> list@.len() == 1 && list@[0]@ == quantity_violation(),
            outcome matches Err(list) ==> views_of(list@) == self.violations(),
    {
        let mut found: Vec<Violation> = Vec::new();
        if self.quantity < MIN_QUANTITY {
            found.push(
                Violation { field: QUANTITY_FIELD, code: RANGE_CODE, message: QUANTITY_MESSAGE },
            );
        }
        if found.len() == 0 {
            Ok(())
        } else {
            assert(views_of(found@) =~= self.violations());
            Err(found)
        }
    }
}

} // verus!
