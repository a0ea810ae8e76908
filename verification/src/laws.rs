//! What holds of validation and of the two endpoints for every request.

use vstd::prelude::*;
use crate::handlers::{fixed_reply, vulnerable_reply, VULNERABLE_BODY};
use crate::report::{lemma_quantity_line_text, lemma_report_holds_each_message};
use crate::schema::{BasketRequest, QUANTITY_MESSAGE};
use crate::text::contains_text;
use crate::validation::quantity_violation;

verus! {

/// Validation finds nothing exactly when the quantity is at least 1, and
/// finds the one violation of the quantity's lower bound exactly when the
/// quantity is zero or negative. One of the two holds of every request.
pub proof fn validation_accepts_exactly_positive_quantities(request: BasketRequest)
    ensures
        request.violations().len() == 0 <==> request.quantity >= 1,
        request.violations() == seq![quantity_violation()] <==> request.quantity <= 0,
        request.is_valid() <==> request.quantity >= 1,
{
    if request.quantity >= 1 {
        assert(request.violations().len() == 0);
        assert(seq![quantity_violation()].len() == 1);
    }
}

/// The outcome of validation is determined by the quantity: two requests
/// with the same quantity violate the same constraints, whatever their
/// item identifiers.
pub proof fn validation_reads_the_quantity_alone(first: BasketRequest, second: BasketRequest)
    requires
        first.quantity == second.quantity,
    ensures
        first.is_valid() == second.is_valid(),
        first.violations() == second.violations(),
{
}

/// The unchecked endpoint answers every request with status 200 and the
/// same body, whatever the quantity.
pub proof fn unchecked_endpoint_accepts_every_request(request: BasketRequest)
    ensures
        vulnerable_reply(request).status == 200,
        vulnerable_reply(request).body == VULNERABLE_BODY@,
{
}

/// The checked endpoint answers with status 200 exactly when the quantity
/// is at least 1, and with status 400 exactly when it is zero or negative.
pub proof fn checked_endpoint_accepts_exactly_valid_requests(request: BasketRequest)
    ensures
        fixed_reply(request).status == 200 <==> request.quantity >= 1,
        fixed_reply(request).status == 400 <==> request.quantity <= 0,
{
}

/// When the checked endpoint rejects a request, the body is the line that
/// reports the violated lower bound, and so it holds the message for the
/// client.
pub proof fn rejection_reports_the_quantity_message(request: BasketRequest)
    requires
        request.quantity <= 0,
    ensures
        fixed_reply(request).status == 400,
        fixed_reply(request).body == "quantity: Quantity must be at least 1"@,
        contains_text(fixed_reply(request).body, QUANTITY_MESSAGE@),
{
    lemma_report_holds_each_message(request.violations(), 0);
    lemma_quantity_line_text();
}

/// The two endpoints answer a request with different statuses exactly
/// when the request is invalid: the unchecked endpoint acknowledges what
/// the checked endpoint rejects.
pub proof fn endpoints_disagree_exactly_on_invalid_requests(request: BasketRequest)
    ensures
        vulnerable_reply(request).status != fixed_reply(request).status <==> request.quantity
            <= 0,
        request.quantity <= 0 ==> vulnerable_reply(request).status == 200 && fixed_reply(
            request,
        ).status == 400,
{
}

} // verus!
