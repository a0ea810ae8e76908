//! The two endpoint decisions over a decoded request: one that acknowledges
//! whatever it is given, and one that evaluates the declared constraints
//! first and rejects a request that violates them.
//!
//! A handler decides and writes nothing: it returns the reply for the
//! client together with the line to log, and the caller sends the one and
//! prints the other.

use vstd::prelude::*;
use vstd::string::StringExecFns;
use crate::report::{
    lemma_quantity_line_text, lemma_report_holds_each_message, render_violations, rendered,
};
use crate::schema::{BasketRequest, QUANTITY_MESSAGE};
use crate::text::{contains_text, decimal, decimal_text};

verus! {

/// The status of a reply that acknowledges a request.
pub const STATUS_OK: u16 = 200;

/// The status of a reply that rejects a request.
pub const STATUS_BAD_REQUEST: u16 = 400;

/// The media type of every reply: both endpoints answer in plain text.
pub const PLAIN_TEXT: &'static str = "text/plain";

/// The body with which the unchecked endpoint acknowledges a request.
pub const VULNERABLE_BODY: &'static str = "VULNERABLE: Item was added to basket.";

/// The body with which the checked endpoint acknowledges a request.
pub const FIXED_BODY: &'static str = "FIXED: Item added to basket.";

/// What a handler decided: the reply for the client, and the line to log.
#[derive(Clone, Debug, PartialEq, Eq)]
pub struct Reply {
    /// The HTTP status code.
    pub status: u16,
    /// The media type of the body.
    pub content_type: &'static str,
    /// The plain-text body.
    pub body: String,
    /// The informational line to log for this request, without a line end.
    pub log_line: String,
}

/// A reply as plain values.
pub ghost struct ReplyView {
    pub status: u16,
    pub content_type: Seq<char>,
    pub body: Seq<char>,
    pub log_line: Seq<char>,
}

impl View for Reply {
    type V = ReplyView;

    open spec fn view(&self) -> ReplyView {
        ReplyView {
            status: self.status,
            content_type: self.content_type@,
            body: self.body@,
            log_line: self.log_line@,
        }
    }
}

/// The line that the unchecked endpoint logs: it names both fields.
pub open spec fn vulnerable_log_line(request: BasketRequest) -> Seq<char> {
    "[VULNERABLE] Adding item "@ + decimal(request.item_id as int) + " with quantity "@ + decimal(
        request.quantity as int,
    ) + ". This should not happen with negative quantities!"@
}

/// The line that the checked endpoint logs for a request that it rejects:
/// it names the offending quantity.
pub open spec fn rejected_log_line(request: BasketRequest) -> Seq<char> {
    "[FIXED] Rejected request with invalid quantity: "@ + decimal(request.quantity as int)
}

/// The line that the checked endpoint logs for a request that it accepts.
pub open spec fn accepted_log_line(request: BasketRequest) -> Seq<char> {
    "[FIXED] Successfully added item "@ + decimal(request.item_id as int) + " with quantity "@
        + decimal(request.quantity as int)
}

/// What the unchecked endpoint decides: it acknowledges every request.
pub open spec fn vulnerable_reply(request: BasketRequest) -> ReplyView {
    ReplyView {
        status: STATUS_OK,
        content_type: PLAIN_TEXT@,
        body: VULNERABLE_BODY@,
        log_line: vulnerable_log_line(request),
    }
}

/// What the checked endpoint decides: it acknowledges a valid request, and
/// rejects any other with the report of its violations.
pub open spec fn fixed_reply(request: BasketRequest) -> ReplyView {
    if request.is_valid() {
        ReplyView {
            status: STATUS_OK,
            content_type: PLAIN_TEXT@,
            body: FIXED_BODY@,
            log_line: accepted_log_line(request),
        }
    } else {
        ReplyView {
            status: STATUS_BAD_REQUEST,
            content_type: PLAIN_TEXT@,
            body: rendered(request.violations()),
            log_line: rejected_log_line(request),
        }
    }
}

/// The unchecked endpoint, `POST /vulnerable/basket`.
///
/// It does not evaluate the declared constraints: every request is
/// acknowledged with status 200 and [`VULNERABLE_BODY`], also one whose
/// quantity is zero or negative.
pub fn vulnerable_add_to_basket(payload: &BasketRequest) -> (reply: Reply)
    ensures
        reply@ == vulnerable_reply(*payload),
        reply.status == 200,
        reply.body@ == VULNERABLE_BODY@,
{
    let mut log_line = String::from_str("[VULNERABLE] Adding item ");
    log_line.append(decimal_text(payload.item_id as i64).as_str());
    log_line.append(" with quantity ");
    log_line.append(decimal_text(payload.quantity as i64).as_str());
    log_line.append(". This should not happen with negative quantities!");
    Reply {
        status: STATUS_OK,
        content_type: PLAIN_TEXT,
        body: String::from_str(VULNERABLE_BODY),
        log_line,
    }
}

/// The checked endpoint, `POST /fixed/basket`.
///
/// It evaluates the declared constraints before anything else. A request
/// with a quantity of at least 1 is acknowledged with status 200 and
/// [`FIXED_BODY`]. Any other request is rejected with status 400, and the
/// body is the report of its violations, which holds [`QUANTITY_MESSAGE`].
pub fn fixed_add_to_basket(payload: &BasketRequest) -> (reply: Reply)
    ensures
        reply@ == fixed_reply(*payload),
        payload.quantity >= 1 ==> reply.status == 200 && reply.body@ == FIXED_BODY@,
        payload.quantity <= 0 ==> reply.status == 400 && reply.body@
            == "quantity: Quantity must be at least 1"@ && contains_text(
            reply.body@,
            QUANTITY_MESSAGE@,
        ),
{
    match payload.validate() {
        Err(violations) => {
            let mut log_line = String::from_str("[FIXED] Rejected request with invalid quantity: ");
            log_line.append(decimal_text(payload.quantity as i64).as_str());
            proof {
                lemma_report_holds_each_message(payload.violations(), 0);
                lemma_quantity_line_text();
            }
            Reply {
                status: STATUS_BAD_REQUEST,
                content_type: PLAIN_TEXT,
                body: render_violations(&violations),
                log_line,
            }
        },
        Ok(()) => {
            let mut log_line = String::from_str("[FIXED] Successfully added item ");
            log_line.append(decimal_text(payload.item_id as i64).as_str());
            log_line.append(" with quantity ");
            log_line.append(decimal_text(payload.quantity as i64).as_str());
            Reply {
                status: STATUS_OK,
                content_type: PLAIN_TEXT,
                body: String::from_str(FIXED_BODY),
                log_line,
            }
        },
    }
}

} // verus!
