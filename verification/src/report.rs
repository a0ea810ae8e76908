//! The text in which violations are reported to a client.

use vstd::prelude::*;
use vstd::string::StringExecFns;
use crate::text::{contains_text, lemma_contains_infix, lemma_contains_within};
use crate::validation::{quantity_violation, views_of, Violation, ViolationView};

verus! {

/// The line that reports one violation: the name of the field, a colon and
/// a space, then the message.
pub open spec fn violation_line(v: ViolationView) -> Seq<char> {
    v.field + ": "@ + v.message
}

/// The report of a list of violations: one line for each, in the order of
/// the list, with a line feed between two lines and none at the end.
pub open spec fn rendered(list: Seq<ViolationView>) -> Seq<char>
    decreases list.len(),
{
    if list.len() == 0 {
        Seq::empty()
    } else if list.len() == 1 {
        violation_line(list[0])
    } else {
        rendered(list.drop_last()) + "\n"@ + violation_line(list.last())
    }
}

/// Writes one violation as the `validator` crate displays it.
///
/// Makes a `validator::ValidationError` with `ValidationError::new` and
/// `with_message`, puts it under the field into an empty
/// `validator::ValidationErrors` with `add`, and returns what `to_string`
/// gives for that value. Not proved, but read off the `Display` impl of
/// `ValidationErrors`: for a single field with a single error that has a
/// message, the text is the field, a colon, a space and the message. The
/// code does not occur in it.
#[verifier::external_body]
fn display_violation(
    field: &'static str,
    code: &'static str,
    message: &'static str,
) -> (text: String)
    ensures
        text@ == field@ + ": "@ + message@,
{
    let error = validator::ValidationError::new(code);
    let error = error.with_message(std::borrow::Cow::Borrowed(message));
    let mut errors = validator::ValidationErrors::new();
    errors.add(field, error);
    errors.to_string()
}

/// Writes the report of a list of violations.
pub fn render_violations(list: &Vec<Violation>) -> (text: String)
    ensures
        text@ == rendered(views_of(list@)),
{
    let mut text = String::new();
    let mut i: usize = 0;
    while i < list.len()
        invariant
            i <= list.len(),
            text@ == rendered(views_of(list@.take(i as int))),
        decreases list.len() - i,
    {
        if i > 0 {
            text.append("\n");
        }
        let line = display_violation(list[i].field, list[i].code, list[i].message);
        text.append(line.as_str());
        proof {
            let before = views_of(list@.take(i as int));
            let after = views_of(list@.take(i + 1));
            assert(after.drop_last() =~= before);
            assert(after.last() == list@[i as int]@);
        }
        i += 1;
    }
    assert(list@.take(list.len() as int) =~= list@);
    text
}

/// The report of a list of violations holds the message of each of them.
pub proof fn lemma_report_holds_each_message(list: Seq<ViolationView>, i: int)
    requires
        0 <= i < list.len(),
    ensures
        contains_text(rendered(list), list[i].message),
    decreases list.len(),
{
    let none = Seq::<char>::empty();
    if list.len() == 1 {
        lemma_contains_infix(list[0].field + ": "@, list[0].message, none);
        assert(list[0].field + ": "@ + list[0].message + none =~= rendered(list));
    } else if i == list.len() - 1 {
        let before = rendered(list.drop_last()) + "\n"@ + (list[i].field + ": "@);
        lemma_contains_infix(before, list[i].message, none);
        assert(before + list[i].message + none =~= rendered(list));
    } else {
        lemma_report_holds_each_message(list.drop_last(), i);
        let after = "\n"@ + violation_line(list.last());
        lemma_contains_within(none, rendered(list.drop_last()), after, list[i].message);
        assert(none + rendered(list.drop_last()) + after =~= rendered(list));
    }
}

/// The line that reports a quantity below the lower bound, letter by
/// letter.
pub proof fn lemma_quantity_line_text()
    ensures
        violation_line(quantity_violation()) == "quantity: Quantity must be at least 1"@,
{
    reveal_strlit("quantity");
    reveal_strlit(": ");
    reveal_strlit("Quantity must be at least 1");
    reveal_strlit("quantity: Quantity must be at least 1");
    assert(violation_line(quantity_violation()) =~= "quantity: Quantity must be at least 1"@);
}

} // verus!
