//! HTTP status codes, as `reqwest` classifies and names them.

use vstd::prelude::*;
use vstd::string::*;
use crate::text::{decimal, decimal_string, is_decimal_text, lemma_decimal_text};

verus! {

/// The reason phrase that `reqwest` (through the `http` crate) registers for
/// a valid status code, `None` for a valid code without a registered phrase.
pub uninterp spec fn registered_reason(code: u16) -> Option<Seq<char>>;

/// Whether `code` is a status code that `reqwest::StatusCode` accepts.
pub open spec fn valid_status(code: u16) -> bool {
    100 <= code <= 999
}

/// Calls `reqwest::StatusCode::canonical_reason` on the status `code`.
/// Its contract claims that the phrase is the one registered for the code
/// (named, not spelled out: the table is long), and that no phrase comes
/// back for a number outside 100..=999, which `StatusCode::from_u16`
/// refuses.
#[verifier::external_body]
fn canonical_reason(code: u16) -> (r: Option<String>)
    ensures
        valid_status(code) ==> (match r {
            Some(p) => registered_reason(code) == Some(p@),
            None => registered_reason(code) is None,
        }),
        !valid_status(code) ==> r is None,
{
    match reqwest::StatusCode::from_u16(code) {
        Ok(status) => status.canonical_reason().map(|p| p.to_string()),
        Err(_) => None,
    }
}

/// Calls `reqwest::StatusCode::is_success` on the status `code`.  Its
/// contract claims what the method's documentation says: a status is a
/// success when it lies within 200-299.
#[verifier::external_body]
fn status_code_is_success(code: u16) -> (r: bool)
    requires
        valid_status(code),
    ensures
        r == (200 <= code <= 299),
{
    match reqwest::StatusCode::from_u16(code) {
        Ok(status) => status.is_success(),
        Err(_) => false,
    }
}

/// Whether an HTTP answer with this status carries a result rather than
/// an error report.
pub fn is_success_status(code: u16) -> (r: bool)
    ensures
        r == (200 <= code <= 299),
{
    if valid_status_code(code) {
        status_code_is_success(code)
    } else {
        false
    }
}

/// Whether `code` is a status code that `reqwest::StatusCode` accepts.
pub fn valid_status_code(code: u16) -> (r: bool)
    ensures
        r == valid_status(code),
{
    100 <= code && code <= 999
}

/// The text of a status as `reqwest::StatusCode` displays it: the number,
/// a space and the reason phrase.
pub open spec fn status_text(code: u16, reason: Option<Seq<char>>) -> Seq<char> {
    decimal(code as nat) + " "@ + match reason {
        Some(p) => p,
        None => "<unknown status code>"@,
    }
}

/// A status is displayed as its number in full, in decimal, a space, and
/// its reason phrase, or `<unknown status code>` when it has none.
pub proof fn lemma_status_text_parts(code: u16, reason: Option<Seq<char>>)
    ensures
        exists|d: Seq<char>|
            #![trigger is_decimal_text(d, code as nat)]
            is_decimal_text(d, code as nat) && status_text(code, reason) == d + " "@ + match reason {
                Some(p) => p,
                None => "<unknown status code>"@,
            },
{
    lemma_decimal_text(code as nat);
}

/// The reason phrase of `code`: the registered one for a valid status,
/// none for a number that is no status.
pub open spec fn reason_of(code: u16) -> Option<Seq<char>> {
    if valid_status(code) {
        registered_reason(code)
    } else {
        None
    }
}

/// Displays the status `code` as `reqwest::StatusCode` does, e.g.
/// `404 Not Found`.
pub fn status_display(code: u16) -> (s: String)
    ensures
        s@ == status_text(code, reason_of(code)),
{
    let mut s = decimal_string(code as u64);
    s.append(" ");
    match canonical_reason(code) {
        Some(p) => s.append(p.as_str()),
        None => s.append("<unknown status code>"),
    }
    s
}

} // verus!
