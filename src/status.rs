//! HTTP status codes: which ones count as success, and how a failure reads.
use vstd::prelude::*;
use vstd::string::*;
use crate::text::{decimal, push_decimal};

verus! {

/// The canonical reason phrase that the `http` crate knows for `code`, if any.
pub uninterp spec fn reason_phrase_of(code: u16) -> Option<Seq<char>>;

/// The characters of an optional string.
pub open spec fn opt_text(o: Option<&str>) -> Option<Seq<char>> {
    match o {
        Some(s) => Some(s@),
        None => None,
    }
}

/// Relies on `http::StatusCode::canonical_reason` (re-exported by reqwest):
/// the reason phrase of a registered code, from a fixed table. A code that
/// `StatusCode::from_u16` refuses has none.
#[verifier::external_body]
fn reason_phrase(code: u16) -> (r: Option<&'static str>)
    ensures
        opt_text(r) == reason_phrase_of(code),
{
    match reqwest::StatusCode::from_u16(code) {
        Ok(status) => status.canonical_reason(),
        Err(_) => None,
    }
}

/// Whether `code` lies in the success range 200 to 299.
pub open spec fn success_code(code: u16) -> bool {
    200 <= code < 300
}

/// Whether `code` lies in the success range 200 to 299.
pub fn is_success_status(code: u16) -> (r: bool)
    ensures
        r == success_code(code),
{
    200 <= code && code < 300
}

/// How a status reads: the code, a space, then its reason phrase or
/// `<unknown status code>`.
pub open spec fn status_text(code: u16, reason: Option<Seq<char>>) -> Seq<char> {
    decimal(code as nat) + " "@ + match reason {
        Some(phrase) => phrase,
        None => "<unknown status code>"@,
    }
}

/// The message for a request that the server refused with `code`, carrying
/// the body that it sent back verbatim.
pub open spec fn status_failure_text(code: u16, reason: Option<Seq<char>>, body: Seq<char>) -> Seq<
    char,
> {
    "API request failed with status "@ + status_text(code, reason) + ": "@ + body
}

/// The message for a refused request, given the reason phrase of `code`.
pub fn status_failure_message(code: u16, reason: Option<&str>, body: &str) -> (r: String)
    ensures
        r@ == status_failure_text(code, opt_text(reason), body@),
{
    let mut out = String::new();
    out.append("API request failed with status ");
    push_decimal(&mut out, code as u64);
    out.append(" ");
    match reason {
        Some(phrase) => out.append(phrase),
        None => out.append("<unknown status code>"),
    }
    out.append(": ");
    out.append(body);
    assert(out@ =~= status_failure_text(code, opt_text(reason), body@));
    out
}

/// The message for a request that the server refused with `code`.
pub fn status_error_message(code: u16, body: &str) -> (r: String)
    ensures
        r@ == status_failure_text(code, reason_phrase_of(code), body@),
{
    let reason = reason_phrase(code);
    status_failure_message(code, reason, body)
}

} // verus!
