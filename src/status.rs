//! Status codes: validity, success class and default reason phrases.

use vstd::prelude::*;

verus! {

/// The status code used when a requested code is not a valid status.
pub const INTERNAL_SERVER_ERROR: u16 = 500;

/// A code is accepted as an HTTP status when it lies in 100..=599.
pub open spec fn valid_status(code: u16) -> bool {
    100 <= code <= 599
}

/// An envelope reports success for codes in 200..=399.
pub open spec fn success_code(code: u16) -> bool {
    200 <= code <= 399
}

/// The canonical reason phrase that the `http` crate knows for a code.
pub uninterp spec fn reason_phrase(code: u16) -> Option<Seq<char>>;

/// The message an envelope carries before one is set.
pub open spec fn default_message_of(code: u16) -> Seq<char> {
    match reason_phrase(code) {
        Some(p) => p,
        None => "No Message"@,
    }
}

/// Relies on `http::StatusCode::from_u16` and `StatusCode::canonical_reason`:
/// the registered reason phrase of a code, if it has one.
#[verifier::external_body]
fn canonical_reason(code: u16) -> (r: Option<String>)
    ensures
        match r {
            Some(s) => reason_phrase(code) == Some(s@),
            None => reason_phrase(code) is None,
        },
{
    match axum::http::StatusCode::from_u16(code) {
        Ok(c) => c.canonical_reason().map(String::from),
        Err(_) => None,
    }
}

/// Whether `code` is accepted as a status (100..=599).
pub fn is_valid_status(code: u16) -> (r: bool)
    ensures
        r == valid_status(code),
{
    100 <= code && code <= 599
}

/// Whether an envelope with this code reports success (200..=399).
pub fn is_success(code: u16) -> (r: bool)
    ensures
        r == success_code(code),
{
    200 <= code && code <= 399
}

/// The code itself when it is a valid status, else 500.
pub fn normalize_status(code: u16) -> (r: u16)
    ensures
        valid_status(code) ==> r == code,
        !valid_status(code) ==> r == INTERNAL_SERVER_ERROR,
        valid_status(r),
{
    if is_valid_status(code) {
        code
    } else {
        INTERNAL_SERVER_ERROR
    }
}

/// The canonical reason phrase of `code`, or "No Message" when it has none.
pub fn default_message(code: u16) -> (r: String)
    ensures
        r@ == default_message_of(code),
{
    match canonical_reason(code) {
        Some(p) => p,
        None => String::from_str("No Message"),
    }
}

} // verus!
