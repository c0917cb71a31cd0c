//! HTTP status codes.

use reqwest::StatusCode;
use vstd::prelude::*;

verus! {

/// Whether `code` is a status code at all: a number of three digits.
pub open spec fn is_status_code(code: u16) -> bool {
    100 <= code <= 999
}

/// Whether `code` reports success: it lies in 200 to 299.
pub open spec fn is_success_code(code: u16) -> bool {
    200 <= code <= 299
}

/// How a status code is shown to the user: the number and its standard
/// reason phrase.
pub uninterp spec fn status_display(code: u16) -> Seq<char>;

/// Converts with `StatusCode::from_u16` and formats with the `Display` of
/// `StatusCode`, both of the `http` crate as `reqwest` exports it. The claim
/// is that exactly the numbers 100 to 999 convert, and that the text, named
/// `status_display`, depends on the number alone.
#[verifier::external_body]
pub(crate) fn status_text(code: u16) -> (text: Option<String>)
    ensures
        text is Some <==> is_status_code(code),
        text matches Some(t) ==> t@ == status_display(code),
{
    match StatusCode::from_u16(code) {
        Ok(status) => Some(status.to_string()),
        Err(_) => None,
    }
}

/// Whether a response with this status carries the body that was asked for.
pub fn is_success(code: u16) -> (success: bool)
    ensures
        success == is_success_code(code),
{
    200 <= code && code <= 299
}

} // verus!
