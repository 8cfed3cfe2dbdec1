//! Status codes of HTTP responses.
use vstd::prelude::*;

use crate::text::decimal;

verus! {

/// The reason phrase that `reqwest::StatusCode` prints after the number of a status
/// code.
pub uninterp spec fn status_reason(code: u16) -> Seq<char>;

/// Whether a number is a status code: it has three digits.
pub open spec fn is_status_code(code: u16) -> bool {
    100 <= code <= 999
}

/// A status code as it is printed: its number, a blank, and its reason phrase.
pub open spec fn status_words(code: u16) -> Seq<char> {
    decimal(code as int) + seq![' '] + status_reason(code)
}

/// Calls `reqwest::StatusCode::is_success`. Trusted: a code counts as a success exactly
/// when it lies within 200 to 299.
#[verifier::external_body]
pub(crate) fn status_is_success(code: u16) -> (success: bool)
    requires
        is_status_code(code),
    ensures
        success == (200 <= code <= 299),
{
    match reqwest::StatusCode::from_u16(code) {
        Ok(status) => status.is_success(),
        Err(_) => false,
    }
}

/// Prints a `reqwest::StatusCode` through its `Display`. Trusted: the text is the
/// number, a blank and a phrase that depends on the number alone. Which phrase
/// belongs to which number is not stated.
#[verifier::external_body]
pub(crate) fn status_text(code: u16) -> (text: String)
    requires
        is_status_code(code),
    ensures
        text@ == decimal(code as int) + seq![' '] + status_reason(code),
{
    match reqwest::StatusCode::from_u16(code) {
        Ok(status) => status.to_string(),
        Err(error) => error.to_string(),
    }
}

} // verus!
