//! HTTP status codes, as plain numbers.
//!
//! The library keeps a status as the `u16` that came over the wire. The two
//! questions it asks of one, whether it reports success and how it reads in
//! a message, are answered by `reqwest::StatusCode`.

use vstd::prelude::*;

verus! {

/// Whether `code` can be a status code at all: three digits, the first not
/// zero.
pub open spec fn is_status(code: u16) -> bool {
    100 <= code <= 999
}

/// Whether `code` reports success.
pub open spec fn is_success(code: u16) -> bool {
    200 <= code < 300
}

/// The text that `reqwest::StatusCode` displays for the status `code`: the
/// number and its canonical reason phrase, as in `401 Unauthorized`. It
/// has a meaning only where `is_status(code)`.
pub uninterp spec fn status_line(code: u16) -> Seq<char>;

/// Calls `reqwest::StatusCode::from_u16` and, on the status it gives,
/// `reqwest::StatusCode::is_success`.
///
/// Believed, not proved: `from_u16` accepts exactly the numbers from 100 to
/// 999, and `is_success` holds exactly of the codes from 200 to 299.
#[verifier::external_body]
fn status_success(code: u16) -> (r: Option<bool>)
    ensures
        r == if is_status(code) {
            Some(is_success(code))
        } else {
            None::<bool>
        },
{
    match reqwest::StatusCode::from_u16(code) {
        Ok(status) => Some(status.is_success()),
        Err(_) => None,
    }
}

/// Calls `reqwest::StatusCode::from_u16` and, on the status it gives, the
/// `to_string` of its `Display`.
///
/// Believed, not proved: `from_u16` accepts exactly the numbers from 100 to
/// 999, and what is displayed depends on the code alone. The text itself is
/// not stated here; `status_line` is the name for it.
#[verifier::external_body]
fn status_display(code: u16) -> (r: Option<String>)
    ensures
        r is Some == is_status(code),
        r matches Some(line) ==> line@ == status_line(code),
{
    match reqwest::StatusCode::from_u16(code) {
        Ok(status) => Some(status.to_string()),
        Err(_) => None,
    }
}

/// How a response status reads in a message: the status line of a code
/// that can be one, a fixed phrase for any other number.
pub open spec fn status_text(code: u16) -> Seq<char> {
    described(
        if is_status(code) {
            Some(status_line(code))
        } else {
            None
        },
    )
}

/// `line` where there is one, else the phrase for a number that is no
/// status code.
pub open spec fn described(line: Option<Seq<char>>) -> Seq<char> {
    match line {
        Some(text) => text,
        None => "<invalid status code>"@,
    }
}

/// Whether a response with status `code` succeeded. A number that is no
/// status code is no success.
pub fn succeeded(code: u16) -> (r: bool)
    ensures
        r == is_success(code),
{
    match status_success(code) {
        Some(success) => success,
        None => false,
    }
}

/// The text for a status whose line is `line`, or for a number that has
/// none.
pub fn describe(line: Option<String>) -> (r: String)
    ensures
        r@ == described(
            match line {
                Some(text) => Some(text@),
                None => None,
            },
        ),
{
    match line {
        Some(text) => text,
        None => String::from_str("<invalid status code>"),
    }
}

/// How the status `code` reads in a message.
pub fn status_message(code: u16) -> (r: String)
    ensures
        r@ == status_text(code),
{
    describe(status_display(code))
}

} // verus!
