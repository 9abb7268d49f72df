//! HTTP status codes: which ones are a success, and the line that reports another.

use crate::text::{decimal, decimal_digits};
use vstd::prelude::*;

verus! {

/// What stands for the reason phrase of a status code that has none.
pub const UNKNOWN_REASON: &'static str = "<unknown status code>";

/// Whether `status` is a success: 200 to 299.
pub open spec fn success(status: u16) -> bool {
    200 <= status < 300
}

/// Whether `status` is a success.
pub fn is_success(status: u16) -> (yes: bool)
    ensures
        yes == success(status),
{
    200 <= status && status < 300
}

/// The reason phrase that `reqwest::StatusCode` knows for `status`; `None` where it knows
/// none, or where `status` is no status code at all.
pub uninterp spec fn reason_phrase(status: u16) -> Option<Seq<char>>;

/// `reqwest::StatusCode::canonical_reason`, on the status code that
/// `reqwest::StatusCode::from_u16` makes of `status`; `None` also where `from_u16` refuses
/// `status`. Nothing is claimed of the phrase but that it depends on `status` alone.
#[verifier::external_body]
fn canonical_reason(status: u16) -> (reason: Option<&'static str>)
    ensures
        match reason {
            Some(phrase) => reason_phrase(status) == Some(phrase@),
            None => reason_phrase(status) is None,
        },
{
    match reqwest::StatusCode::from_u16(status) {
        Ok(code) => code.canonical_reason(),
        Err(_) => None,
    }
}

/// The line that reports `status` with the reason phrase `reason`: `Error: `, the code in
/// decimal, a space, and the phrase, or `<unknown status code>` where there is none.
pub open spec fn error_text(status: u16, reason: Option<Seq<char>>) -> Seq<char> {
    "Error: "@ + decimal_digits(status as nat) + " "@ + match reason {
        Some(phrase) => phrase,
        None => UNKNOWN_REASON@,
    }
}

/// Writes the line that reports `status` with the reason phrase `reason`.
pub fn error_line_with(status: u16, reason: Option<&str>) -> (line: String)
    ensures
        line@ == error_text(
            status,
            match reason {
                Some(phrase) => Some(phrase@),
                None => None,
            },
        ),
{
    let mut line = "Error: ".to_owned();
    line.append(decimal(status as usize).as_str());
    line.append(" ");
    match reason {
        Some(phrase) => line.append(phrase),
        None => line.append(UNKNOWN_REASON),
    }
    line
}

/// Writes the line that reports `status`, with the reason phrase that belongs to it.
pub fn error_line(status: u16) -> (line: String)
    ensures
        line@ == error_text(status, reason_phrase(status)),
{
    error_line_with(status, canonical_reason(status))
}

} // verus!
