//! Wall-clock dates rendered in the HTTP date format.
//!
//! The rendered text depends on the time of the call, so nothing is promised
//! of it beyond what every outcome satisfies: it is a single header-safe line.
use vstd::prelude::*;
use crate::text::no_crlf;

verus! {

/// The current time as an HTTP date line (`Day, DD Mon YYYY HH:MM:SS GMT`).
///
/// Relies on chrono's `Utc::now` and `DateTime::format`: the fixed format
/// string yields one line of ASCII text without CR or LF.
#[verifier::external_body]
pub fn http_date_now() -> (r: String)
    ensures
        no_crlf(r@),
{
    chrono::Utc::now().format("%a, %d %b %Y %H:%M:%S GMT").to_string()
}

/// The time `seconds` from now as an HTTP date line; when the target
/// leaves the calendar's range, the current time stands in.
///
/// Relies on chrono's `Utc::now`, `TimeDelta::try_seconds`,
/// `DateTime::checked_add_signed` and `DateTime::format`: the checked
/// constructors return `None` instead of panicking out of range, and the
/// fixed format string yields one line of ASCII text without CR or LF.
#[verifier::external_body]
pub fn http_date_after(seconds: u64) -> (r: String)
    ensures
        no_crlf(r@),
{
    let now = chrono::Utc::now();
    let delta = i64::try_from(seconds).ok().and_then(chrono::TimeDelta::try_seconds);
    let when = delta.and_then(|d| now.checked_add_signed(d)).unwrap_or(now);
    when.format("%a, %d %b %Y %H:%M:%S GMT").to_string()
}

} // verus!
