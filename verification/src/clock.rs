//! Trusted boundary around the system clock and timestamp parsing.

use vstd::prelude::*;

verus! {

/// Whether a text parses back as a `YYYY-MM-DD HH:MM:SS` timestamp; a
/// function of the characters alone.
pub uninterp spec fn parses_as_datetime(s: Seq<char>) -> bool;

/// Relies on `chrono::Local::now` and chrono's formatter: the current local
/// time rendered as `YYYY-MM-DD HH:MM:SS`. The value depends on the clock,
/// so nothing is claimed of it.
#[verifier::external_body]
pub fn now_string() -> String {
    chrono::Local::now().format("%Y-%m-%d %H:%M:%S").to_string()
}

/// Relies on `chrono::NaiveDateTime::parse_from_str`: whether `s` parses as
/// a `YYYY-MM-DD HH:MM:SS` timestamp, which depends on the characters alone.
#[verifier::external_body]
pub fn is_datetime_text(s: &str) -> (r: bool)
    ensures
        r == parses_as_datetime(s@),
{
    chrono::NaiveDateTime::parse_from_str(s, "%Y-%m-%d %H:%M:%S").is_ok()
}

} // verus!
