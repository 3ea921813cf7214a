//! The time at which a task is created.

use vstd::prelude::*;

verus! {

/// The pattern that a timestamp is written in, in the notation of `chrono`:
/// year, month and day, then hour, minute and second.
pub open spec fn timestamp_pattern() -> Seq<char> {
    "%Y-%m-%d %H:%M:%S"@
}

/// `chrono::Utc::now`, written by `DateTime::format` in the pattern of a
/// timestamp. The text depends on the clock, so only its least length is
/// stated: four digits of the year or more, two digits for each other field,
/// and the five separators. The pattern is fixed because `chrono` fails on
/// one that it cannot read. `Utc::now` itself fails where the clock of the
/// machine stands before 1970.
#[verifier::external_body]
pub(crate) fn utc_now_text(pattern: &str) -> (text: String)
    requires
        pattern@ == timestamp_pattern(),
    ensures
        text@.len() >= 19,
{
    chrono::Utc::now().format(pattern).to_string()
}

/// The current time in UTC, as a timestamp.
pub fn get_current_time() -> (text: String)
    ensures
        text@.len() >= 19,
{
    utc_now_text("%Y-%m-%d %H:%M:%S")
}

} // verus!
