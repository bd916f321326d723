//! How a duration is shown: as hours, minutes and seconds.

use vstd::prelude::*;
use vstd::string::*;
use crate::decimal::{decimal_text, format_u64};

verus! {

/// The hours, minutes and seconds that make up a number of seconds.
pub open spec fn clock_parts(seconds: u64) -> (u64, u64, u64) {
    ((seconds / 60) / 60, (seconds / 60) % 60, seconds % 60)
}

/// A duration as `hours:minutes:seconds`, each part in decimal without
/// padding.
pub open spec fn clock_text(seconds: u64) -> Seq<char> {
    let (h, m, s) = clock_parts(seconds);
    decimal_text(h as nat) + ":"@ + decimal_text(m as nat) + ":"@ + decimal_text(s as nat)
}

/// Splits a number of seconds into whole hours, the minutes left over
/// and the seconds left over.
pub fn split_duration(seconds: u64) -> (parts: (u64, u64, u64))
    ensures
        parts == clock_parts(seconds),
        parts.0 * 3600 + parts.1 * 60 + parts.2 == seconds,
        parts.1 < 60,
        parts.2 < 60,
{
    ((seconds / 60) / 60, (seconds / 60) % 60, seconds % 60)
}

/// Writes a duration as `hours:minutes:seconds`.
pub fn duration_text(seconds: u64) -> (text: String)
    ensures
        text@ == clock_text(seconds),
{
    let (h, m, s) = split_duration(seconds);
    let mut text = format_u64(h);
    text.append(":");
    text.append(format_u64(m).as_str());
    text.append(":");
    text.append(format_u64(s).as_str());
    text
}

} // verus!
