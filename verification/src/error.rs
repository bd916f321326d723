//! The ways an operation of the tracker can fail.

use vstd::prelude::*;
use vstd::string::*;

verus! {

/// Why a store or session operation did not go through.
#[derive(Debug, Clone, Copy, PartialEq, Eq, Structural)]
pub enum TrackerError {
    /// No issue has the given key, or no row the given id.
    NotFound,
    /// A row with the same id, or an issue with the same key, is already stored.
    Conflict,
    /// A session is already running.
    AlreadyTracking,
    /// A stored time field is not the decimal text of a `u64`.
    CorruptData,
    /// The system clock reads a time before the Unix epoch.
    ClockError,
    /// The issue's total time plus the session's duration does not fit a `u64`.
    Overflow,
}

impl TrackerError {
    /// The text under which the failure is reported to the caller.
    pub fn message(&self) -> (text: String)
        ensures
            text@ == match *self {
                TrackerError::NotFound => "no rows returned by the store"@,
                TrackerError::Conflict => "a row with this id or key already exists"@,
                TrackerError::AlreadyTracking => "Issue already tracked"@,
                TrackerError::CorruptData => "invalid digit found in stored time field"@,
                TrackerError::ClockError => "time went backwards"@,
                TrackerError::Overflow => "tracked time out of range"@,
            },
    {
        match self {
            TrackerError::NotFound => String::from_str("no rows returned by the store"),
            TrackerError::Conflict => String::from_str("a row with this id or key already exists"),
            TrackerError::AlreadyTracking => String::from_str("Issue already tracked"),
            TrackerError::CorruptData => String::from_str(
                "invalid digit found in stored time field",
            ),
            TrackerError::ClockError => String::from_str("time went backwards"),
            TrackerError::Overflow => String::from_str("tracked time out of range"),
        }
    }
}

} // verus!
