//! Readings of the two clocks.
//!
//! The wall clock dates the rows of the store; the monotonic clock
//! measures how long a session has run. Nothing is known of a reading
//! before it is taken, so the functions here promise nothing of their
//! results: what is done with a reading is decided by functions that take
//! it as an argument.

use std::time::{Duration, Instant, SystemTime, SystemTimeError};
use vstd::prelude::*;

verus! {

/// `std::time::Instant`, a reading of the monotonic clock. Nothing of its
/// inside is visible here.
#[verifier::external_type_specification]
#[verifier::external_body]
pub struct ExInstant(std::time::Instant);

/// `std::time::SystemTime`, a reading of the wall clock. Nothing of its
/// inside is visible here.
#[verifier::external_type_specification]
#[verifier::external_body]
pub struct ExSystemTime(std::time::SystemTime);

/// `std::time::SystemTimeError`, returned where one wall-clock reading
/// lies before another. Nothing of its inside is visible here.
#[verifier::external_type_specification]
#[verifier::external_body]
pub struct ExSystemTimeError(std::time::SystemTimeError);

/// `Instant::now` reads the monotonic clock. Nothing is claimed of the reading.
pub assume_specification[ Instant::now ]() -> (now: Instant);

/// `Instant::elapsed` gives the time since the reading was taken. Nothing
/// is claimed of the amount.
pub assume_specification[ Instant::elapsed ](start: &Instant) -> (elapsed: Duration);

/// `Duration::as_secs` gives the whole seconds of a duration. Nothing is
/// claimed of the number.
pub assume_specification[ Duration::as_secs ](duration: &Duration) -> (seconds: u64);

/// `SystemTime::now` reads the wall clock. Nothing is claimed of the reading.
pub assume_specification[ SystemTime::now ]() -> (now: SystemTime);

/// `SystemTime::duration_since` gives the time from `earlier` to the
/// reading, or an error where `earlier` is the later of the two. Nothing
/// is claimed of which it is.
pub assume_specification[ SystemTime::duration_since ](
    time: &SystemTime,
    earlier: SystemTime,
) -> (since: Result<Duration, SystemTimeError>);

/// `std::time::UNIX_EPOCH`, the wall-clock reading that seconds are
/// counted from.
#[verifier::external_body]
fn unix_epoch() -> (epoch: SystemTime) {
    std::time::UNIX_EPOCH
}

/// The wall clock in whole seconds since the Unix epoch, or `None` where
/// the clock reads a time before it.
pub(crate) fn epoch_seconds() -> (seconds: Option<u64>) {
    let now = SystemTime::now();
    match now.duration_since(unix_epoch()) {
        Ok(since) => Some(since.as_secs()),
        Err(_) => None,
    }
}

/// The whole seconds that have passed since `start` was read.
pub(crate) fn elapsed_seconds(start: &Instant) -> (seconds: u64) {
    start.elapsed().as_secs()
}

} // verus!
