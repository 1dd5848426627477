//! The wall clock.

use std::time::{Duration, SystemTime, SystemTimeError, UNIX_EPOCH};
use vstd::prelude::*;

verus! {

/// `std::time::SystemTime`, an instant of the system clock. Nothing inside
/// it is visible here.
#[verifier::external_type_specification]
#[verifier::external_body]
pub struct ExSystemTime(SystemTime);

/// `std::time::SystemTimeError`, which `duration_since` returns for an
/// instant that lies before the one it is compared with.
#[verifier::external_type_specification]
#[verifier::external_body]
pub struct ExSystemTimeError(SystemTimeError);

/// `SystemTime::now` reads the system clock. Nothing is claimed of the
/// reading: two calls may differ, and the clock may be set back.
pub assume_specification[ std::time::SystemTime::now ]() -> (t: std::time::SystemTime)
;

/// `Duration::as_secs` gives the whole seconds of a duration. Nothing is
/// claimed of the number, since nothing is known of the duration.
pub assume_specification[ std::time::Duration::as_secs ](d: &std::time::Duration) -> (seconds: u64)
;

/// Calls `SystemTime::duration_since` with the Unix epoch as the earlier
/// instant: the time from the epoch to `t`, or an error when `t` lies before
/// the epoch. Nothing is claimed of which comes back.
#[verifier::external_body]
fn since_epoch(t: &SystemTime) -> (elapsed: Result<Duration, SystemTimeError>) {
    t.duration_since(UNIX_EPOCH)
}

/// Reads the clock: the whole seconds since the Unix epoch, or `None`
/// where the clock stands before the epoch. What comes back is whatever the
/// system clock says.
pub fn now() -> (reading: Option<u64>) {
    let t = SystemTime::now();
    match since_epoch(&t) {
        Ok(elapsed) => Some(elapsed.as_secs()),
        Err(_) => None,
    }
}

/// The timestamp of a reading of the clock: its whole seconds. A clock that
/// stood before the epoch gives no timestamp, which the precondition leaves
/// out.
pub fn timestamp_of_reading(reading: Option<u64>) -> (seconds: u64)
    requires
        reading is Some,
    ensures
        reading == Some(seconds),
{
    reading.unwrap()
}

} // verus!
