//! The wall clock, read in whole seconds since the Unix epoch.
//!
//! Nothing is known of what the clock returns: it may stand still, and it
//! may run backwards when the system time is corrected.

use std::time::{Duration, SystemTime, SystemTimeError};
use vstd::prelude::*;

verus! {

/// `std::time::SystemTime`, carried through as it is.
#[verifier::external_type_specification]
#[verifier::external_body]
pub struct ExSystemTime(std::time::SystemTime);

/// `std::time::SystemTimeError`, which says that a time lies before another.
#[verifier::external_type_specification]
#[verifier::external_body]
pub struct ExSystemTimeError(std::time::SystemTimeError);

/// `SystemTime::now`: the current system time. Nothing is claimed of it.
pub assume_specification[ SystemTime::now ]() -> (now: SystemTime);

/// `SystemTime::duration_since` against `UNIX_EPOCH`: how long after the
/// epoch `time` lies, or an error when it lies before. Nothing is claimed of
/// the result.
#[verifier::external_body]
fn since_epoch(time: &SystemTime) -> (elapsed: Result<Duration, SystemTimeError>) {
    time.duration_since(SystemTime::UNIX_EPOCH)
}

/// `Duration::as_secs`: the whole seconds of a duration. Nothing is claimed
/// of the result.
pub assume_specification[ Duration::as_secs ](duration: &Duration) -> (secs: u64);

/// The current second by the system clock: [`second_of`] its reading. The
/// clock may give any reading, so nothing is promised of the result.
pub fn unix_seconds() -> u64 {
    let current = SystemTime::now();
    let elapsed = match since_epoch(&current) {
        Ok(elapsed) => Some(elapsed.as_secs()),
        Err(_) => None,
    };
    second_of(elapsed)
}

/// The second that a clock reading stands for: the whole seconds that the
/// clock stands after the epoch, or 0 for a clock that stands before it.
pub fn second_of(elapsed: Option<u64>) -> (second: u64)
    ensures
        second == match elapsed {
            Some(secs) => secs,
            None => 0,
        },
{
    match elapsed {
        Some(secs) => secs,
        None => 0,
    }
}

} // verus!
