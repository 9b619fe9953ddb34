//! The system clock, read so that reading it cannot fail.
//!
//! A stamp is a time at or after the Unix epoch that `chrono` can hold.
//! Where the system's clock shows no such time, the stamp is the epoch
//! itself: a wrong clock makes wrong stamps, never a failed command.

use crate::message::Timestamp;
use std::time::{Duration, SystemTime, SystemTimeError};
use vstd::prelude::*;

verus! {

/// The times that the clock gives: from the epoch up to 2^48 seconds after
/// it.
pub open spec fn clock_range(t: Timestamp) -> bool {
    0 <= t.secs < 0x1_0000_0000_0000
}

/// `std::time::SystemTime`, a reading of the system clock.
#[verifier::external_type_specification]
#[verifier::external_body]
pub struct ExSystemTime(SystemTime);

/// `std::time::SystemTimeError`, the answer for a reading that lies before
/// the time it is measured from.
#[verifier::external_type_specification]
#[verifier::external_body]
pub struct ExSystemTimeError(SystemTimeError);

/// Calls `std::time::SystemTime::now`.
///
/// Trusted, with nothing claimed of the reading.
#[verifier::external_body]
fn system_now() -> (reading: SystemTime) {
    SystemTime::now()
}

/// Calls `SystemTime::duration_since` with `std::time::UNIX_EPOCH`: the time
/// from the epoch to `reading`, or an error where the reading lies before
/// the epoch.
///
/// Trusted, with nothing claimed of the result.
#[verifier::external_body]
fn since_epoch(reading: &SystemTime) -> (elapsed: Result<Duration, SystemTimeError>) {
    reading.duration_since(std::time::UNIX_EPOCH)
}

/// Calls `Duration::as_nanos`: the whole of `elapsed` in nanoseconds.
///
/// Trusted, with nothing claimed of the number.
#[verifier::external_body]
fn nanoseconds(elapsed: &Duration) -> (total: u128) {
    elapsed.as_nanos()
}

/// Calls `chrono::DateTime::from_timestamp` and reads the result's
/// `timestamp` and `timestamp_subsec_nanos`: the time as `chrono` holds it,
/// or `None` where it holds no such time.
///
/// Trusted, with nothing claimed of the result.
#[verifier::external_body]
fn utc_timestamp(secs: i64, nanos: u32) -> (held: Option<Timestamp>) {
    match chrono::DateTime::from_timestamp(secs, nanos) {
        Some(at) => Some(Timestamp { secs: at.timestamp(), nanos: at.timestamp_subsec_nanos() }),
        None => None,
    }
}

/// The present time, or the epoch where the clock shows a time before the
/// epoch or one that cannot be held. Two calls may give any two times.
pub(crate) fn now() -> (t: Timestamp)
    ensures
        clock_range(t),
{
    let epoch = Timestamp { secs: 0, nanos: 0 };
    let reading = system_now();
    let total: u128 = match since_epoch(&reading) {
        Ok(elapsed) => nanoseconds(&elapsed),
        Err(_) => {
            return epoch;
        },
    };
    let secs: u128 = total / 1_000_000_000;
    let nanos: u128 = total % 1_000_000_000;
    if secs >= 0x1_0000_0000_0000 {
        return epoch;
    }
    match utc_timestamp(secs as i64, nanos as u32) {
        Some(at) => {
            if 0 <= at.secs && at.secs < 0x1_0000_0000_0000 {
                at
            } else {
                epoch
            }
        },
        None => epoch,
    }
}

} // verus!
