//! The wall clock, in milliseconds since the Unix epoch.

use vstd::prelude::*;
use std::time::Duration;
use std::time::SystemTime;
use std::time::SystemTimeError;
use std::time::UNIX_EPOCH;

verus! {

/// A point in time as the system clock reports it.
#[verifier::external_type_specification]
#[verifier::external_body]
pub struct ExSystemTime(SystemTime);

/// The failure of measuring a span that would be negative.
#[verifier::external_type_specification]
#[verifier::external_body]
pub struct ExSystemTimeError(SystemTimeError);

/// `SystemTime::now`: the current reading of the system clock. Nothing is
/// promised of it.
pub assume_specification[ SystemTime::now ]() -> (now: SystemTime);

/// `SystemTime::duration_since` with `UNIX_EPOCH` as the earlier time: the
/// span from the epoch to `time`, or an error where `time` lies before the
/// epoch. Nothing is promised of the span.
#[verifier::external_body]
fn since_epoch(time: &SystemTime) -> (r: Result<Duration, SystemTimeError>) {
    time.duration_since(UNIX_EPOCH)
}

/// `Duration::as_millis`: the whole milliseconds of the span.
pub assume_specification[ Duration::as_millis ](span: &Duration) -> (ms: u128);

/// The timestamp for a number of milliseconds: the number itself where it
/// fits 64 bits, the largest timestamp otherwise.
pub open spec fn clamp_millis(ms: u128) -> u64 {
    if ms > u64::MAX as u128 {
        u64::MAX
    } else {
        ms as u64
    }
}

/// Turns a count of milliseconds into a timestamp.
pub fn millis_to_timestamp(ms: u128) -> (stamp: u64)
    ensures
        stamp == clamp_millis(ms),
{
    if ms > u64::MAX as u128 {
        u64::MAX
    } else {
        ms as u64
    }
}

/// The current time in milliseconds since the Unix epoch; 0 where the
/// system clock stands before the epoch.
pub fn current_timestamp() -> (now: u64) {
    let time = SystemTime::now();
    let reading = match since_epoch(&time) {
        Ok(span) => Some(span.as_millis()),
        Err(_) => None,
    };
    reading_to_timestamp(reading)
}

/// The timestamp for a reading of the clock: the whole milliseconds since
/// the epoch, clamped to 64 bits, or 0 for a clock that stands before the
/// epoch, which has no such reading.
pub open spec fn timestamp_of(reading: Option<u128>) -> u64 {
    match reading {
        Some(ms) => clamp_millis(ms),
        None => 0,
    }
}

/// Turns a reading of the clock into a timestamp.
pub fn reading_to_timestamp(reading: Option<u128>) -> (stamp: u64)
    ensures
        stamp == timestamp_of(reading),
{
    match reading {
        Some(ms) => millis_to_timestamp(ms),
        None => 0,
    }
}

} // verus!
