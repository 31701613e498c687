//! Readings of the system clock, as raw material for a seed.

use std::time::Duration;
use std::time::SystemTime;
use vstd::prelude::*;

verus! {

/// `std::time::SystemTime`: a reading of the clock, carried from `now` to
/// `since_epoch` and never looked into.
#[verifier::external_type_specification]
#[verifier::external_body]
pub struct ExSystemTime(SystemTime);

/// `SystemTime::now`: the clock's present reading. Nothing is claimed of it.
pub assume_specification[ SystemTime::now ]() -> SystemTime;

/// `Duration::as_micros`: the whole microseconds in a duration. Nothing is
/// claimed of the number.
pub assume_specification[ Duration::as_micros ](duration: &Duration) -> u128;

/// `Duration::as_nanos`: the nanoseconds in a duration. Nothing is claimed of
/// the number.
pub assume_specification[ Duration::as_nanos ](duration: &Duration) -> u128;

/// `SystemTime::duration_since`, measured from `SystemTime::UNIX_EPOCH`: the
/// time from the epoch to `time`, or nothing where `time` lies before the
/// epoch. Nothing is claimed of which of the two comes back.
#[verifier::external_body]
fn since_epoch(time: &SystemTime) -> Option<Duration> {
    match time.duration_since(SystemTime::UNIX_EPOCH) {
        Ok(elapsed) => Some(elapsed),
        Err(_) => None,
    }
}

/// The microseconds from the epoch to now, or nothing on a clock set before
/// the epoch.
fn micros_now() -> Option<u128> {
    let now = SystemTime::now();
    match since_epoch(&now) {
        Some(elapsed) => Some(elapsed.as_micros()),
        None => None,
    }
}

/// The nanoseconds from the epoch to now, or nothing on a clock set before
/// the epoch.
fn nanos_now() -> Option<u128> {
    let now = SystemTime::now();
    match since_epoch(&now) {
        Some(elapsed) => Some(elapsed.as_nanos()),
        None => None,
    }
}

/// The sample that two readings of the clock make: the exclusive or, bit by
/// bit, of what they count as.
pub fn sample_of(micros: Option<u128>, nanos: Option<u128>) -> (sample: u128)
    ensures
        sample == counted(micros) ^ counted(nanos),
{
    micros.unwrap_or(0) ^ nanos.unwrap_or(0)
}

/// A more or less random number: the sample of two readings of the clock, one
/// in microseconds and one in nanoseconds. Any value may come back, and two
/// calls may differ.
pub(crate) fn system_time_random() -> u128 {
    let micros: Option<u128> = micros_now();
    let nanos: Option<u128> = nanos_now();
    sample_of(micros, nanos)
}

/// What a reading of the clock counts as in a sample: its number, or zero
/// where the clock stood before the epoch and gave none.
pub open spec fn counted(reading: Option<u128>) -> u128 {
    match reading {
        Some(units) => units,
        None => 0,
    }
}

} // verus!
