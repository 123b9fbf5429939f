//! The wall clock, read in whole seconds.

use std::time::{Duration, SystemTime, SystemTimeError, UNIX_EPOCH};
use vstd::prelude::*;

verus! {

/// A reading of the system clock. It is opaque here.
#[verifier::external_type_specification]
#[verifier::external_body]
pub struct ExSystemTime(SystemTime);

/// The failure of `SystemTime::duration_since`. It is opaque here.
#[verifier::external_type_specification]
#[verifier::external_body]
pub struct ExSystemTimeError(SystemTimeError);

/// `SystemTime::now` reads the system clock. The reading differs from call to
/// call, so nothing is claimed of it.
pub assume_specification[ SystemTime::now ]() -> (reading: SystemTime)
;

/// `Duration::as_secs` gives the whole seconds of a span. A span is opaque
/// here, so nothing is claimed of the number.
pub assume_specification[ Duration::as_secs ](span: &Duration) -> (seconds: u64)
;

/// `SystemTime::duration_since`, measured from `UNIX_EPOCH`: the span from the
/// epoch to `reading`, or an error where `reading` lies before the epoch.
/// Nothing is claimed of the span.
#[verifier::external_body]
fn since_epoch(reading: &SystemTime) -> (span: Result<Duration, SystemTimeError>) {
    reading.duration_since(UNIX_EPOCH)
}

/// The timestamp for a reading of the clock, from the whole seconds that
/// passed from the epoch to the reading (`None` where the reading lies before
/// the epoch): those seconds, or 0.
pub fn timestamp_of(elapsed: Option<u64>) -> (seconds: u64)
    ensures
        seconds == match elapsed {
            Some(whole) => whole,
            None => 0,
        },
{
    match elapsed {
        Some(whole) => whole,
        None => 0,
    }
}

/// The whole seconds that have passed since the Unix epoch, by the system
/// clock; 0 where the clock is set before the epoch.
pub fn get_timestamp() -> u64 {
    let reading: SystemTime = SystemTime::now();
    let elapsed = match since_epoch(&reading) {
        Ok(span) => Some(span.as_secs()),
        Err(_) => None,
    };
    timestamp_of(elapsed)
}

} // verus!
