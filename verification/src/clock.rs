//! The machine's clock, read in milliseconds since the Unix epoch.
use std::time::{Duration, SystemTime, UNIX_EPOCH};

use vstd::prelude::*;

use crate::messages::Timestamp;

verus! {

#[verifier::external_type_specification]
#[verifier::external_body]
pub struct ExSystemTime(SystemTime);

/// Calls `std::time::SystemTime::now`. Nothing is promised of the reading,
/// which depends on the machine's clock.
#[verifier::external_body]
fn system_now() -> SystemTime {
    SystemTime::now()
}

/// Calls `SystemTime::duration_since` with the Unix epoch and keeps the
/// duration, or `None` where std reports the time to lie before the epoch. Which
/// of the two comes is not promised: it depends on the reading.
#[verifier::external_body]
fn duration_since_epoch(t: &SystemTime) -> Option<Duration> {
    t.duration_since(UNIX_EPOCH).ok()
}

/// Calls `Duration::as_millis`: the whole milliseconds of the duration. Nothing
/// is promised of the value beyond its type, the duration being opaque here.
#[verifier::external_body]
fn duration_millis(d: &Duration) -> u128 {
    d.as_millis()
}

/// The clock's reading in milliseconds since the Unix epoch; `None` when the
/// clock reads before the epoch, or later than a timestamp can hold.
pub fn now_millis() -> (r: Option<Timestamp>)
    ensures
        r matches Some(t) ==> t >= 0,
{
    let now = system_now();
    match duration_since_epoch(&now) {
        None => None,
        Some(d) => {
            let ms = duration_millis(&d);
            if ms <= 9_223_372_036_854_775_807u128 {
                Some(ms as i64)
            } else {
                None
            }
        },
    }
}

} // verus!
