//! The wall clock: the system time as nanoseconds since the Unix epoch.

use vstd::prelude::*;
use crate::error::recovery::duration_nanos;

verus! {

/// A reading of the system's wall clock.
#[verifier::external_type_specification]
#[verifier::external_body]
pub struct ExSystemTime(std::time::SystemTime);

/// `SystemTime::now`: the current reading of the wall clock; it depends on
/// the clock, so nothing is stated of it.
#[verifier::external_body]
fn system_now() -> std::time::SystemTime {
    std::time::SystemTime::now()
}

/// `SystemTime::duration_since(UNIX_EPOCH)`: how long after the Unix epoch
/// `t` lies; `None` where `t` lies before it (the call's error). Which
/// case holds depends on the reading, so nothing is stated of it.
#[verifier::external_body]
fn since_epoch(t: &std::time::SystemTime) -> Option<core::time::Duration> {
    t.duration_since(std::time::UNIX_EPOCH).ok()
}

/// The current time in nanoseconds since the Unix epoch. Timestamps in
/// this library are `i64` nanoseconds from the epoch on, whose range ends
/// in the year 2262: a clock reading before the epoch is held at the
/// epoch (0), and one after 2262-04-11 at the last representable instant
/// (`i64::MAX`).
pub fn now_nanos() -> (r: i64)
    ensures
        r >= 0,
{
    match since_epoch(&system_now()) {
        Some(d) => {
            let n = duration_nanos(d);
            if n <= 9_223_372_036_854_775_807u128 {
                n as i64
            } else {
                i64::MAX
            }
        },
        None => 0,
    }
}

} // verus!
