//! Readings of the system clock, which selection strategies use as draws.

use vstd::prelude::*;

use std::time::{Duration, SystemTime};

verus! {

#[verifier::external_type_specification]
#[verifier::external_body]
pub struct ExSystemTime(SystemTime);

/// Relies on `Duration::subsec_nanos`: the fractional part of a duration in
/// nanoseconds, always below one billion.
pub assume_specification[ Duration::subsec_nanos ](d: &Duration) -> (r: u32)
    ensures
        r < 1_000_000_000,
;

/// Relies on `Duration::as_secs`: the whole seconds of a duration.
pub assume_specification[ Duration::as_secs ](d: &Duration) -> u64;

/// Relies on `SystemTime::now`: the current wall-clock time.
#[verifier::external_body]
fn wall_clock_now() -> (r: SystemTime) {
    SystemTime::now()
}

/// Relies on `SystemTime::duration_since`: the time elapsed since the Unix
/// epoch, or `None` for a clock set before it.
#[verifier::external_body]
fn since_unix_epoch(t: &SystemTime) -> (r: Option<Duration>) {
    t.duration_since(std::time::UNIX_EPOCH).ok()
}

/// Sub-second nanoseconds of the wall clock; zero for a clock set before the
/// Unix epoch.
pub fn clock_subsec_nanos() -> (r: u32)
    ensures
        r < 1_000_000_000,
{
    let now = wall_clock_now();
    match since_unix_epoch(&now) {
        Some(d) => d.subsec_nanos(),
        None => 0,
    }
}

/// Whole seconds since the Unix epoch; zero for a clock set before it.
pub fn clock_epoch_secs() -> (r: u64) {
    let now = wall_clock_now();
    match since_unix_epoch(&now) {
        Some(d) => d.as_secs(),
        None => 0,
    }
}

} // verus!
