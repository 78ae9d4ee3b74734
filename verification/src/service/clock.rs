//! Wall-clock time in milliseconds.

use std::time::SystemTime;

use vstd::prelude::*;

verus! {

/// A reading of the system clock, `std::time::SystemTime`.
#[verifier::external_type_specification]
#[verifier::external_body]
pub struct ExSystemTime(SystemTime);

/// Reads the system clock with `std::time::SystemTime::now`. Nothing is claimed
/// of the reading: the clock may stand anywhere.
pub assume_specification[ SystemTime::now ]() -> SystemTime;

/// Calls `SystemTime::duration_since` with the Unix epoch and reads the span as
/// whole seconds and the nanoseconds beyond them; there is no span when the
/// clock stands before the epoch.
///
/// Trusted here is only that the nanoseconds are less than a second. How long
/// the span is depends on the clock.
#[verifier::external_body]
fn since_epoch(time: SystemTime) -> (elapsed: Option<(u64, u32)>)
    ensures
        elapsed matches Some((_, nanos)) ==> nanos < 1_000_000_000,
{
    match time.duration_since(std::time::UNIX_EPOCH) {
        Ok(span) => Some((span.as_secs(), span.subsec_nanos())),
        Err(_) => None,
    }
}

/// Whole milliseconds of a span of seconds and nanoseconds.
pub open spec fn whole_millis(seconds: u64, nanos: u32) -> nat {
    seconds as nat * 1_000 + nanos as nat / 1_000_000
}

/// Milliseconds since the epoch for a span that the clock reported, in seconds
/// and nanoseconds: zero when the clock stands before the epoch, and at most
/// what 64 bits hold.
pub fn epoch_millis(elapsed: Option<(u64, u32)>) -> (millis: u64)
    ensures
        millis == match elapsed {
            Some((seconds, nanos)) => if whole_millis(seconds, nanos) < u64::MAX {
                whole_millis(seconds, nanos)
            } else {
                u64::MAX as nat
            },
            None => 0,
        },
{
    match elapsed {
        Some((seconds, nanos)) => {
            let total: u128 = seconds as u128 * 1_000 + nanos as u128 / 1_000_000;
            if total < u64::MAX as u128 {
                total as u64
            } else {
                u64::MAX
            }
        },
        None => 0,
    }
}

/// Reads the current Unix time in milliseconds, as [`epoch_millis`] converts it.
/// Nothing is stated of the number: every number is what some reading of the
/// clock converts to.
pub fn now_ms() -> (millis: u64) {
    epoch_millis(since_epoch(SystemTime::now()))
}

/// A span is counted in the most milliseconds that it contains, as far as 64 bits
/// go; without a span nothing is counted.
pub proof fn law_millis_are_those_that_have_passed(elapsed: Option<(u64, u32)>, millis: u64)
    requires
        call_ensures(epoch_millis, (elapsed,), millis),
    ensures
        elapsed is None ==> millis == 0,
        elapsed matches Some((seconds, nanos)) ==> {
            let span = seconds * 1_000_000_000 + nanos;
            &&& millis * 1_000_000 <= span
            &&& millis < u64::MAX ==> span < (millis + 1) * 1_000_000
        },
{
}

} // verus!
