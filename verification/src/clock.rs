//! Monotonic clock access, nanosecond resolution.
//!
//! Timestamps drive probe correlation ids and the paced sender's schedule,
//! so they come from the monotonic clock, never the wall clock.

use vstd::prelude::*;

verus! {

#[derive(Clone, Copy, Debug, PartialEq, Eq, Structural)]
pub enum ClockError {
    /// The monotonic clock could not be read or its reading does not fit
    /// into nanoseconds in a `u64`.
    Unavailable,
}

/// Relies on nix::time::clock_gettime with CLOCK_MONOTONIC: it yields the
/// monotonic clock as whole seconds plus the nanoseconds within that second;
/// a valid timespec keeps the nanosecond part within 0..1_000_000_000.
#[verifier::external_body]
fn monotonic_raw() -> (r: Result<(i64, i64), ClockError>)
    ensures
        r matches Ok(t) ==> 0 <= t.1 < 1_000_000_000,
{
    match nix::time::clock_gettime(nix::time::ClockId::CLOCK_MONOTONIC) {
        Ok(ts) => Ok((ts.tv_sec(), ts.tv_nsec())),
        Err(_) => Err(ClockError::Unavailable),
    }
}

/// A seconds-plus-nanoseconds clock reading as whole nanoseconds: defined
/// exactly when both parts are non-negative and the total fits a `u64`;
/// never wrapped.
pub fn ns_of_timespec(sec: i64, nsec: i64) -> (r: Result<u64, ClockError>)
    ensures
        r == (if 0 <= sec && 0 <= nsec && sec * 1_000_000_000 + nsec <= u64::MAX {
            Ok::<u64, ClockError>((sec * 1_000_000_000 + nsec) as u64)
        } else {
            Err::<u64, ClockError>(ClockError::Unavailable)
        }),
{
    if sec < 0 || nsec < 0 {
        return Err(ClockError::Unavailable);
    }
    let sec_u = sec as u64;
    let nsec_u = nsec as u64;
    match sec_u.checked_mul(1_000_000_000) {
        Some(base) => match base.checked_add(nsec_u) {
            Some(total) => {
                proof {
                    assert(total == sec as int * 1_000_000_000 + nsec as int);
                }
                Ok(total)
            },
            None => Err(ClockError::Unavailable),
        },
        None => Err(ClockError::Unavailable),
    }
}

/// The monotonic clock in nanoseconds. A negative reading or one beyond
/// what a `u64` holds (580 years of uptime) is reported as unavailable
/// rather than wrapped.
pub fn clock_ns() -> Result<u64, ClockError> {
    match monotonic_raw() {
        Ok((sec, nsec)) => ns_of_timespec(sec, nsec),
        Err(e) => Err(e),
    }
}

} // verus!
