//! Measurement engine for characterizing a software-defined networking data
//! plane: a fixed-cadence sampling framework, a round-trip latency monitor
//! with loss detection, and a precisely paced packet generator.

use vstd::prelude::*;

pub mod blast;
pub mod clock;
pub mod collector;
pub mod experiments;
pub mod external_prog;
pub mod frame;
pub mod latency;
pub mod loadavg;
pub mod pacer;
pub mod results_uploader;
pub mod rr;

verus! {

/// Reserved maximum sentinel latency meaning "no response / lost".
pub const LOST_SENTINEL_NS: u64 = u64::MAX;

/// Absolute difference of two instants in nanoseconds.
pub fn abs_diff(d1: u64, d2: u64) -> (r: u64)
    ensures
        r == if d1 >= d2 { d1 - d2 } else { d2 - d1 },
{
    if d1 > d2 {
        d1 - d2
    } else {
        d2 - d1
    }
}

} // verus!
