//! Parameters of the randomized eviction-timeout measurement: consecutive
//! pings after a randomly drawn idle delay, so that the flow-table eviction
//! boundary cannot alias with a fixed schedule.

use vstd::prelude::*;

verus! {

pub struct RandomizedEvictionTimeoutArgs {
    /// Smallest idle delay between samples, in milliseconds.
    pub delay_min: u64,
    /// Largest idle delay between samples, in milliseconds.
    pub delay_max: u64,
    /// Where the ICMP packets go.
    pub target_ip: String,
    /// Number of consecutive pings per sample.
    pub count: usize,
}

} // verus!
