//! Parameters of the node logger: high-resolution collection of data-plane
//! statistics, kernel traces and system load on one cluster node.

use vstd::prelude::*;

verus! {

pub struct LogNodeArgs {
    /// Trace only the kernel flow table and upcalls, nothing additional.
    pub only_upcalls: bool,
    /// How long to run, in seconds; none means until stopped.
    pub runtime_sec: Option<u64>,
    /// Record a CPU profile alongside.
    pub perf: bool,
    /// Record off-CPU time alongside.
    pub offcputime: bool,
}

} // verus!
