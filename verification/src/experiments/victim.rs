//! Parameters of the victim experiment: measure UDP round-trip and ICMP
//! latency from a pod on a stressed host until stopped.

use vstd::prelude::*;

verus! {

pub struct VictimArgs {
    /// How long to run, in seconds; none means until stopped.
    pub runtime_sec: Option<u64>,
}

} // verus!
