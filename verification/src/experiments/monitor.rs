//! Parameters of the live statistics monitor: a terminal dashboard over the
//! data plane's counters.

use vstd::prelude::*;

verus! {

pub struct MonitorArgs {
    /// Refresh interval of the data collection, in milliseconds.
    pub interval_ms: u64,
}

} // verus!
