//! Parameters of the flow-table statistics logger: periodic dumps of the
//! data plane's counters, mirrored over the network as they are taken.

use vstd::prelude::*;

verus! {

pub struct LogArgs {
    /// Where the collected data is mirrored in UDP datagrams.
    pub log_ip: String,
}

} // verus!
