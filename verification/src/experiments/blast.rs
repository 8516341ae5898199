//! Parameters of the UDP blast experiment: saturate a range of addresses
//! with datagrams, once or in fixed-period rounds.

use vstd::prelude::*;

verus! {

pub struct BlastArgs {
    /// Number of IPs to send packets to during one blast round.
    pub blast_size: u32,
    /// IP address that starts the blasted range.
    pub target_ip: String,
    /// Send only one packet to each IP and then exit.
    pub once: bool,
}

} // verus!
