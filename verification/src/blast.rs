//! UDP blast targeting: the consecutive IPv4 address range one blast round
//! covers. Sending the datagrams is an I/O concern of the caller.

use vstd::prelude::*;

verus! {

/// Fixed port a blast round sends to.
pub const BLAST_PORT: u16 = 9000;

/// The addresses of one blast round: `count` consecutive IPv4 addresses
/// (as 32-bit numbers) starting at `start_addr`, in order.
pub fn blast_target_addrs(start_addr: u32, count: u32) -> (addrs: Vec<u32>)
    requires
        start_addr + count <= u32::MAX + 1,
    ensures
        addrs@.len() == count,
        forall|i: int| 0 <= i < count ==> addrs@[i] == start_addr + i,
{
    let mut addrs: Vec<u32> = Vec::new();
    let mut i: u32 = 0;
    while i < count
        invariant
            i <= count,
            start_addr + count <= u32::MAX + 1,
            addrs@.len() == i,
            forall|j: int| 0 <= j < i ==> addrs@[j] == start_addr + j,
        decreases count - i,
    {
        addrs.push(start_addr + i);
        i += 1;
    }
    addrs
}

} // verus!
