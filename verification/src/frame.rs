//! Wire images of the synthesized packets: a minimal Ethernet frame whose
//! source field carries a monotonically varying tag, so that external
//! instrumentation can tell the resulting flow-table entries apart; and the
//! byte-level header swaps the packet reflector performs.

use vstd::prelude::*;

verus! {

/// Length of one synthesized frame: the 14 Ethernet header bytes and two
/// bytes of padding, matching the fixed send buffers.
pub const ETH_FRAME_LEN: usize = 16;

/// IP protocol numbers the reflector cares about.
pub const IPPROTO_TCP: u8 = 6;

pub const IPPROTO_UDP: u8 = 17;

/// Byte `k` (little-endian) of a packet tag.
pub open spec fn tag_byte(id: u64, k: int) -> u8 {
    ((id >> (8 * k as u64)) & 0xff) as u8
}

/// The wire image of the packet tagged `id`: destination is a fixed
/// placeholder locally-administered MAC, the source MAC carries the low
/// five tag bytes behind a locally-administered prefix, and the ethertype
/// is IPv4 (0x0800, big endian on the wire).
pub open spec fn eth_frame_spec(id: u64) -> Seq<u8> {
    seq![
        2u8,
        2u8,
        3u8,
        4u8,
        5u8,
        6u8,
        2u8,
        tag_byte(id, 0),
        tag_byte(id, 1),
        tag_byte(id, 2),
        tag_byte(id, 3),
        tag_byte(id, 4),
        8u8,
        0u8,
        0u8,
        0u8,
    ]
}

/// Byte `k` (little-endian) of a packet tag.
pub fn tag_byte_of(id: u64, k: u64) -> (b: u8)
    requires
        k < 8,
    ensures
        b == tag_byte(id, k as int),
{
    ((id >> (8 * k)) & 0xff) as u8
}

/// Build the wire image of the packet tagged `id`.
pub fn build_eth_frame(id: u64) -> (f: Vec<u8>)
    ensures
        f@ == eth_frame_spec(id),
        f@.len() == ETH_FRAME_LEN,
{
    let mut f: Vec<u8> = Vec::new();
    f.push(2);
    f.push(2);
    f.push(3);
    f.push(4);
    f.push(5);
    f.push(6);
    f.push(2);
    f.push(tag_byte_of(id, 0));
    f.push(tag_byte_of(id, 1));
    f.push(tag_byte_of(id, 2));
    f.push(tag_byte_of(id, 3));
    f.push(tag_byte_of(id, 4));
    f.push(8);
    f.push(0);
    f.push(0);
    f.push(0);
    proof {
        assert(f@ =~= eth_frame_spec(id));
    }
    f
}

/// Build the wire images of the packets tagged `first_id` up to but not
/// including `first_id + count`, in tag order.
pub fn build_frame_batch(first_id: u64, count: u64) -> (fs: Vec<Vec<u8>>)
    requires
        first_id + count <= u64::MAX,
    ensures
        fs@.len() == count,
        forall|i: int| 0 <= i < count ==> #[trigger] fs@[i]@ == eth_frame_spec((first_id + i) as u64),
{
    let mut fs: Vec<Vec<u8>> = Vec::new();
    let mut i: u64 = 0;
    while i < count
        invariant
            i <= count,
            first_id + count <= u64::MAX,
            fs@.len() == i,
            forall|j: int|
                0 <= j < i ==> #[trigger] fs@[j]@ == eth_frame_spec((first_id + j) as u64),
        decreases count - i,
    {
        let f = build_eth_frame(first_id + i);
        fs.push(f);
        i += 1;
    }
    fs
}

/// Law: below 2^40 — the five source-field bytes a tag occupies on the
/// wire — distinct tags give distinct frames, so every packet of a paced
/// run is distinguishable by external instrumentation.
pub proof fn lemma_frame_tags_injective(id1: u64, id2: u64)
    requires
        id1 < 0x100_0000_0000,
        id2 < 0x100_0000_0000,
        id1 != id2,
    ensures
        eth_frame_spec(id1) != eth_frame_spec(id2),
{
    if eth_frame_spec(id1) == eth_frame_spec(id2) {
        assert(tag_byte(id1, 0) == tag_byte(id2, 0)) by {
            assert(eth_frame_spec(id1)[7] == eth_frame_spec(id2)[7]);
        }
        assert(tag_byte(id1, 1) == tag_byte(id2, 1)) by {
            assert(eth_frame_spec(id1)[8] == eth_frame_spec(id2)[8]);
        }
        assert(tag_byte(id1, 2) == tag_byte(id2, 2)) by {
            assert(eth_frame_spec(id1)[9] == eth_frame_spec(id2)[9]);
        }
        assert(tag_byte(id1, 3) == tag_byte(id2, 3)) by {
            assert(eth_frame_spec(id1)[10] == eth_frame_spec(id2)[10]);
        }
        assert(tag_byte(id1, 4) == tag_byte(id2, 4)) by {
            assert(eth_frame_spec(id1)[11] == eth_frame_spec(id2)[11]);
        }
        assert(false) by (bit_vector)
            requires
                id1 < 0x100_0000_0000,
                id2 < 0x100_0000_0000,
                id1 != id2,
                ((id1 >> 0) & 0xff) as u8 == ((id2 >> 0) & 0xff) as u8,
                ((id1 >> 8) & 0xff) as u8 == ((id2 >> 8) & 0xff) as u8,
                ((id1 >> 16) & 0xff) as u8 == ((id2 >> 16) & 0xff) as u8,
                ((id1 >> 24) & 0xff) as u8 == ((id2 >> 24) & 0xff) as u8,
                ((id1 >> 32) & 0xff) as u8 == ((id2 >> 32) & 0xff) as u8,
        ;
    }
}

/// Swap the source and destination port of the layer-4 header found in
/// `payload`, as the packet reflector does: swapped for UDP, left alone for
/// TCP (a reflected TCP packet targets the sender's own listening socket)
/// and for anything else. A buffer too short for a UDP header is left
/// unchanged.
pub fn swap_l4_src_dest(protocol: u8, payload: &mut Vec<u8>)
    ensures
        final(payload)@.len() == old(payload)@.len(),
        protocol == IPPROTO_UDP && old(payload)@.len() >= 8 ==> {
            &&& final(payload)@[0] == old(payload)@[2]
            &&& final(payload)@[1] == old(payload)@[3]
            &&& final(payload)@[2] == old(payload)@[0]
            &&& final(payload)@[3] == old(payload)@[1]
            &&& forall|i: int| 4 <= i < old(payload)@.len() ==> final(payload)@[i] == old(payload)@[i]
        },
        !(protocol == IPPROTO_UDP && old(payload)@.len() >= 8) ==> final(payload)@ == old(
            payload,
        )@,
{
    if protocol == IPPROTO_UDP && payload.len() >= 8 {
        let src0 = payload[0];
        let src1 = payload[1];
        let dst0 = payload[2];
        let dst1 = payload[3];
        payload[0] = dst0;
        payload[1] = dst1;
        payload[2] = src0;
        payload[3] = src1;
    }
}

} // verus!
