//! Splitting an encoded frame into datagram-sized packets, and putting the
//! packets back together.

use vstd::prelude::*;
use vstd::slice::{slice_subrange, slice_to_vec};
use crate::wire::append_bytes;
use crate::codec::{EncodedFormat, EncodedFrame, EncodedFrameView};

verus! {

/// The largest datagram a packet is meant to fill.
pub const MAX_PACKET_SIZE: usize = 65000;

/// The frame bytes carried by one packet: the datagram size less 64 bytes
/// kept for the header.
pub const MAX_PACKET_DATA: usize = 64936;

#[derive(Clone, Copy, Debug, PartialEq, Eq, Structural)]
pub struct FramePacketHeader {
    pub frame_number: u64,
    pub packet_index: u16,
    pub total_packets: u16,
    pub is_keyframe: bool,
    pub width: u32,
    pub height: u32,
    pub timestamp_us: u64,
    pub original_size: u32,
}

#[derive(Clone, Debug)]
pub struct FramePacket {
    pub header: FramePacketHeader,
    pub data: Vec<u8>,
}

/// The number of chunks a frame of `n` bytes is cut into: `n / 64936`
/// rounded up, and at least one.
pub open spec fn chunk_count(n: nat) -> nat {
    if n == 0 {
        1
    } else {
        ((n + MAX_PACKET_DATA - 1) / (MAX_PACKET_DATA as int)) as nat
    }
}

/// The packet count written into each header: the chunk count reduced to
/// 16 bits.
pub open spec fn packet_total(n: nat) -> u16 {
    chunk_count(n) as u16
}

/// The bytes of `data` that chunk `i` carries.
pub open spec fn chunk(data: Seq<u8>, i: int) -> Seq<u8> {
    let start = i * MAX_PACKET_DATA;
    let end = if (i + 1) * MAX_PACKET_DATA < data.len() {
        (i + 1) * MAX_PACKET_DATA
    } else {
        data.len() as int
    };
    data.subrange(start, end)
}

/// The header of packet `i` of `frame`.
pub open spec fn packet_header(frame: EncodedFrameView, i: int) -> FramePacketHeader {
    FramePacketHeader {
        frame_number: frame.frame_number,
        packet_index: i as u16,
        total_packets: packet_total(frame.data.len()),
        is_keyframe: frame.is_keyframe,
        width: frame.width,
        height: frame.height,
        timestamp_us: frame.timestamp_us,
        original_size: frame.data.len() as u32,
    }
}

/// Whether `packets` are the fragments of `frame`.
pub open spec fn is_fragmentation(frame: EncodedFrameView, packets: Seq<FramePacket>) -> bool {
    &&& packets.len() == packet_total(frame.data.len())
    &&& forall|i: int|
        0 <= i < packets.len() ==> {
            &&& (#[trigger] packets[i]).header == packet_header(frame, i)
            &&& packets[i].data@ == chunk(frame.data, i)
        }
}

/// The data of the first `k` packets, in order.
pub open spec fn joined_data(packets: Seq<Option<FramePacket>>, k: nat) -> Seq<u8>
    decreases k,
{
    if k == 0 {
        Seq::empty()
    } else {
        joined_data(packets, (k - 1) as nat) + packets[k - 1]->Some_0.data@
    }
}

/// What reassembling `packets` gives: nothing unless the first packet is
/// present and so are all of the packets its header counts; then the frame
/// that their data make up, in order, with the first header's metadata.
pub open spec fn reassembled(packets: Seq<Option<FramePacket>>) -> Option<EncodedFrameView> {
    if packets.len() == 0 || packets[0] is None {
        None
    } else {
        let first = packets[0]->Some_0.header;
        let total = first.total_packets as nat;
        if packets.len() < total {
            None
        } else if exists|i: int| 0 <= i < total && (#[trigger] packets[i]) is None {
            None
        } else {
            Some(
                EncodedFrameView {
                    data: joined_data(packets, total),
                    width: first.width,
                    height: first.height,
                    frame_number: first.frame_number,
                    is_keyframe: first.is_keyframe,
                    timestamp_us: first.timestamp_us,
                    encode_time_us: 0,
                    format: EncodedFormat::H264,
                },
            )
        }
    }
}

proof fn lemma_chunk_bounds(n: nat, i: int)
    requires
        0 <= i < chunk_count(n),
    ensures
        i * MAX_PACKET_DATA <= n,
        (i + 1) * MAX_PACKET_DATA <= n + MAX_PACKET_DATA,
{
    let d = MAX_PACKET_DATA as int;
    if n > 0 {
        let c = chunk_count(n) as int;
        assert(c * d <= n + d - 1) by (nonlinear_arith)
            requires
                c == (n + d - 1) / d,
                d > 0,
                n > 0,
        ;
        assert(i * d <= (c - 1) * d) by (nonlinear_arith)
            requires
                i <= c - 1,
                d > 0,
        ;
        assert((c - 1) * d == c * d - d) by (nonlinear_arith);
        assert((i + 1) * d == i * d + d) by (nonlinear_arith);
    }
}

impl FramePacket {
    /// Cuts `frame` into packets of at most 64936 data bytes each.
    pub fn fragment_frame(frame: &EncodedFrame) -> (packets: Vec<FramePacket>)
        requires
            frame.data@.len() + MAX_PACKET_DATA <= usize::MAX,
        ensures
            is_fragmentation(frame@, packets@),
    {
        let n = frame.data.len();
        let max_data: usize = MAX_PACKET_DATA;
        let rounded = (n + max_data - 1) / max_data;
        let count = if rounded < 1 {
            1
        } else {
            rounded
        };
        assert(count == chunk_count(n as nat));
        #[verifier::truncate]
        let total_packets = count as u16;
        #[verifier::truncate]
        let original_size = n as u32;
        let mut packets: Vec<FramePacket> = Vec::with_capacity(total_packets as usize);
        let mut i: u16 = 0;
        while i < total_packets
            invariant
                max_data == MAX_PACKET_DATA,
                n == frame.data@.len(),
                n + MAX_PACKET_DATA <= usize::MAX,
                count == chunk_count(n as nat),
                total_packets == packet_total(n as nat),
                original_size == n as u32,
                i <= total_packets,
                packets@.len() == i,
                forall|j: int|
                    0 <= j < i ==> {
                        &&& (#[trigger] packets@[j]).header == packet_header(frame@, j)
                        &&& packets@[j].data@ == chunk(frame.data@, j)
                    },
            decreases total_packets - i,
        {
            proof {
                assert(total_packets as int <= count) by {
                    assert(total_packets == count as u16);
                    assert(count as u16 <= count) by (bit_vector);
                }
                lemma_chunk_bounds(n as nat, i as int);
                assert((i as int + 1) * 64936 <= 65535 * 64936) by (nonlinear_arith)
                    requires
                        i < 65535,
                ;
                assert(i as int * 64936 <= (i as int + 1) * 64936) by (nonlinear_arith);
                assert(65535 * 64936 <= usize::MAX);
            }
            let start = i as usize * max_data;
            let next = (i as usize + 1) * max_data;
            let end = if next < n {
                next
            } else {
                n
            };
            let data = slice_to_vec(slice_subrange(frame.data.as_slice(), start, end));
            let header = FramePacketHeader {
                frame_number: frame.frame_number,
                packet_index: i,
                total_packets,
                is_keyframe: frame.is_keyframe,
                width: frame.width,
                height: frame.height,
                timestamp_us: frame.timestamp_us,
                original_size,
            };
            packets.push(FramePacket { header, data });
            i = i + 1;
        }
        packets
    }

    /// Joins the packets of one frame back into the frame. Packets are
    /// taken in the order in which they stand; `packets` is left unchanged.
    pub fn reassemble(packets: &mut Vec<Option<FramePacket>>) -> (r: Option<EncodedFrame>)
        ensures
            final(packets)@ == old(packets)@,
            match (r, reassembled(old(packets)@)) {
                (Some(f), Some(v)) => f@ == v,
                (None, None) => true,
                _ => false,
            },
    {
        let len = packets.len();
        if len == 0 {
            return None;
        }
        let first = match &packets[0] {
            Some(p) => p.header,
            None => {
                return None;
            },
        };
        let total = first.total_packets as usize;
        if len < total {
            return None;
        }
        let mut k: usize = 0;
        while k < total
            invariant
                packets@ == old(packets)@,
                len == packets@.len(),
                total == old(packets)@[0]->Some_0.header.total_packets,
                old(packets)@[0] is Some,
                total <= len,
                k <= total,
                forall|i: int| 0 <= i < k ==> (#[trigger] packets@[i]) is Some,
            decreases total - k,
        {
            if packets[k].is_none() {
                assert(old(packets)@[k as int] is None);
                return None;
            }
            k = k + 1;
        }
        let mut data: Vec<u8> = Vec::with_capacity(first.original_size as usize);
        let mut j: usize = 0;
        while j < total
            invariant
                packets@ == old(packets)@,
                len == packets@.len(),
                total <= len,
                j <= total,
                forall|i: int| 0 <= i < total ==> (#[trigger] packets@[i]) is Some,
                data@ == joined_data(packets@, j as nat),
            decreases total - j,
        {
            match &packets[j] {
                Some(packet) => {
                    append_bytes(&mut data, packet.data.as_slice());
                },
                None => {},
            }
            j = j + 1;
        }
        Some(
            EncodedFrame {
                data,
                width: first.width,
                height: first.height,
                frame_number: first.frame_number,
                is_keyframe: first.is_keyframe,
                timestamp_us: first.timestamp_us,
                encode_time_us: 0,
                format: EncodedFormat::H264,
            },
        )
    }
}

/// Every packet of a fragmentation, each wrapped as received.
pub open spec fn as_received(packets: Seq<FramePacket>) -> Seq<Option<FramePacket>> {
    packets.map_values(|p: FramePacket| Some(p))
}

proof fn lemma_joined_chunks(frame: EncodedFrameView, packets: Seq<FramePacket>, k: nat)
    requires
        is_fragmentation(frame, packets),
        frame.data.len() <= 65535 * MAX_PACKET_DATA,
        k <= packets.len(),
    ensures
        joined_data(as_received(packets), k) == frame.data.subrange(
            0,
            if k * MAX_PACKET_DATA < frame.data.len() {
                k * MAX_PACKET_DATA
            } else {
                frame.data.len() as int
            },
        ),
    decreases k,
{
    let n = frame.data.len();
    let rec = as_received(packets);
    assert(packets.len() == chunk_count(n)) by {
        lemma_count_fits(n);
    }
    if k > 0 {
        lemma_joined_chunks(frame, packets, (k - 1) as nat);
        let i = k - 1;
        lemma_chunk_bounds(n, i);
        assert(rec[i] == Some(packets[i]));
        assert(packets[i].data@ == chunk(frame.data, i));
        assert((i + 1) * MAX_PACKET_DATA == i * MAX_PACKET_DATA + MAX_PACKET_DATA) by (nonlinear_arith);
        assert(k * MAX_PACKET_DATA == i * MAX_PACKET_DATA + MAX_PACKET_DATA);
        let lo = if i * MAX_PACKET_DATA < n { i * MAX_PACKET_DATA } else { n as int };
        assert(lo == i * MAX_PACKET_DATA);
        assert(frame.data.subrange(0, lo) + chunk(frame.data, i) =~= frame.data.subrange(
            0,
            if k * MAX_PACKET_DATA < n { k * MAX_PACKET_DATA } else { n as int },
        ));
    } else {
        assert(frame.data.subrange(0, 0) =~= Seq::<u8>::empty());
    }
}

proof fn lemma_count_fits(n: nat)
    requires
        n <= 65535 * MAX_PACKET_DATA,
    ensures
        chunk_count(n) <= 65535,
        packet_total(n) == chunk_count(n),
{
    if n > 0 {
        let d = MAX_PACKET_DATA as int;
        assert((n + d - 1) / d <= 65535) by (nonlinear_arith)
            requires
                n <= 65535 * d,
                d == 64936,
        ;
    }
}

/// Reassembling all the packets of a frame, received in order, gives the
/// frame back: the same data and metadata, with the encoding time cleared
/// and the format H.264. It holds of every frame whose packet count fits
/// the 16-bit field.
pub proof fn lemma_fragment_reassemble(frame: EncodedFrameView, packets: Seq<FramePacket>)
    requires
        is_fragmentation(frame, packets),
        frame.data.len() <= 65535 * MAX_PACKET_DATA,
    ensures
        reassembled(as_received(packets)) == Some(
            EncodedFrameView { encode_time_us: 0, format: EncodedFormat::H264, ..frame },
        ),
{
    let n = frame.data.len();
    let rec = as_received(packets);
    lemma_count_fits(n);
    let total = packets.len();
    assert(total >= 1);
    assert(rec[0] == Some(packets[0]));
    assert(packets[0].header == packet_header(frame, 0));
    assert(!(exists|i: int| 0 <= i < total && (#[trigger] rec[i]) is None)) by {
        assert forall|i: int| 0 <= i < total implies !(#[trigger] rec[i] is None) by {
            assert(rec[i] == Some(packets[i]));
        }
    }
    lemma_joined_chunks(frame, packets, total);
    assert(total * MAX_PACKET_DATA >= n) by {
        if n > 0 {
            let d = MAX_PACKET_DATA as int;
            assert(((n + d - 1) / d) * d >= n) by (nonlinear_arith)
                requires
                    d == 64936,
                    n > 0,
            ;
        }
    }
    assert(frame.data.subrange(0, n as int) =~= frame.data);
}

/// Every packet cut from a frame, not only the first, carries that frame's
/// number, keyframe flag, size, timestamp and byte count, its own index,
/// and the number of packets.
pub proof fn lemma_fragments_carry_frame(frame: EncodedFrameView, packets: Seq<FramePacket>, i: int)
    requires
        is_fragmentation(frame, packets),
        0 <= i < packets.len(),
    ensures
        packets[i].header.frame_number == frame.frame_number,
        packets[i].header.is_keyframe == frame.is_keyframe,
        packets[i].header.width == frame.width,
        packets[i].header.height == frame.height,
        packets[i].header.timestamp_us == frame.timestamp_us,
        packets[i].header.original_size == frame.data.len() as u32,
        packets[i].header.packet_index == i as u16,
        packets[i].header.total_packets == packets.len() as u16,
{
    assert(packets[i].header == packet_header(frame, i));
}

/// Every packet but the last carries a full 64936 bytes of the frame, and
/// the packets' data, taken in order, start where the previous one ended.
pub proof fn lemma_fragment_sizes(frame: EncodedFrameView, packets: Seq<FramePacket>, i: int)
    requires
        is_fragmentation(frame, packets),
        frame.data.len() <= 65535 * MAX_PACKET_DATA,
        0 <= i < packets.len(),
    ensures
        i + 1 < packets.len() ==> packets[i].data@ == frame.data.subrange(
            i * MAX_PACKET_DATA,
            (i + 1) * MAX_PACKET_DATA,
        ),
        i + 1 == packets.len() ==> packets[i].data@ == frame.data.subrange(
            i * MAX_PACKET_DATA,
            frame.data.len() as int,
        ),
{
    let n = frame.data.len();
    lemma_count_fits(n);
    lemma_chunk_bounds(n, i);
    assert(packets[i].data@ == chunk(frame.data, i));
    let d = MAX_PACKET_DATA as int;
    if i + 1 < packets.len() {
        lemma_chunk_bounds(n, i + 1);
        assert((i + 1) * d <= n);
    } else {
        if n > 0 {
            assert((i + 1) * d >= n) by (nonlinear_arith)
                requires
                    i + 1 == (n + d - 1) / d,
                    d == 64936,
                    n > 0,
            ;
        }
    }
}

} // verus!
