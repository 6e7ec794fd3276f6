//! The announcement a device broadcasts so that peers on the LAN find it:
//! the bytes of `OMNIBRIDGE_DISCOVER|` followed by the device's JSON.

use vstd::prelude::*;
use vstd::slice::slice_subrange;
use crate::device::DeviceId;
use crate::wire::append_bytes;

verus! {

/// The bytes of `OMNIBRIDGE_DISCOVER|`.
pub open spec fn discovery_prefix() -> Seq<u8> {
    seq![79u8, 77, 78, 73, 66, 82, 73, 68, 71, 69, 95, 68, 73, 83, 67, 79, 86, 69, 82, 124]
}

fn prefix_bytes() -> (v: Vec<u8>)
    ensures
        v@ == discovery_prefix(),
{
    let v: Vec<u8> = vec![79u8, 77, 78, 73, 66, 82, 73, 68, 71, 69, 95, 68, 73, 83, 67, 79, 86, 69, 82, 124];
    assert(v@ =~= discovery_prefix());
    v
}

/// The announcement that carries `payload`.
pub fn discovery_packet(payload: &[u8]) -> (p: Vec<u8>)
    ensures
        p@ == discovery_prefix() + payload@,
{
    let mut p = prefix_bytes();
    append_bytes(&mut p, payload);
    p
}

/// The payload of a received announcement, or nothing when the bytes do
/// not start with the announcement prefix.
pub fn discovery_payload(packet: &[u8]) -> (r: Option<&[u8]>)
    ensures
        match r {
            Some(p) => packet@.len() >= 20 && packet@.subrange(0, 20) == discovery_prefix() && p@
                == packet@.subrange(20, packet@.len() as int),
            None => !(packet@.len() >= 20 && packet@.subrange(0, 20) == discovery_prefix()),
        },
{
    let prefix = prefix_bytes();
    let n = packet.len();
    if n < 20 {
        return None;
    }
    let mut i: usize = 0;
    while i < 20
        invariant
            n == packet@.len(),
            n >= 20,
            prefix@ == discovery_prefix(),
            i <= 20,
            forall|j: int| 0 <= j < i ==> packet@[j] == prefix@[j],
        decreases 20 - i,
    {
        if packet[i] != prefix[i] {
            assert(packet@.subrange(0, 20)[i as int] != discovery_prefix()[i as int]);
            return None;
        }
        i = i + 1;
    }
    assert(packet@.subrange(0, 20) =~= discovery_prefix());
    Some(slice_subrange(packet, 20, n))
}

/// Whether a discovered device is a peer rather than the device itself.
pub fn is_peer(local: DeviceId, found: DeviceId) -> (b: bool)
    ensures
        b == (found != local),
{
    found != local
}

/// An announcement gives back the payload it was made from.
pub proof fn lemma_discovery_roundtrip(payload: Seq<u8>)
    ensures
        (discovery_prefix() + payload).subrange(0, 20) == discovery_prefix(),
        (discovery_prefix() + payload).subrange(20, (discovery_prefix() + payload).len() as int)
            == payload,
{
    assert((discovery_prefix() + payload).subrange(0, 20) =~= discovery_prefix());
    assert((discovery_prefix() + payload).subrange(20, (discovery_prefix() + payload).len() as int)
        =~= payload);
}

} // verus!
