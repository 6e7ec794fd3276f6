//! Little-endian byte helpers shared by the wire formats.

use vstd::prelude::*;
use vstd::bytes::*;
use vstd::slice::slice_subrange;

verus! {

/// The four little-endian bytes of `x`.
pub open spec fn le32(x: u32) -> Seq<u8> {
    spec_u32_to_le_bytes(x)
}

/// The eight little-endian bytes of `x`.
pub open spec fn le64(x: u64) -> Seq<u8> {
    spec_u64_to_le_bytes(x)
}

/// The value of four little-endian bytes.
pub open spec fn read_le32(s: Seq<u8>) -> u32 {
    spec_u32_from_le_bytes(s)
}

/// The value of eight little-endian bytes.
pub open spec fn read_le64(s: Seq<u8>) -> u64 {
    spec_u64_from_le_bytes(s)
}

/// Encoding and decoding a `u32` are inverse.
pub proof fn lemma_le32_roundtrip(x: u32)
    ensures
        le32(x).len() == 4,
        read_le32(le32(x)) == x,
{
    lemma_auto_spec_u32_to_from_le_bytes();
    assert(spec_u32_to_le_bytes(x).len() == 4);
}

/// Encoding and decoding a `u64` are inverse.
pub proof fn lemma_le64_roundtrip(x: u64)
    ensures
        le64(x).len() == 8,
        read_le64(le64(x)) == x,
{
    lemma_auto_spec_u64_to_from_le_bytes();
}

/// Decoding then encoding four bytes gives them back.
pub proof fn lemma_le32_bytes_roundtrip(s: Seq<u8>)
    requires
        s.len() == 4,
    ensures
        le32(read_le32(s)) == s,
{
    lemma_auto_spec_u32_to_from_le_bytes();
}

/// Decoding then encoding eight bytes gives them back.
pub proof fn lemma_le64_bytes_roundtrip(s: Seq<u8>)
    requires
        s.len() == 8,
    ensures
        le64(read_le64(s)) == s,
{
    lemma_auto_spec_u64_to_from_le_bytes();
}

/// Appends every byte of `src` to `buf`.
pub fn append_bytes(buf: &mut Vec<u8>, src: &[u8])
    ensures
        final(buf)@ == old(buf)@ + src@,
{
    let mut i: usize = 0;
    while i < src.len()
        invariant
            i <= src@.len(),
            buf@ == old(buf)@ + src@.subrange(0, i as int),
        decreases src@.len() - i,
    {
        buf.push(src[i]);
        i = i + 1;
        assert(src@.subrange(0, i as int) == src@.subrange(0, (i - 1) as int).push(src@[i - 1]));
    }
    assert(src@.subrange(0, src@.len() as int) == src@);
}

/// Appends the little-endian bytes of `x` to `buf`.
pub fn append_u32_le(buf: &mut Vec<u8>, x: u32)
    ensures
        final(buf)@ == old(buf)@ + le32(x),
{
    let bytes = u32_to_le_bytes(x);
    append_bytes(buf, bytes.as_slice());
}

/// Appends the little-endian bytes of `x` to `buf`.
pub fn append_u64_le(buf: &mut Vec<u8>, x: u64)
    ensures
        final(buf)@ == old(buf)@ + le64(x),
{
    let bytes = u64_to_le_bytes(x);
    append_bytes(buf, bytes.as_slice());
}

/// Reads a little-endian `u32` at offset `at`.
pub fn get_u32_le(data: &[u8], at: usize) -> (x: u32)
    requires
        at + 4 <= data@.len(),
    ensures
        x == read_le32(data@.subrange(at as int, at + 4)),
{
    let n = data.len();
    u32_from_le_bytes(slice_subrange(data, at, at + 4))
}

/// Reads a little-endian `u64` at offset `at`.
pub fn get_u64_le(data: &[u8], at: usize) -> (x: u64)
    requires
        at + 8 <= data@.len(),
    ensures
        x == read_le64(data@.subrange(at as int, at + 8)),
{
    let n = data.len();
    u64_from_le_bytes(slice_subrange(data, at, at + 8))
}

} // verus!
