//! Length-prefixed framing of messages for datagram and stream transports:
//! `[body length: u32 LE][encoded message]`.

use vstd::prelude::*;
use vstd::slice::slice_subrange;
use crate::wire::{append_bytes, append_u32_le, get_u32_le, le32, read_le32, lemma_le32_roundtrip,
    lemma_le64_roundtrip};
use crate::protocol::{
    Message, MessageView, ProtocolError, message_bytes, parse_message,
    lemma_message_roundtrip,
};

verus! {

/// Why a received datagram was dropped.
#[derive(Clone, Copy, Debug, PartialEq, Eq, Structural)]
pub enum DatagramError {
    /// Fewer than the 4 bytes of the length prefix.
    Undersized,
    /// The length prefix runs past the end of the datagram.
    Truncated,
    /// The framed body is not a well-formed message.
    Malformed(ProtocolError),
}

/// The framed bytes that carry `body`.
pub open spec fn frame_bytes(body: Seq<u8>) -> Seq<u8> {
    le32(body.len() as u32) + body
}

/// The length prefix of a framed datagram.
pub open spec fn framed_len(s: Seq<u8>) -> int {
    read_le32(s.subrange(0, 4)) as int
}

/// The body that the length prefix of `s` delimits.
pub open spec fn framed_body(s: Seq<u8>) -> Seq<u8> {
    s.subrange(4, 4 + framed_len(s))
}

/// What decoding the datagram `s` gives.
pub open spec fn parse_datagram(s: Seq<u8>) -> Result<MessageView, DatagramError> {
    if s.len() < 4 {
        Err(DatagramError::Undersized)
    } else if s.len() < 4 + framed_len(s) {
        Err(DatagramError::Truncated)
    } else {
        match parse_message(framed_body(s)) {
            Ok(m) => Ok(m),
            Err(e) => Err(DatagramError::Malformed(e)),
        }
    }
}

/// The framed bytes of a message, as sent over a socket.
pub fn encode_datagram(msg: &Message) -> (b: Vec<u8>)
    ensures
        b@ == frame_bytes(message_bytes(msg@)),
{
    let data = match msg.serialize() {
        Ok(d) => d,
        Err(_) => Vec::new(),
    };
    let mut buf: Vec<u8> = Vec::new();
    let n = data.len();
    #[verifier::truncate]
    let n32 = n as u32;
    append_u32_le(&mut buf, n32);
    append_bytes(&mut buf, data.as_slice());
    buf
}

/// Decodes the message framed in a received datagram.
pub fn decode_datagram(buf: &[u8]) -> (r: Result<Message, DatagramError>)
    ensures
        match (r, parse_datagram(buf@)) {
            (Ok(m), Ok(v)) => m@ == v,
            (Err(e), Err(f)) => e == f,
            _ => false,
        },
{
    let n = buf.len();
    if n < 4 {
        return Err(DatagramError::Undersized);
    }
    let plen = get_u32_le(buf, 0) as usize;
    if n - 4 < plen {
        return Err(DatagramError::Truncated);
    }
    let body = slice_subrange(buf, 4, 4 + plen);
    match Message::deserialize(body) {
        Ok(m) => Ok(m),
        Err(e) => Err(DatagramError::Malformed(e)),
    }
}

/// A framed message decodes to itself, whatever bytes follow the frame.
pub proof fn lemma_datagram_roundtrip(m: MessageView, rest: Seq<u8>)
    requires
        m.payload.len() + 24 <= u32::MAX,
    ensures
        parse_datagram(frame_bytes(message_bytes(m)) + rest) == Ok::<MessageView, DatagramError>(m),
{
    let body = message_bytes(m);
    let s = frame_bytes(body) + rest;
    lemma_message_roundtrip(m, Seq::empty());
    assert(body + Seq::<u8>::empty() == body);
    lemma_le32_roundtrip(m.msg_type.code());
    lemma_le64_roundtrip(m.timestamp);
    lemma_le64_roundtrip(m.sequence);
    lemma_le32_roundtrip(m.payload.len() as u32);
    assert(body.len() == 24 + m.payload.len());
    lemma_le32_roundtrip(body.len() as u32);
    assert(s.subrange(0, 4) == le32(body.len() as u32));
    assert(framed_body(s) == body);
}

} // verus!
