//! The binary message envelope exchanged between devices, and the header
//! that prefixes every streamed window frame.
//!
//! Message layout (little endian):
//! `[type: u32][timestamp: u64][sequence: u64][payload length: u32][payload]`.
//!
//! Window frame header layout (37 bytes):
//! `[source device: 16 bytes][width: u32][height: u32][timestamp_us: u64]
//!  [keyframe: u8][format: u32]`.

use vstd::prelude::*;
use vstd::bytes::*;
use vstd::slice::{slice_subrange, slice_to_vec};
use crate::wire::{
    append_bytes, append_u32_le, append_u64_le, get_u32_le, get_u64_le, le32, le64, read_le32,
    read_le64, lemma_le32_bytes_roundtrip, lemma_le32_roundtrip, lemma_le64_bytes_roundtrip,
    lemma_le64_roundtrip,
};

verus! {

/// Why a message or a frame header could not be decoded.
#[derive(Clone, Copy, Debug, PartialEq, Eq, Structural)]
pub enum ProtocolError {
    /// Fewer than the 24 bytes of the envelope that precedes the payload.
    MessageTooShort,
    /// The type field names no known message type.
    UnknownMessageType,
    /// The payload length field runs past the end of the data.
    PayloadTruncated,
    /// Fewer than 37 bytes were given for a frame header.
    HeaderTooShort { len: usize },
    /// The format field names no known frame format.
    UnknownFrameFormat,
}

#[derive(Clone, Copy, Debug, PartialEq, Eq, Structural, Hash)]
pub enum MessageType {
    Handshake,
    HandshakeAck,
    InputEvent,
    ClipboardSync,
    WindowGrab,
    WindowDrop,
    WindowFrame,
    LayoutSync,
    Heartbeat,
    Disconnect,
}

impl MessageType {
    /// The number that stands for the type on the wire.
    pub open spec fn code(self) -> u32 {
        match self {
            MessageType::Handshake => 0,
            MessageType::HandshakeAck => 1,
            MessageType::InputEvent => 2,
            MessageType::ClipboardSync => 3,
            MessageType::WindowGrab => 4,
            MessageType::WindowDrop => 5,
            MessageType::WindowFrame => 6,
            MessageType::LayoutSync => 7,
            MessageType::Heartbeat => 8,
            MessageType::Disconnect => 9,
        }
    }

    /// The type that a wire number stands for, if any.
    pub open spec fn from_code(c: u32) -> Option<MessageType> {
        if c == 0 {
            Some(MessageType::Handshake)
        } else if c == 1 {
            Some(MessageType::HandshakeAck)
        } else if c == 2 {
            Some(MessageType::InputEvent)
        } else if c == 3 {
            Some(MessageType::ClipboardSync)
        } else if c == 4 {
            Some(MessageType::WindowGrab)
        } else if c == 5 {
            Some(MessageType::WindowDrop)
        } else if c == 6 {
            Some(MessageType::WindowFrame)
        } else if c == 7 {
            Some(MessageType::LayoutSync)
        } else if c == 8 {
            Some(MessageType::Heartbeat)
        } else if c == 9 {
            Some(MessageType::Disconnect)
        } else {
            None
        }
    }

    fn to_code(self) -> (c: u32)
        ensures
            c == self.code(),
    {
        match self {
            MessageType::Handshake => 0,
            MessageType::HandshakeAck => 1,
            MessageType::InputEvent => 2,
            MessageType::ClipboardSync => 3,
            MessageType::WindowGrab => 4,
            MessageType::WindowDrop => 5,
            MessageType::WindowFrame => 6,
            MessageType::LayoutSync => 7,
            MessageType::Heartbeat => 8,
            MessageType::Disconnect => 9,
        }
    }

    fn decode_code(c: u32) -> (r: Option<MessageType>)
        ensures
            r == MessageType::from_code(c),
    {
        match c {
            0 => Some(MessageType::Handshake),
            1 => Some(MessageType::HandshakeAck),
            2 => Some(MessageType::InputEvent),
            3 => Some(MessageType::ClipboardSync),
            4 => Some(MessageType::WindowGrab),
            5 => Some(MessageType::WindowDrop),
            6 => Some(MessageType::WindowFrame),
            7 => Some(MessageType::LayoutSync),
            8 => Some(MessageType::Heartbeat),
            9 => Some(MessageType::Disconnect),
            _ => None,
        }
    }
}

/// Every message type maps to its wire number and back.
pub proof fn lemma_message_type_code_roundtrip(t: MessageType)
    ensures
        MessageType::from_code(t.code()) == Some(t),
        t.code() <= 9,
{
}

/// A message as the contracts see it: the payload as a sequence.
pub struct MessageView {
    pub msg_type: MessageType,
    pub payload: Seq<u8>,
    pub timestamp: u64,
    pub sequence: u64,
}

#[derive(Clone, Debug)]
pub struct Message {
    pub msg_type: MessageType,
    pub payload: Vec<u8>,
    pub timestamp: u64,
    pub sequence: u64,
}

impl View for Message {
    type V = MessageView;

    open spec fn view(&self) -> MessageView {
        MessageView {
            msg_type: self.msg_type,
            payload: self.payload@,
            timestamp: self.timestamp,
            sequence: self.sequence,
        }
    }
}

/// The bytes of a message on the wire. The length field holds the payload
/// length reduced to 32 bits.
pub open spec fn message_bytes(m: MessageView) -> Seq<u8> {
    le32(m.msg_type.code()) + le64(m.timestamp) + le64(m.sequence) + le32(
        m.payload.len() as u32,
    ) + m.payload
}

/// The payload length field of an encoded message.
pub open spec fn message_payload_len(s: Seq<u8>) -> int {
    read_le32(s.subrange(20, 24)) as int
}

/// What decoding the bytes `s` gives.
pub open spec fn parse_message(s: Seq<u8>) -> Result<MessageView, ProtocolError> {
    if s.len() < 24 {
        Err(ProtocolError::MessageTooShort)
    } else {
        match MessageType::from_code(read_le32(s.subrange(0, 4))) {
            None => Err(ProtocolError::UnknownMessageType),
            Some(t) => {
                let plen = message_payload_len(s);
                if s.len() < 24 + plen {
                    Err(ProtocolError::PayloadTruncated)
                } else {
                    Ok(
                        MessageView {
                            msg_type: t,
                            payload: s.subrange(24, 24 + plen),
                            timestamp: read_le64(s.subrange(4, 12)),
                            sequence: read_le64(s.subrange(12, 20)),
                        },
                    )
                }
            },
        }
    }
}

/// A decoding result as the contracts see it.
pub open spec fn message_result_view(r: Result<Message, ProtocolError>) -> Result<
    MessageView,
    ProtocolError,
> {
    match r {
        Ok(m) => Ok(m@),
        Err(e) => Err(e),
    }
}

#[verifier::external_type_specification]
#[verifier::external_body]
pub struct ExSystemTime(std::time::SystemTime);

/// The current time of the system clock.
///
/// Calls `std::time::SystemTime::now`; the reading depends on the clock, so
/// nothing is stated of it.
#[verifier::external_body]
fn system_now() -> std::time::SystemTime {
    std::time::SystemTime::now()
}

/// The time elapsed from the Unix epoch to `t`, or nothing when `t` is
/// earlier.
///
/// Calls `std::time::SystemTime::duration_since` with `UNIX_EPOCH`; the
/// time is opaque here, so nothing is stated of the result.
#[verifier::external_body]
fn since_unix_epoch(t: &std::time::SystemTime) -> Option<std::time::Duration> {
    t.duration_since(std::time::UNIX_EPOCH).ok()
}

/// The whole milliseconds of a duration.
///
/// Calls `std::time::Duration::as_millis`; the duration is opaque here, so
/// nothing is stated of the result.
#[verifier::external_body]
fn whole_millis(d: &std::time::Duration) -> u128 {
    d.as_millis()
}

/// The timestamp of a message from a clock reading in whole milliseconds
/// since the Unix epoch: the reading reduced to its low 64 bits, or 0 when
/// the clock read earlier than the epoch.
pub open spec fn timestamp_from(reading: Option<u128>) -> u64 {
    match reading {
        Some(ms) => ms as u64,
        None => 0,
    }
}

/// The timestamp of a message from a clock reading in whole milliseconds
/// since the Unix epoch (`None` when the clock read earlier than the epoch).
pub fn millis_timestamp(reading: Option<u128>) -> (t: u64)
    ensures
        t == timestamp_from(reading),
{
    match reading {
        Some(ms) => {
            #[verifier::truncate]
            let ms64 = ms as u64;
            ms64
        },
        None => 0,
    }
}

/// Milliseconds since the Unix epoch, reduced to 64 bits; 0 when the clock
/// reads earlier than the epoch.
fn unix_time_millis() -> u64 {
    let reading = match since_unix_epoch(&system_now()) {
        Some(d) => Some(whole_millis(&d)),
        None => None,
    };
    millis_timestamp(reading)
}

impl Message {
    /// A message stamped with the current time and sequence number 0.
    pub fn new(msg_type: MessageType, payload: Vec<u8>) -> (m: Message)
        ensures
            m.msg_type == msg_type,
            m.payload@ == payload@,
            m.sequence == 0,
    {
        let timestamp = unix_time_millis();
        Message { msg_type, payload, timestamp, sequence: 0 }
    }

    /// The same message with its sequence number replaced.
    pub fn with_sequence(self, seq: u64) -> (m: Message)
        ensures
            m@ == (MessageView { sequence: seq, ..self@ }),
    {
        let mut s = self;
        s.sequence = seq;
        s
    }

    /// The wire bytes of the message; this never fails.
    pub fn serialize(&self) -> (r: Result<Vec<u8>, ProtocolError>)
        ensures
            r matches Ok(b) && b@ == message_bytes(self@),
    {
        let mut buf: Vec<u8> = Vec::new();
        append_u32_le(&mut buf, self.msg_type.to_code());
        append_u64_le(&mut buf, self.timestamp);
        append_u64_le(&mut buf, self.sequence);
        let len = self.payload.len();
        proof {
            assert(len as u32 == self.payload@.len() as u32);
        }
        #[verifier::truncate]
        let len32 = len as u32;
        append_u32_le(&mut buf, len32);
        append_bytes(&mut buf, self.payload.as_slice());
        Ok(buf)
    }

    /// Decodes a message from the front of `data`; bytes after the payload
    /// are ignored. Data shorter than the 24-byte envelope is refused.
    pub fn deserialize(data: &[u8]) -> (r: Result<Message, ProtocolError>)
        ensures
            message_result_view(r) == parse_message(data@),
    {
        let n = data.len();
        if n < 24 {
            return Err(ProtocolError::MessageTooShort);
        }
        let code = get_u32_le(data, 0);
        let msg_type = match MessageType::decode_code(code) {
            Some(t) => t,
            None => {
                return Err(ProtocolError::UnknownMessageType);
            },
        };
        let timestamp = get_u64_le(data, 4);
        let sequence = get_u64_le(data, 12);
        let payload_len = get_u32_le(data, 20) as usize;
        if n - 24 < payload_len {
            return Err(ProtocolError::PayloadTruncated);
        }
        let payload = slice_to_vec(slice_subrange(data, 24, 24 + payload_len));
        Ok(Message { msg_type, payload, timestamp, sequence })
    }
}

/// Decoding the bytes of a message whose payload fits the 32-bit length
/// field gives the message back, whatever bytes follow it.
pub proof fn lemma_message_roundtrip(m: MessageView, rest: Seq<u8>)
    requires
        m.payload.len() <= u32::MAX,
    ensures
        parse_message(message_bytes(m) + rest) == Ok::<MessageView, ProtocolError>(m),
{
    let s = message_bytes(m) + rest;
    let plen = m.payload.len() as u32;
    lemma_le32_roundtrip(m.msg_type.code());
    lemma_le64_roundtrip(m.timestamp);
    lemma_le64_roundtrip(m.sequence);
    lemma_le32_roundtrip(plen);
    assert(s.subrange(0, 4) == le32(m.msg_type.code()));
    assert(s.subrange(4, 12) == le64(m.timestamp));
    assert(s.subrange(12, 20) == le64(m.sequence));
    assert(s.subrange(20, 24) == le32(plen));
    assert(s.subrange(24, 24 + m.payload.len() as int) == m.payload);
}

/// Encoding a decoded message gives back the bytes that were read.
pub proof fn lemma_message_reencode(s: Seq<u8>)
    requires
        parse_message(s) is Ok,
    ensures
        message_bytes(parse_message(s)->Ok_0) == s.subrange(0, 24 + message_payload_len(s)),
{
    let m = parse_message(s)->Ok_0;
    let plen = message_payload_len(s);
    lemma_message_type_code_roundtrip(m.msg_type);
    lemma_le32_bytes_roundtrip(s.subrange(0, 4));
    lemma_le64_bytes_roundtrip(s.subrange(4, 12));
    lemma_le64_bytes_roundtrip(s.subrange(12, 20));
    lemma_le32_bytes_roundtrip(s.subrange(20, 24));
    assert(m.msg_type.code() == read_le32(s.subrange(0, 4)));
    assert(m.payload.len() as u32 == read_le32(s.subrange(20, 24)));
    assert(message_bytes(m) =~= s.subrange(0, 24 + plen));
}

#[derive(Clone, Copy, Debug, PartialEq, Eq, Structural)]
pub enum FrameFormat {
    H264,
    Raw,
}

impl FrameFormat {
    /// The number that stands for the format on the wire.
    pub open spec fn code(self) -> u32 {
        match self {
            FrameFormat::H264 => 0,
            FrameFormat::Raw => 1,
        }
    }

    fn to_code(self) -> (c: u32)
        ensures
            c == self.code(),
    {
        match self {
            FrameFormat::H264 => 0,
            FrameFormat::Raw => 1,
        }
    }
}

/// The header that precedes the encoded data of a streamed window frame.
#[derive(Clone, Copy, Debug)]
pub struct WindowFrameHeader {
    pub source_device: [u8; 16],
    pub width: u32,
    pub height: u32,
    pub timestamp_us: u64,
    pub is_keyframe: bool,
    pub format: FrameFormat,
}

/// A frame header as the contracts see it.
pub struct FrameHeaderView {
    pub source_device: Seq<u8>,
    pub width: u32,
    pub height: u32,
    pub timestamp_us: u64,
    pub is_keyframe: bool,
    pub format: FrameFormat,
}

impl View for WindowFrameHeader {
    type V = FrameHeaderView;

    open spec fn view(&self) -> FrameHeaderView {
        FrameHeaderView {
            source_device: self.source_device@,
            width: self.width,
            height: self.height,
            timestamp_us: self.timestamp_us,
            is_keyframe: self.is_keyframe,
            format: self.format,
        }
    }
}

/// The 37 bytes of a frame header.
pub open spec fn header_bytes(h: FrameHeaderView) -> Seq<u8> {
    h.source_device + le32(h.width) + le32(h.height) + le64(h.timestamp_us) + seq![
        if h.is_keyframe {
            1u8
        } else {
            0u8
        },
    ] + le32(h.format.code())
}

/// What decoding a frame header from the front of `s` gives.
pub open spec fn parse_header(s: Seq<u8>) -> Result<FrameHeaderView, ProtocolError> {
    if s.len() < 37 {
        Err(ProtocolError::HeaderTooShort { len: s.len() as usize })
    } else {
        let code = read_le32(s.subrange(33, 37));
        if code > 1 {
            Err(ProtocolError::UnknownFrameFormat)
        } else {
            Ok(
                FrameHeaderView {
                    source_device: s.subrange(0, 16),
                    width: read_le32(s.subrange(16, 20)),
                    height: read_le32(s.subrange(20, 24)),
                    timestamp_us: read_le64(s.subrange(24, 32)),
                    is_keyframe: s[32] != 0,
                    format: if code == 0 {
                        FrameFormat::H264
                    } else {
                        FrameFormat::Raw
                    },
                },
            )
        }
    }
}

/// A header decoding result as the contracts see it.
pub open spec fn header_result_view(r: Result<WindowFrameHeader, ProtocolError>) -> Result<
    FrameHeaderView,
    ProtocolError,
> {
    match r {
        Ok(h) => Ok(h@),
        Err(e) => Err(e),
    }
}

impl WindowFrameHeader {
    /// Size in bytes of an encoded header.
    pub const HEADER_SIZE: usize = 37;

    /// The 37 bytes of the header.
    pub fn encode(&self) -> (b: Vec<u8>)
        ensures
            b@ == header_bytes(self@),
            b@.len() == 37,
    {
        let mut buf: Vec<u8> = Vec::with_capacity(37);
        append_bytes(&mut buf, self.source_device.as_slice());
        append_u32_le(&mut buf, self.width);
        append_u32_le(&mut buf, self.height);
        append_u64_le(&mut buf, self.timestamp_us);
        buf.push(if self.is_keyframe { 1u8 } else { 0u8 });
        append_u32_le(&mut buf, self.format.to_code());
        proof {
            lemma_le32_roundtrip(self.width);
            lemma_le32_roundtrip(self.height);
            lemma_le64_roundtrip(self.timestamp_us);
            lemma_le32_roundtrip(self.format.code());
        }
        buf
    }

    /// Decodes a header from the front of `data`.
    pub fn decode(data: &[u8]) -> (r: Result<WindowFrameHeader, ProtocolError>)
        ensures
            header_result_view(r) == parse_header(data@),
    {
        let n = data.len();
        if n < 37 {
            return Err(ProtocolError::HeaderTooShort { len: n });
        }
        let mut source_device = [0u8; 16];
        let mut i: usize = 0;
        while i < 16
            invariant
                i <= 16,
                16 <= data@.len(),
                forall|j: int| 0 <= j < i ==> source_device@[j] == data@[j],
            decreases 16 - i,
        {
            source_device[i] = data[i];
            i = i + 1;
        }
        assert(source_device@ =~= data@.subrange(0, 16));
        let width = get_u32_le(data, 16);
        let height = get_u32_le(data, 20);
        let timestamp_us = get_u64_le(data, 24);
        let is_keyframe = data[32] != 0;
        let code = get_u32_le(data, 33);
        let format = if code == 0 {
            FrameFormat::H264
        } else if code == 1 {
            FrameFormat::Raw
        } else {
            return Err(ProtocolError::UnknownFrameFormat);
        };
        Ok(WindowFrameHeader { source_device, width, height, timestamp_us, is_keyframe, format })
    }

    /// The encoded frame data that follows the header in `payload`.
    pub fn frame_data<'a>(&self, payload: &'a [u8]) -> (d: &'a [u8])
        requires
            payload@.len() >= 37,
        ensures
            d@ == payload@.subrange(37, payload@.len() as int),
    {
        let n = payload.len();
        slice_subrange(payload, 37, n)
    }

    /// Decodes the header at the front of a message's payload.
    pub fn from_message(msg: &Message) -> (r: Result<WindowFrameHeader, ProtocolError>)
        ensures
            header_result_view(r) == parse_header(msg.payload@),
    {
        WindowFrameHeader::decode(msg.payload.as_slice())
    }

    /// The header's bytes followed by `frame_data`.
    pub fn to_payload(&self, frame_data: &[u8]) -> (p: Vec<u8>)
        ensures
            p@ == header_bytes(self@) + frame_data@,
    {
        let mut payload = self.encode();
        append_bytes(&mut payload, frame_data);
        payload
    }
}

/// Decoding the bytes of a header gives the header back, whatever follows.
pub proof fn lemma_header_roundtrip(h: FrameHeaderView, rest: Seq<u8>)
    requires
        h.source_device.len() == 16,
    ensures
        parse_header(header_bytes(h) + rest) == Ok::<FrameHeaderView, ProtocolError>(h),
{
    let s = header_bytes(h) + rest;
    lemma_le32_roundtrip(h.width);
    lemma_le32_roundtrip(h.height);
    lemma_le64_roundtrip(h.timestamp_us);
    lemma_le32_roundtrip(h.format.code());
    assert(s.subrange(0, 16) == h.source_device);
    assert(s.subrange(16, 20) == le32(h.width));
    assert(s.subrange(20, 24) == le32(h.height));
    assert(s.subrange(24, 32) == le64(h.timestamp_us));
    assert(s.subrange(33, 37) == le32(h.format.code()));
    assert(s[32] == (if h.is_keyframe { 1u8 } else { 0u8 }));
}

/// A frame payload built from a header and frame data gives back both.
pub proof fn lemma_payload_roundtrip(h: FrameHeaderView, data: Seq<u8>)
    requires
        h.source_device.len() == 16,
    ensures
        parse_header(header_bytes(h) + data) == Ok::<FrameHeaderView, ProtocolError>(h),
        (header_bytes(h) + data).subrange(37, (header_bytes(h) + data).len() as int) == data,
{
    lemma_header_roundtrip(h, data);
    lemma_le32_roundtrip(h.width);
    lemma_le32_roundtrip(h.height);
    lemma_le64_roundtrip(h.timestamp_us);
    lemma_le32_roundtrip(h.format.code());
    assert((header_bytes(h) + data).subrange(37, (header_bytes(h) + data).len() as int) =~= data);
}

} // verus!
