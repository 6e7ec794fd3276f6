//! The decisions that the server and client sessions make around their
//! network loops: registering clients, and packing an encoded frame into a
//! window-frame message and back.

use vstd::prelude::*;
use crate::codec::{EncodedFormat, EncodedFrame, EncodedFrameView};
use crate::device::{DeviceId, uuid_bytes};
use crate::protocol::{
    FrameFormat, FrameHeaderView, Message, MessageType, MessageView, WindowFrameHeader,
    header_bytes, message_bytes, parse_header, parse_message, lemma_payload_roundtrip,
    lemma_message_roundtrip,
};

verus! {

/// The clients connected to a server, each once, with the address it is
/// reached at.
pub struct ClientRegistry<A> {
    clients: Vec<(DeviceId, A)>,
}

/// Whether `id` is among the devices of `s`.
pub open spec fn lists<A>(s: Seq<(DeviceId, A)>, id: DeviceId) -> bool {
    exists|i: int| 0 <= i < s.len() && (#[trigger] s[i]).0 == id
}

impl<A> ClientRegistry<A> {
    /// The connected clients, in the order they connected.
    pub closed spec fn entries(&self) -> Seq<(DeviceId, A)> {
        self.clients@
    }

    /// No device is listed twice.
    pub open spec fn wf(&self) -> bool {
        forall|i: int, j: int|
            0 <= i < j < self.entries().len() ==> (#[trigger] self.entries()[i]).0 != (
            #[trigger] self.entries()[j]).0
    }

    pub fn new() -> (r: ClientRegistry<A>)
        ensures
            r.wf(),
            r.entries() == Seq::<(DeviceId, A)>::empty(),
    {
        ClientRegistry { clients: Vec::new() }
    }

    /// Whether `id` is already connected.
    pub fn is_connected(&self, id: DeviceId) -> (b: bool)
        ensures
            b == lists(self.entries(), id),
    {
        let mut i: usize = 0;
        while i < self.clients.len()
            invariant
                i <= self.clients@.len(),
                forall|j: int| 0 <= j < i ==> (#[trigger] self.clients@[j]).0 != id,
            decreases self.clients@.len() - i,
        {
            if self.clients[i].0 == id {
                assert(self.entries()[i as int].0 == id);
                return true;
            }
            i = i + 1;
        }
        false
    }

    /// Adds a newly discovered device, unless it is already connected; says
    /// whether it was added.
    pub fn register(&mut self, id: DeviceId, addr: A) -> (added: bool)
        requires
            old(self).wf(),
        ensures
            final(self).wf(),
            added == !lists(old(self).entries(), id),
            added ==> final(self).entries() == old(self).entries().push((id, addr)),
            !added ==> final(self).entries() == old(self).entries(),
    {
        let mut i: usize = 0;
        while i < self.clients.len()
            invariant
                old(self).wf(),
                self.clients@ == old(self).clients@,
                i <= self.clients@.len(),
                forall|j: int| 0 <= j < i ==> (#[trigger] self.clients@[j]).0 != id,
            decreases self.clients@.len() - i,
        {
            if self.clients[i].0 == id {
                assert(old(self).entries()[i as int].0 == id);
                return false;
            }
            i = i + 1;
        }
        assert(!lists(old(self).entries(), id));
        self.clients.push((id, addr));
        true
    }

    pub fn len(&self) -> (n: usize)
        ensures
            n == self.entries().len(),
    {
        self.clients.len()
    }

    pub fn clients(&self) -> (c: &Vec<(DeviceId, A)>)
        ensures
            c@ == self.entries(),
    {
        &self.clients
    }
}

/// A device that is already connected is not registered again.
pub proof fn lemma_register_once<A>(entries: Seq<(DeviceId, A)>, id: DeviceId, a: A)
    ensures
        lists(entries.push((id, a)), id),
{
    let s = entries.push((id, a));
    assert(s[entries.len() as int].0 == id);
}

/// The header that announces `encoded` as a frame of `device`.
pub open spec fn frame_header_of(device: DeviceId, encoded: EncodedFrameView) -> FrameHeaderView {
    FrameHeaderView {
        source_device: uuid_bytes(device.0),
        width: encoded.width,
        height: encoded.height,
        timestamp_us: encoded.timestamp_us,
        is_keyframe: encoded.is_keyframe,
        format: FrameFormat::H264,
    }
}

/// The frame that a window-frame message carries: the data after its
/// header, numbered by the message's sequence number.
pub open spec fn carried_frame(m: MessageView) -> Option<EncodedFrameView> {
    if m.msg_type != MessageType::WindowFrame {
        None
    } else {
        match parse_header(m.payload) {
            Ok(h) => Some(
                EncodedFrameView {
                    data: m.payload.subrange(37, m.payload.len() as int),
                    width: h.width,
                    height: h.height,
                    frame_number: m.sequence,
                    is_keyframe: h.is_keyframe,
                    timestamp_us: h.timestamp_us,
                    encode_time_us: 0,
                    format: EncodedFormat::H264,
                },
            ),
            Err(_) => None,
        }
    }
}

/// The header that announces `encoded` as a frame of `device`.
pub fn frame_header(device: DeviceId, encoded: &EncodedFrame) -> (h: WindowFrameHeader)
    ensures
        h@ == frame_header_of(device, encoded@),
{
    WindowFrameHeader {
        source_device: device.as_bytes(),
        width: encoded.width,
        height: encoded.height,
        timestamp_us: encoded.timestamp_us,
        is_keyframe: encoded.is_keyframe,
        format: FrameFormat::H264,
    }
}

/// The window-frame message that streams `encoded` from `device` as frame
/// number `seq`.
pub fn frame_message(device: DeviceId, encoded: &EncodedFrame, seq: u64) -> (m: Message)
    ensures
        m.msg_type == MessageType::WindowFrame,
        m.payload@ == header_bytes(frame_header_of(device, encoded@)) + encoded.data@,
        m.sequence == seq,
{
    let header = frame_header(device, encoded);
    let payload = header.to_payload(encoded.data.as_slice());
    Message::new(MessageType::WindowFrame, payload).with_sequence(seq)
}

/// The encoded frame that a received window-frame message carries.
pub fn frame_from_message(msg: &Message) -> (r: Option<EncodedFrame>)
    ensures
        match (r, carried_frame(msg@)) {
            (Some(f), Some(v)) => f@ == v,
            (None, None) => true,
            _ => false,
        },
{
    if msg.msg_type != MessageType::WindowFrame {
        return None;
    }
    match WindowFrameHeader::decode(msg.payload.as_slice()) {
        Ok(header) => {
            let data = header.frame_data(msg.payload.as_slice());
            Some(
                EncodedFrame {
                    data: vstd::slice::slice_to_vec(data),
                    width: header.width,
                    height: header.height,
                    frame_number: msg.sequence,
                    is_keyframe: header.is_keyframe,
                    timestamp_us: header.timestamp_us,
                    encode_time_us: 0,
                    format: EncodedFormat::H264,
                },
            )
        },
        Err(_) => None,
    }
}

/// A frame streamed by the server reaches the client intact: decoding the
/// bytes of the message that carries it, and then the frame inside, gives
/// back its data, size, timestamp and keyframe flag, numbered by the
/// message's sequence number.
pub proof fn lemma_frame_stream_roundtrip(
    device: DeviceId,
    encoded: EncodedFrameView,
    seq: u64,
    timestamp: u64,
)
    requires
        encoded.data.len() + 37 <= u32::MAX,
    ensures
        ({
            let m = MessageView {
                msg_type: MessageType::WindowFrame,
                payload: header_bytes(frame_header_of(device, encoded)) + encoded.data,
                timestamp,
                sequence: seq,
            };
            &&& parse_message(message_bytes(m)) == Ok::<MessageView, crate::protocol::ProtocolError>(m)
            &&& carried_frame(m) == Some(
                EncodedFrameView {
                    frame_number: seq,
                    encode_time_us: 0,
                    format: EncodedFormat::H264,
                    ..encoded
                },
            )
        }),
{
    let h = frame_header_of(device, encoded);
    let m = MessageView {
        msg_type: MessageType::WindowFrame,
        payload: header_bytes(h) + encoded.data,
        timestamp,
        sequence: seq,
    };
    assert(h.source_device.len() == 16);
    lemma_payload_roundtrip(h, encoded.data);
    crate::wire::lemma_le32_roundtrip(h.width);
    crate::wire::lemma_le32_roundtrip(h.height);
    crate::wire::lemma_le64_roundtrip(h.timestamp_us);
    crate::wire::lemma_le32_roundtrip(h.format.code());
    assert(header_bytes(h).len() == 37);
    lemma_message_roundtrip(m, Seq::empty());
    assert(message_bytes(m) + Seq::<u8>::empty() == message_bytes(m));
}

/// The header that announces a frame carries that frame's own size,
/// timestamp and keyframe flag, and the sending device's id.
pub proof fn lemma_header_announces_frame(device: DeviceId, encoded: EncodedFrameView)
    ensures
        frame_header_of(device, encoded).width == encoded.width,
        frame_header_of(device, encoded).height == encoded.height,
        frame_header_of(device, encoded).timestamp_us == encoded.timestamp_us,
        frame_header_of(device, encoded).is_keyframe == encoded.is_keyframe,
        frame_header_of(device, encoded).source_device == uuid_bytes(device.0),
{
}

/// The frame taken from a window-frame message has the size, timestamp and
/// keyframe flag that the message's header gives, and the bytes after the
/// header as its data, whatever the header says.
pub proof fn lemma_carried_frame_follows_header(
    h: FrameHeaderView,
    data: Seq<u8>,
    timestamp: u64,
    seq: u64,
)
    requires
        h.source_device.len() == 16,
    ensures
        ({
            let m = MessageView {
                msg_type: MessageType::WindowFrame,
                payload: header_bytes(h) + data,
                timestamp,
                sequence: seq,
            };
            &&& carried_frame(m) is Some
            &&& carried_frame(m)->Some_0.width == h.width
            &&& carried_frame(m)->Some_0.height == h.height
            &&& carried_frame(m)->Some_0.timestamp_us == h.timestamp_us
            &&& carried_frame(m)->Some_0.is_keyframe == h.is_keyframe
            &&& carried_frame(m)->Some_0.data == data
            &&& carried_frame(m)->Some_0.frame_number == seq
        }),
{
    lemma_payload_roundtrip(h, data);
}

} // verus!
