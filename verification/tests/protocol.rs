use omnibridge::protocol::{millis_timestamp, FrameFormat, Message, MessageType, ProtocolError, WindowFrameHeader};
use omnibridge::transport::{decode_datagram, encode_datagram, DatagramError};

fn sample_message() -> Message {
    Message {
        msg_type: MessageType::Heartbeat,
        payload: vec![1, 2, 3],
        timestamp: 0x0102030405060708,
        sequence: 42,
    }
}

#[test]
fn message_serialize_layout() {
    let bytes = sample_message().serialize().unwrap();
    let mut expected = vec![8u8, 0, 0, 0];
    expected.extend_from_slice(&[8, 7, 6, 5, 4, 3, 2, 1]);
    expected.extend_from_slice(&[42, 0, 0, 0, 0, 0, 0, 0]);
    expected.extend_from_slice(&[3, 0, 0, 0]);
    expected.extend_from_slice(&[1, 2, 3]);
    assert_eq!(bytes, expected);
}

#[test]
fn message_roundtrip_with_trailing_bytes() {
    let m = sample_message();
    let mut bytes = m.serialize().unwrap();
    bytes.extend_from_slice(&[9, 9, 9]);
    let back = Message::deserialize(&bytes).unwrap();
    assert_eq!(back.msg_type, MessageType::Heartbeat);
    assert_eq!(back.payload, vec![1, 2, 3]);
    assert_eq!(back.timestamp, 0x0102030405060708);
    assert_eq!(back.sequence, 42);
}

#[test]
fn message_every_type_roundtrips() {
    let types = [
        MessageType::Handshake,
        MessageType::HandshakeAck,
        MessageType::InputEvent,
        MessageType::ClipboardSync,
        MessageType::WindowGrab,
        MessageType::WindowDrop,
        MessageType::WindowFrame,
        MessageType::LayoutSync,
        MessageType::Heartbeat,
        MessageType::Disconnect,
    ];
    for (i, t) in types.iter().enumerate() {
        let m = Message { msg_type: *t, payload: Vec::new(), timestamp: 1, sequence: 2 };
        let bytes = m.serialize().unwrap();
        assert_eq!(bytes[0] as usize, i);
        assert_eq!(Message::deserialize(&bytes).unwrap().msg_type, *t);
    }
}

#[test]
fn message_too_short() {
    assert_eq!(Message::deserialize(&[0u8; 19]).unwrap_err(), ProtocolError::MessageTooShort);
    assert_eq!(Message::deserialize(&[]).unwrap_err(), ProtocolError::MessageTooShort);
    // Anything shorter than the 24-byte envelope is refused, whatever its type.
    assert_eq!(Message::deserialize(&[0u8; 20]).unwrap_err(), ProtocolError::MessageTooShort);
    assert_eq!(Message::deserialize(&[0u8; 23]).unwrap_err(), ProtocolError::MessageTooShort);
    let mut header_only = vec![0u8; 24];
    header_only[0] = 8;
    let m = Message::deserialize(&header_only).unwrap();
    assert_eq!(m.msg_type, MessageType::Heartbeat);
    assert!(m.payload.is_empty());
}

#[test]
fn message_unknown_type() {
    let mut bytes = sample_message().serialize().unwrap();
    bytes[0] = 10;
    assert_eq!(Message::deserialize(&bytes).unwrap_err(), ProtocolError::UnknownMessageType);
    // A full envelope with an unknown type is refused for its type.
    let mut envelope = vec![0u8; 24];
    envelope[0] = 200;
    assert_eq!(Message::deserialize(&envelope).unwrap_err(), ProtocolError::UnknownMessageType);
}

#[test]
fn message_payload_truncated() {
    let bytes = sample_message().serialize().unwrap();
    assert_eq!(
        Message::deserialize(&bytes[..bytes.len() - 1]).unwrap_err(),
        ProtocolError::PayloadTruncated
    );
}

#[test]
fn message_new_and_with_sequence() {
    let m = Message::new(MessageType::Handshake, vec![5, 6]).with_sequence(7);
    assert_eq!(m.msg_type, MessageType::Handshake);
    assert_eq!(m.payload, vec![5, 6]);
    assert_eq!(m.sequence, 7);
    assert!(m.timestamp > 0);
}

fn sample_header() -> WindowFrameHeader {
    let mut source_device = [0u8; 16];
    for (i, b) in source_device.iter_mut().enumerate() {
        *b = i as u8 + 1;
    }
    WindowFrameHeader {
        source_device,
        width: 1920,
        height: 1080,
        timestamp_us: 123456789,
        is_keyframe: true,
        format: FrameFormat::Raw,
    }
}

#[test]
fn header_encode_layout() {
    let bytes = sample_header().encode();
    assert_eq!(bytes.len(), WindowFrameHeader::HEADER_SIZE);
    assert_eq!(bytes.len(), 37);
    assert_eq!(&bytes[0..16], &sample_header().source_device);
    assert_eq!(&bytes[16..20], &1920u32.to_le_bytes());
    assert_eq!(&bytes[20..24], &1080u32.to_le_bytes());
    assert_eq!(&bytes[24..32], &123456789u64.to_le_bytes());
    assert_eq!(bytes[32], 1);
    assert_eq!(&bytes[33..37], &[1, 0, 0, 0]);
}

#[test]
fn header_roundtrip() {
    let h = sample_header();
    let d = WindowFrameHeader::decode(&h.encode()).unwrap();
    assert_eq!(d.source_device, h.source_device);
    assert_eq!(d.width, 1920);
    assert_eq!(d.height, 1080);
    assert_eq!(d.timestamp_us, 123456789);
    assert!(d.is_keyframe);
    assert_eq!(d.format, FrameFormat::Raw);
}

#[test]
fn header_too_short() {
    let bytes = sample_header().encode();
    assert_eq!(
        WindowFrameHeader::decode(&bytes[..36]).unwrap_err(),
        ProtocolError::HeaderTooShort { len: 36 }
    );
}

#[test]
fn header_unknown_format() {
    let mut bytes = sample_header().encode();
    bytes[33] = 2;
    assert_eq!(WindowFrameHeader::decode(&bytes).unwrap_err(), ProtocolError::UnknownFrameFormat);
}

#[test]
fn header_keyframe_is_any_nonzero_byte() {
    let mut bytes = sample_header().encode();
    bytes[32] = 7;
    assert!(WindowFrameHeader::decode(&bytes).unwrap().is_keyframe);
    bytes[32] = 0;
    assert!(!WindowFrameHeader::decode(&bytes).unwrap().is_keyframe);
}

#[test]
fn payload_roundtrip_through_message() {
    let h = sample_header();
    let payload = h.to_payload(&[10, 20, 30]);
    assert_eq!(payload.len(), 40);
    let msg = Message { msg_type: MessageType::WindowFrame, payload, timestamp: 0, sequence: 0 };
    let back = WindowFrameHeader::from_message(&msg).unwrap();
    assert_eq!(back.width, 1920);
    assert_eq!(back.frame_data(&msg.payload), &[10, 20, 30]);
}

#[test]
fn datagram_roundtrip() {
    let m = sample_message();
    let mut d = encode_datagram(&m);
    assert_eq!(&d[0..4], &27u32.to_le_bytes());
    d.extend_from_slice(&[0, 0]);
    let back = decode_datagram(&d).unwrap();
    assert_eq!(back.sequence, 42);
    assert_eq!(back.payload, vec![1, 2, 3]);
}

#[test]
fn datagram_errors() {
    assert_eq!(decode_datagram(&[1, 0, 0]).unwrap_err(), DatagramError::Undersized);
    assert_eq!(decode_datagram(&[5, 0, 0, 0, 1]).unwrap_err(), DatagramError::Truncated);
    assert_eq!(
        decode_datagram(&[3, 0, 0, 0, 1, 2, 3]).unwrap_err(),
        DatagramError::Malformed(ProtocolError::MessageTooShort)
    );
}

#[test]
fn datagram_short_body_is_malformed() {
    // A framed body of 22 bytes with a known type is shorter than the envelope.
    let mut d = vec![22u8, 0, 0, 0];
    d.extend_from_slice(&[0u8; 22]);
    assert_eq!(
        decode_datagram(&d).unwrap_err(),
        DatagramError::Malformed(ProtocolError::MessageTooShort)
    );
    let mut e = vec![24u8, 0, 0, 0];
    let mut body = vec![0u8; 24];
    body[0] = 99;
    e.extend_from_slice(&body);
    assert_eq!(
        decode_datagram(&e).unwrap_err(),
        DatagramError::Malformed(ProtocolError::UnknownMessageType)
    );
}

#[test]
fn message_timestamp_from_clock_reading() {
    assert_eq!(millis_timestamp(None), 0);
    assert_eq!(millis_timestamp(Some(1_700_000_000_123)), 1_700_000_000_123);
    assert_eq!(millis_timestamp(Some((1u128 << 64) + 5)), 5);
    let m = Message::new(MessageType::Heartbeat, vec![1]);
    assert!(m.timestamp > 0);
    assert_eq!(m.sequence, 0);
}
