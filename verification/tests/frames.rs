use omnibridge::codec::{DecoderState, EncodedFormat, EncodedFrame, EncoderState};
use omnibridge::frame_packet::{FramePacket, MAX_PACKET_DATA, MAX_PACKET_SIZE};
use omnibridge::capture::{CapturedFrame, FrameFormat, FrameMetadata, WindowCapturer};
use omnibridge::window::{WindowId, WindowInfo};

fn frame_of(len: usize) -> EncodedFrame {
    EncodedFrame {
        data: (0..len).map(|i| (i % 251) as u8).collect(),
        width: 640,
        height: 480,
        frame_number: 9,
        is_keyframe: true,
        timestamp_us: 555,
        encode_time_us: 77,
        format: EncodedFormat::VP9,
    }
}

#[test]
fn packet_sizes() {
    assert_eq!(MAX_PACKET_SIZE, 65000);
    assert_eq!(MAX_PACKET_DATA, MAX_PACKET_SIZE - 64);
}

#[test]
fn fragment_small_frame_is_one_packet() {
    let f = frame_of(100);
    let packets = FramePacket::fragment_frame(&f);
    assert_eq!(packets.len(), 1);
    assert_eq!(packets[0].header.total_packets, 1);
    assert_eq!(packets[0].header.packet_index, 0);
    assert_eq!(packets[0].header.original_size, 100);
    assert_eq!(packets[0].header.frame_number, 9);
    assert_eq!(packets[0].data, f.data);
}

#[test]
fn fragment_empty_frame_is_one_empty_packet() {
    let packets = FramePacket::fragment_frame(&frame_of(0));
    assert_eq!(packets.len(), 1);
    assert!(packets[0].data.is_empty());
    assert_eq!(packets[0].header.total_packets, 1);
}

#[test]
fn fragment_large_frame() {
    let f = frame_of(2 * 64936 + 10);
    let packets = FramePacket::fragment_frame(&f);
    assert_eq!(packets.len(), 3);
    assert_eq!(packets[0].data.len(), 64936);
    assert_eq!(packets[1].data.len(), 64936);
    assert_eq!(packets[2].data.len(), 10);
    for (i, p) in packets.iter().enumerate() {
        assert_eq!(p.header.packet_index as usize, i);
        assert_eq!(p.header.total_packets, 3);
        assert_eq!(p.header.original_size as usize, f.data.len());
    }
    assert_eq!(packets[1].data[..], f.data[64936..2 * 64936]);
}

#[test]
fn fragment_exact_multiple() {
    let packets = FramePacket::fragment_frame(&frame_of(64936));
    assert_eq!(packets.len(), 1);
    let packets = FramePacket::fragment_frame(&frame_of(64937));
    assert_eq!(packets.len(), 2);
    assert_eq!(packets[1].data.len(), 1);
}

#[test]
fn reassemble_restores_frame() {
    let f = frame_of(3 * 64936 - 5);
    let mut received: Vec<Option<FramePacket>> =
        FramePacket::fragment_frame(&f).into_iter().map(Some).collect();
    let back = FramePacket::reassemble(&mut received).unwrap();
    assert_eq!(back.data, f.data);
    assert_eq!(back.width, 640);
    assert_eq!(back.height, 480);
    assert_eq!(back.frame_number, 9);
    assert!(back.is_keyframe);
    assert_eq!(back.timestamp_us, 555);
    assert_eq!(back.encode_time_us, 0);
    assert_eq!(back.format, EncodedFormat::H264);
    assert_eq!(received.len(), 3);
}

#[test]
fn reassemble_missing_packet() {
    let f = frame_of(2 * 64936 + 1);
    let mut received: Vec<Option<FramePacket>> =
        FramePacket::fragment_frame(&f).into_iter().map(Some).collect();
    received[1] = None;
    assert!(FramePacket::reassemble(&mut received).is_none());
}

#[test]
fn reassemble_missing_first_or_empty() {
    let mut none: Vec<Option<FramePacket>> = Vec::new();
    assert!(FramePacket::reassemble(&mut none).is_none());
    let f = frame_of(10);
    let mut received: Vec<Option<FramePacket>> = vec![None];
    assert!(FramePacket::reassemble(&mut received).is_none());
    let mut one: Vec<Option<FramePacket>> =
        FramePacket::fragment_frame(&f).into_iter().map(Some).collect();
    assert!(FramePacket::reassemble(&mut one).is_some());
}

#[test]
fn reassemble_too_few_packets() {
    let f = frame_of(64936 + 1);
    let mut received: Vec<Option<FramePacket>> =
        FramePacket::fragment_frame(&f).into_iter().take(1).map(Some).collect();
    assert!(FramePacket::reassemble(&mut received).is_none());
}

#[test]
fn reassemble_ignores_packets_beyond_total() {
    let f = frame_of(20);
    let mut received: Vec<Option<FramePacket>> =
        FramePacket::fragment_frame(&f).into_iter().map(Some).collect();
    received.push(None);
    let back = FramePacket::reassemble(&mut received).unwrap();
    assert_eq!(back.data, f.data);
}

#[test]
fn encoder_bitrate_and_keyframes() {
    let mut e = EncoderState::new(1920, 1080, 30);
    assert_eq!(e.bitrate, 622080);
    assert_eq!(e.frame_count(), 0);
    for n in 1..60u64 {
        let (num, key) = e.next_frame();
        assert_eq!(num, n);
        assert!(!key);
    }
    assert_eq!(e.next_frame(), (60, true));
    e.force_keyframe();
    assert_eq!(e.frame_count(), 0);
    assert_eq!(e.next_frame(), (1, true));
    assert_eq!(e.next_frame(), (2, false));
    e.set_bitrate(1000);
    assert_eq!(e.bitrate, 1000);
}

#[test]
fn decoder_tracks_keyframes() {
    let mut d = DecoderState::new(10, 20);
    let mut f = frame_of(1);
    f.frame_number = 33;
    d.record(&f);
    assert_eq!(d.frame_count(), 1);
    assert_eq!(d.last_keyframe, 33);
    f.is_keyframe = false;
    f.frame_number = 34;
    d.record(&f);
    assert_eq!(d.frame_count(), 2);
    assert_eq!(d.last_keyframe, 33);
}

fn window() -> WindowInfo {
    WindowInfo {
        id: WindowId(7),
        handle: 1,
        title: "Editor".to_string(),
        process_name: "editor".to_string(),
        process_id: 100,
        x: 10,
        y: 20,
        width: 300,
        height: 200,
        is_minimized: false,
        is_maximized: false,
        is_focused: true,
    }
}

#[test]
fn capturer_counts_only_while_running() {
    let mut c = WindowCapturer::new(window());
    assert_eq!(c.next_frame_number(), None);
    assert_eq!(c.frame_count(), 0);
    c.start();
    assert!(c.is_running());
    assert_eq!(c.next_frame_number(), Some(1));
    assert_eq!(c.next_frame_number(), Some(2));
    c.stop();
    assert_eq!(c.next_frame_number(), None);
    assert_eq!(c.frame_count(), 2);
    let mut w = window();
    w.title = "Other".to_string();
    c.update_window(w);
    assert_eq!(c.window().title, "Other");
}

#[test]
fn captured_frame_size() {
    let f = CapturedFrame {
        pixels: vec![0; 16],
        metadata: FrameMetadata {
            width: 2,
            height: 2,
            stride: 8,
            format: FrameFormat::BGRA,
            timestamp_us: 0,
            capture_time_us: 0,
            frame_number: 1,
            dirty_regions: Vec::new(),
        },
    };
    assert_eq!(f.size_bytes(), 16);
}

#[test]
fn window_capture_metadata() {
    let m = FrameMetadata::bgra_window(800, 600, 123, 45, 7);
    assert_eq!(m.width, 800);
    assert_eq!(m.height, 600);
    assert_eq!(m.stride, 3200);
    assert_eq!(m.format, FrameFormat::BGRA);
    assert_eq!(m.timestamp_us, 123);
    assert_eq!(m.capture_time_us, 45);
    assert_eq!(m.frame_number, 7);
    assert!(m.dirty_regions.is_empty());
}
