use omnibridge::cli::{Cli, Commands, ConfigAction, LayoutAction};
use omnibridge::codec::{EncodedFormat, EncodedFrame};
use omnibridge::config::{name_or, OmniBridgeConfig};
use omnibridge::device::{DeviceCapabilities, DeviceId, DeviceRole};
use omnibridge::discovery::{discovery_packet, discovery_payload, is_peer};
use omnibridge::event::{is_hotkey_combo, KeyEvent, KeyModifiers, KeyState, MouseButton};
use omnibridge::gui::{AppCommand, AppEvent, AppStatus, OmniBridgeApp, RemoteDevice, SettingsApp};
use omnibridge::input::{key_event_flags, mouse_button_data, mouse_button_flags, scan_code, virtual_key, InputInjector};
use omnibridge::protocol::{Message, MessageType};
use omnibridge::session::{frame_from_message, frame_header, frame_message, ClientRegistry};
use omnibridge::window::WindowId;
use std::sync::mpsc;

#[test]
fn device_ids_are_random_v4() {
    let a = DeviceId::new();
    let b = DeviceId::new();
    assert_ne!(a, b);
    assert_eq!((a.0 >> 76) & 0xf, 4);
    assert_eq!((a.0 >> 62) & 0x3, 2);
    let w = WindowId::default();
    assert_eq!((w.0 >> 76) & 0xf, 4);
}

#[test]
fn device_id_bytes_big_endian() {
    let id = DeviceId(0x0102030405060708090a0b0c0d0e0f10);
    let bytes = id.as_bytes();
    assert_eq!(bytes, [1, 2, 3, 4, 5, 6, 7, 8, 9, 10, 11, 12, 13, 14, 15, 16]);
}

#[test]
fn capabilities_defaults() {
    let c = DeviceCapabilities::with_cpu_cores(8);
    assert!(!c.has_gpu_encoder && !c.has_gpu_decoder);
    assert_eq!(c.max_capture_fps, 60);
    assert_eq!(c.supported_codecs, vec!["h264".to_string()]);
    assert_eq!(c.cpu_cores, 8);
    assert_ne!(DeviceRole::Primary, DeviceRole::Secondary);
}

#[test]
fn hotkey_is_ctrl_alt_o() {
    let mut e = KeyEvent {
        scancode: 24,
        key: "O".to_string(),
        modifiers: KeyModifiers { ctrl: true, alt: true, ..KeyModifiers::default() },
        state: KeyState::Pressed,
    };
    assert!(is_hotkey_combo(&e));
    e.modifiers.alt = false;
    assert!(!is_hotkey_combo(&e));
    e.modifiers.alt = true;
    e.key = "o".to_string();
    assert!(!is_hotkey_combo(&e));
    e.key = "OO".to_string();
    assert!(!is_hotkey_combo(&e));
}

#[test]
fn injection_codes() {
    assert_eq!(virtual_key(MouseButton::Left), 1);
    assert_eq!(virtual_key(MouseButton::Right), 2);
    assert_eq!(virtual_key(MouseButton::Middle), 4);
    assert_eq!(virtual_key(MouseButton::Back), 5);
    assert_eq!(virtual_key(MouseButton::Forward), 6);
    assert_eq!(virtual_key(MouseButton::Other(9)), 9);
    assert_eq!(mouse_button_flags(MouseButton::Left, true), 0x0002);
    assert_eq!(mouse_button_flags(MouseButton::Left, false), 0x0004);
    assert_eq!(mouse_button_flags(MouseButton::Right, true), 0x0008);
    assert_eq!(mouse_button_flags(MouseButton::Right, false), 0x0010);
    assert_eq!(mouse_button_flags(MouseButton::Middle, true), 0x0020);
    assert_eq!(mouse_button_flags(MouseButton::Middle, false), 0x0040);
    assert_eq!(mouse_button_flags(MouseButton::Back, true), 0x0080);
    assert_eq!(mouse_button_flags(MouseButton::Forward, false), 0x0100);
    assert_eq!(mouse_button_flags(MouseButton::Other(9), true), 0);
    assert_eq!(mouse_button_data(MouseButton::Back), 1);
    assert_eq!(mouse_button_data(MouseButton::Forward), 2);
    assert_eq!(mouse_button_data(MouseButton::Left), 0);
    assert_eq!(key_event_flags(KeyState::Released), 2);
    assert_eq!(key_event_flags(KeyState::Pressed), 0);
    assert_eq!(scan_code(0, 30), 30);
    assert_eq!(scan_code(17, 30), 17);
    assert_eq!(InputInjector::new(DeviceId(5)).device_id, DeviceId(5));
}

#[test]
fn discovery_roundtrip() {
    let packet = discovery_packet(b"{\"name\":\"pc\"}");
    assert!(packet.starts_with(b"OMNIBRIDGE_DISCOVER|"));
    assert_eq!(discovery_payload(&packet), Some(&b"{\"name\":\"pc\"}"[..]));
    assert_eq!(discovery_payload(b"HELLO"), None);
    assert_eq!(discovery_payload(b"OMNIBRIDGE_DISCOVER"), None);
    assert_eq!(discovery_payload(b"OMNIBRIDGE_DISCOVER|"), Some(&b""[..]));
    assert!(is_peer(DeviceId(1), DeviceId(2)));
    assert!(!is_peer(DeviceId(1), DeviceId(1)));
}

#[test]
fn client_registry_registers_once() {
    let mut r: ClientRegistry<&str> = ClientRegistry::new();
    assert!(!r.is_connected(DeviceId(1)));
    assert!(r.register(DeviceId(1), "10.0.0.1"));
    assert!(r.is_connected(DeviceId(1)));
    assert!(!r.is_connected(DeviceId(2)));
    assert!(r.register(DeviceId(2), "10.0.0.2"));
    assert!(!r.register(DeviceId(1), "10.0.0.9"));
    assert_eq!(r.len(), 2);
    assert_eq!(r.clients()[0], (DeviceId(1), "10.0.0.1"));
}

#[test]
fn frame_message_reaches_client_intact() {
    let encoded = EncodedFrame {
        data: vec![9, 8, 7, 6],
        width: 800,
        height: 600,
        frame_number: 3,
        is_keyframe: true,
        timestamp_us: 1000,
        encode_time_us: 12,
        format: EncodedFormat::H264,
    };
    let device = DeviceId(0xabcdef);
    let header = frame_header(device, &encoded);
    assert_eq!(header.source_device, device.as_bytes());
    let msg = frame_message(device, &encoded, 17);
    assert_eq!(msg.msg_type, MessageType::WindowFrame);
    assert_eq!(msg.sequence, 17);
    let bytes = msg.serialize().unwrap();
    let received = Message::deserialize(&bytes).unwrap();
    let frame = frame_from_message(&received).unwrap();
    assert_eq!(frame.data, vec![9, 8, 7, 6]);
    assert_eq!(frame.width, 800);
    assert_eq!(frame.height, 600);
    assert_eq!(frame.frame_number, 17);
    assert!(frame.is_keyframe);
    assert_eq!(frame.timestamp_us, 1000);
    assert_eq!(frame.encode_time_us, 0);
}

#[test]
fn frame_from_other_messages() {
    let m = Message { msg_type: MessageType::InputEvent, payload: vec![0; 40], timestamp: 0, sequence: 0 };
    assert!(frame_from_message(&m).is_none());
    let short = Message { msg_type: MessageType::WindowFrame, payload: vec![0; 10], timestamp: 0, sequence: 0 };
    assert!(frame_from_message(&short).is_none());
}

#[test]
fn config_defaults() {
    let c = OmniBridgeConfig::default();
    assert!(!c.is_primary);
    assert_eq!(c.port, 19810);
    assert!(c.auto_discover);
    assert_eq!(c.edge_threshold, 5);
    assert_eq!(c.capture_fps, 60);
    assert_eq!(c.bitrate, 20_000_000);
    assert!(c.enable_encryption);
    assert!(c.layout.is_none());
    assert!(!c.device_name.is_empty());
}

#[test]
fn cli_commands() {
    let cli = Cli {
        command: Commands::Layout {
            action: LayoutAction::SetEdge { from: "a".into(), to: "b".into(), direction: "right".into() },
        },
    };
    assert!(matches!(cli.command, Commands::Layout { .. }));
    let c = Commands::Config { action: ConfigAction::SetValue { key: "k".into(), value: "v".into() } };
    assert_ne!(c, Commands::Status);
}

#[test]
fn app_events_and_commands() {
    let (etx, erx) = mpsc::channel();
    let mut app = OmniBridgeApp::new(erx);
    assert!(app.is_primary());
    assert_eq!(*app.status(), AppStatus::Stopped);
    assert!(!app.is_running());
    app.set_device_name("desk".to_string());
    match app.start_server() {
        AppCommand::Start { name, is_primary } => {
            assert_eq!(name, "desk");
            assert!(is_primary);
        }
        other => panic!("unexpected {:?}", other),
    }
    assert!(matches!(app.stop_server(), AppCommand::Stop));

    assert!(app.next_event().is_none());
    etx.send(AppEvent::Status(AppStatus::Running)).unwrap();
    let dev = RemoteDevice { name: "laptop".into(), address: "10.0.0.2".into(), connected: false };
    etx.send(AppEvent::DeviceFound(dev.clone())).unwrap();
    etx.send(AppEvent::DeviceFound(RemoteDevice { name: "again".into(), ..dev })).unwrap();
    while let Some(event) = app.next_event() {
        app.apply_event(event);
    }
    assert!(app.is_running());
    assert_eq!(app.remote_devices().len(), 1);
    assert_eq!(app.remote_devices()[0].name, "laptop");
    app.set_connected(0, true);
    assert!(app.remote_devices()[0].connected);
    app.apply_event(AppEvent::Status(AppStatus::Error("boom".into())));
    assert!(!app.is_running());
}

#[test]
fn app_takes_in_a_run_of_events() {
    let (_etx, erx) = mpsc::channel::<AppEvent>();
    let mut app = OmniBridgeApp::new(erx);
    let dev = |name: &str, address: &str| RemoteDevice {
        name: name.into(),
        address: address.into(),
        connected: false,
    };
    app.apply_events(vec![
        AppEvent::Status(AppStatus::Starting),
        AppEvent::DeviceFound(dev("a", "10.0.0.1")),
        AppEvent::DeviceFound(dev("b", "10.0.0.2")),
        AppEvent::DeviceFound(dev("a2", "10.0.0.1")),
        AppEvent::Status(AppStatus::Running),
        AppEvent::DeviceFound(dev("c", "10.0.0.3")),
    ]);
    assert_eq!(*app.status(), AppStatus::Running);
    let names: Vec<&str> = app.remote_devices().iter().map(|d| d.name.as_str()).collect();
    assert_eq!(names, vec!["a", "b", "c"]);
    app.apply_events(Vec::new());
    assert_eq!(*app.status(), AppStatus::Running);
    assert_eq!(app.remote_devices().len(), 3);
}

#[test]
fn app_start_command_follows_name_and_role() {
    let (_etx, erx) = mpsc::channel::<AppEvent>();
    let mut app = OmniBridgeApp::new(erx);
    app.set_primary(false);
    app.set_device_name("node-7".to_string());
    assert!(matches!(app.start_server(), AppCommand::Start { name, is_primary: false } if name == "node-7"));
    app.set_primary(true);
    assert!(matches!(app.start_server(), AppCommand::Start { name, is_primary: true } if name == "node-7"));
    assert!(matches!(app.stop_server(), AppCommand::Stop));
    // Asking for the commands changes nothing in the window.
    assert_eq!(app.device_name(), "node-7");
    assert_eq!(*app.status(), AppStatus::Stopped);
}

#[test]
fn settings_app_state() {
    let (tx, _rx) = mpsc::channel();
    let mut s = SettingsApp::new(tx);
    assert_eq!(s.device_name(), "My Device");
    assert!(!s.is_primary());
    assert_eq!(s.status_text(), "Disconnected");
    assert!(s.connected_devices().is_empty());
    s.set_status("Running");
    s.set_devices(vec!["a".to_string()]);
    assert_eq!(s.status_text(), "Running");
    assert_eq!(s.connected_devices(), &vec!["a".to_string()]);
}

#[test]
fn node_name_falls_back_when_host_unknown() {
    assert_eq!(name_or(Some("desk".to_string()), "omnibridge-node"), "desk");
    assert_eq!(name_or(None, "omnibridge-node"), "omnibridge-node");
    assert_eq!(name_or(None, "Unknown PC"), "Unknown PC");
}
