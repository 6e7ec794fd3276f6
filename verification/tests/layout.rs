use omnibridge::device::DeviceId;
use omnibridge::drag::{DragEvent, DragState, WindowDragDetector};
use omnibridge::edge::EdgeDetector;
use omnibridge::event::{MouseButton, PointerEvent};
use omnibridge::layout::{
    DevicePosition, Direction, LayoutConfig, ScreenConnection, ScreenTopology, TopologyScreen,
};
use omnibridge::screen::{ScreenId, ScreenRect};
use omnibridge::topology::LayoutTopology;
use omnibridge::window::{WindowId, WindowInfo};

const A: DeviceId = DeviceId(1);
const B: DeviceId = DeviceId(2);
const C: DeviceId = DeviceId(3);

fn screens() -> Vec<(DeviceId, ScreenRect)> {
    vec![
        (A, ScreenRect::new(0, 0, 1920, 1080)),
        (B, ScreenRect::new(1920, 0, 1920, 1080)),
        (C, ScreenRect::new(0, 1080, 1920, 1080)),
    ]
}

#[test]
fn rect_edges_and_contains() {
    let r = ScreenRect::new(10, 20, 100, 50);
    assert_eq!(r.right(), 110);
    assert_eq!(r.bottom(), 70);
    assert!(r.contains(10, 20));
    assert!(r.contains(109, 69));
    assert!(!r.contains(110, 30));
    assert!(!r.contains(50, 70));
}

#[test]
fn topology_adjacency() {
    let mut t = ScreenTopology::new();
    t.add_connection(ScreenConnection {
        from_device: A,
        to_device: B,
        from_screen: ScreenId(0),
        to_screen: ScreenId(0),
        direction: Direction::Right,
    });
    t.add_connection(ScreenConnection {
        from_device: A,
        to_device: C,
        from_screen: ScreenId(0),
        to_screen: ScreenId(0),
        direction: Direction::Right,
    });
    assert_eq!(t.find_adjacent_device(A, Direction::Right), Some(B));
    assert_eq!(t.find_adjacent_device(A, Direction::Left), None);
    assert_eq!(t.find_adjacent_device(B, Direction::Right), None);
}

#[test]
fn topology_bounds() {
    let mut t = ScreenTopology::default();
    assert_eq!(t.global_virtual_bounds(), ScreenRect::new(0, 0, 0, 0));
    t.add_screen(TopologyScreen {
        device_id: A,
        screen_id: ScreenId(0),
        global_rect: ScreenRect::new(-100, 50, 200, 100),
    });
    t.add_screen(TopologyScreen {
        device_id: B,
        screen_id: ScreenId(1),
        global_rect: ScreenRect::new(300, -20, 100, 60),
    });
    assert_eq!(t.global_virtual_bounds(), ScreenRect::new(-100, -20, 500, 170));
}

#[test]
fn edge_crossing_to_the_right() {
    let mut d = EdgeDetector::new(A, 5);
    assert_eq!(d.detect_edge_crossing(1918, 500), None);
    d.update_screens(screens());
    assert_eq!(d.detect_edge_crossing(1918, 500), Some((B, Direction::Right)));
    assert_eq!(d.detect_edge_crossing(900, 500), None);
    assert_eq!(d.detect_edge_crossing(900, 1078), Some((C, Direction::Bottom)));
    // At the left edge no screen lies beyond.
    assert_eq!(d.detect_edge_crossing(2, 500), None);
}

#[test]
fn edge_translation() {
    let mut d = EdgeDetector::new(A, 5);
    d.update_screens(screens());
    assert_eq!(d.translate_coordinates(1918, 500, A, B, Direction::Right), Some((1920, 500)));
    assert_eq!(d.translate_coordinates(5, 300, B, A, Direction::Left), Some((1920, 300)));
    assert_eq!(d.translate_coordinates(700, 1078, A, C, Direction::Bottom), Some((700, 1080)));
    assert_eq!(d.translate_coordinates(700, 1082, C, A, Direction::Top), Some((700, 1080)));
    assert_eq!(d.translate_coordinates(1, 1, A, DeviceId(9), Direction::Right), None);
    assert!(d.can_translate(1918, 500, A, B, Direction::Right));
}

fn window() -> WindowInfo {
    WindowInfo {
        id: WindowId(77),
        handle: 42,
        title: "Notes".to_string(),
        process_name: "notes".to_string(),
        process_id: 4,
        x: 0,
        y: 0,
        width: 640,
        height: 480,
        is_minimized: false,
        is_maximized: false,
        is_focused: true,
    }
}

fn mv(x: i32, y: i32) -> PointerEvent {
    PointerEvent::Move { screen_x: x, screen_y: y }
}

#[test]
fn drag_press_move_cross_release() {
    let mut d = WindowDragDetector::new(A, screens());
    assert!(matches!(d.state(), DragState::Idle));
    assert!(d.process_input(&mv(1918, 500), None).is_none());
    assert!(matches!(d.state(), DragState::Idle));

    d.start_drag((100, 100), window());
    assert!(d.process_input(&mv(103, 102), None).is_none());
    assert!(matches!(d.state(), DragState::MouseDown { pos: (100, 100), .. }));

    assert!(d.process_input(&mv(200, 200), None).is_none());
    assert!(matches!(d.state(), DragState::Dragging { start_pos: (100, 100), current_pos: (200, 200), .. }));

    match d.process_input(&mv(300, 310), None) {
        Some(DragEvent::WindowDragging { window, position }) => {
            assert_eq!(window.handle, 42);
            assert_eq!(position, (300, 310));
        }
        other => panic!("unexpected {:?}", other),
    }

    match d.process_input(&mv(1918, 500), None) {
        Some(DragEvent::WindowCrossingEdge { window, target_device, direction, target_position }) => {
            assert_eq!(window.title, "Notes");
            assert_eq!(target_device, B);
            assert_eq!(direction, Direction::Right);
            assert_eq!(target_position, (1920, 500));
        }
        other => panic!("unexpected {:?}", other),
    }
    assert!(matches!(d.state(), DragState::EdgeCrossing { target_device: B, .. }));

    match d.process_input(&mv(1919, 600), None) {
        Some(DragEvent::WindowCrossingEdge { target_position, .. }) => {
            assert_eq!(target_position, (1920, 600));
        }
        other => panic!("unexpected {:?}", other),
    }

    assert!(d.process_input(&PointerEvent::ButtonUp(MouseButton::Right), None).is_none());
    match d.process_input(&PointerEvent::ButtonUp(MouseButton::Left), None) {
        Some(DragEvent::WindowDropped { window, position }) => {
            assert_eq!(window.handle, 42);
            assert_eq!(position, (0, 0));
        }
        other => panic!("unexpected {:?}", other),
    }
    assert!(matches!(d.state(), DragState::Idle));
}

#[test]
fn drag_release_while_dragging_drops_at_cursor() {
    let mut d = WindowDragDetector::new(A, screens());
    d.start_drag((500, 500), window());
    assert!(d.process_input(&mv(520, 500), None).is_none());
    match d.process_input(&PointerEvent::ButtonUp(MouseButton::Left), None) {
        Some(DragEvent::WindowDropped { position, .. }) => assert_eq!(position, (520, 500)),
        other => panic!("unexpected {:?}", other),
    }
    // A press that never moved is simply forgotten on release.
    d.start_drag((10, 10), window());
    assert!(d.process_input(&PointerEvent::ButtonUp(MouseButton::Left), None).is_none());
    assert!(matches!(d.state(), DragState::Idle));
}

#[test]
fn drag_left_press_arms_at_cursor() {
    let mut d = WindowDragDetector::new(A, screens());
    // Before any move the cursor is taken to be at the origin.
    assert!(d.process_input(&PointerEvent::ButtonDown(MouseButton::Left), None).is_none());
    assert!(matches!(d.state(), DragState::MouseDown { pos: (0, 0), window: None }));
    assert!(d.process_input(&PointerEvent::ButtonUp(MouseButton::Left), None).is_none());
    assert!(matches!(d.state(), DragState::Idle));

    assert!(d.process_input(&mv(400, 300), None).is_none());
    assert!(d.process_input(&PointerEvent::ButtonDown(MouseButton::Right), Some(window())).is_none());
    assert!(matches!(d.state(), DragState::Idle));
    assert!(d.process_input(&PointerEvent::ButtonDown(MouseButton::Left), Some(window())).is_none());
    match d.state() {
        DragState::MouseDown { pos, window: Some(w) } => {
            assert_eq!(*pos, (400, 300));
            assert_eq!(w.handle, 42);
        }
        other => panic!("unexpected {:?}", other),
    }
    // A small move keeps the press; a larger one starts the drag.
    assert!(d.process_input(&mv(403, 301), None).is_none());
    assert!(matches!(d.state(), DragState::MouseDown { pos: (400, 300), .. }));
    assert!(d.process_input(&mv(450, 300), None).is_none());
    assert!(matches!(d.state(), DragState::Dragging { start_pos: (400, 300), current_pos: (450, 300), .. }));
    match d.process_input(&PointerEvent::ButtonUp(MouseButton::Left), None) {
        Some(DragEvent::WindowDropped { window, position }) => {
            assert_eq!(window.title, "Notes");
            assert_eq!(position, (450, 300));
        }
        other => panic!("unexpected {:?}", other),
    }
}

#[test]
fn drag_can_process_screen_moves() {
    let mut d = WindowDragDetector::new(A, screens());
    assert!(d.can_process(&mv(400, 400)));
    d.start_drag((10, 10), window());
    assert!(d.can_process(&mv(400, 400)));
    assert!(!d.can_process(&mv(i32::MIN, 400)));
    assert!(d.can_process(&PointerEvent::Other));
}

#[test]
fn auto_layout_places_devices_side_by_side() {
    let mut t = LayoutTopology::new();
    let devices = vec![
        (A, vec![ScreenRect::new(0, 0, 1920, 1080)]),
        (B, Vec::new()),
        (C, vec![ScreenRect::new(5, 5, 1280, 720), ScreenRect::new(0, 0, 800, 600)]),
    ];
    t.auto_layout(&devices);
    let screens = &t.topology.screens;
    assert_eq!(screens.len(), 2);
    assert_eq!(screens[0].device_id, A);
    assert_eq!(screens[0].global_rect, ScreenRect::new(0, 0, 1920, 1080));
    assert_eq!(screens[1].device_id, C);
    assert_eq!(screens[1].global_rect, ScreenRect::new(1930, 0, 1280, 720));
    let conns = &t.topology.connections;
    assert_eq!(conns.len(), 2);
    assert_eq!((conns[0].from_device, conns[0].to_device), (A, B));
    assert_eq!((conns[1].from_device, conns[1].to_device), (B, C));
    assert_eq!(conns[1].direction, Direction::Right);
    assert_eq!(t.find_adjacent_device(B, Direction::Right), Some(C));
    assert_eq!(t.virtual_bounds(), ScreenRect::new(0, 0, 3210, 1080));
}

#[test]
fn to_config_keeps_last_position_per_device() {
    let mut t = LayoutTopology::default();
    t.add_device_screen(A, TopologyScreen { device_id: A, screen_id: ScreenId(0), global_rect: ScreenRect::new(1, 2, 3, 4) });
    t.add_device_screen(A, TopologyScreen { device_id: A, screen_id: ScreenId(1), global_rect: ScreenRect::new(5, 6, 7, 8) });
    t.connect_screens(A, B, ScreenId(0), ScreenId(0), Direction::Top);
    let c: LayoutConfig = t.to_config();
    assert_eq!(c.device_positions.len(), 1);
    assert_eq!(c.device_positions.get(&A.0), Some(&DevicePosition { x: 5, y: 6 }));
    assert_eq!(c.edges.len(), 1);
    assert_eq!(c.edges[0].from, A);
    assert_eq!(c.edges[0].to, B);
    assert_eq!(c.edges[0].direction, Direction::Top);
    assert!(c.edges[0].enabled);
    let empty = LayoutConfig::default();
    assert!(empty.device_positions.is_empty() && empty.edges.is_empty());
}
