use omnibridge::device::DeviceId;
use omnibridge::transfer::TransferList;
use omnibridge::window::{TransferPhase, WindowId, WindowInfo};

fn window(id: u128, title: &str) -> WindowInfo {
    WindowInfo {
        id: WindowId(id),
        handle: id as u64,
        title: title.to_string(),
        process_name: "app".to_string(),
        process_id: 1,
        x: 0,
        y: 0,
        width: 100,
        height: 100,
        is_minimized: false,
        is_maximized: false,
        is_focused: false,
    }
}

#[test]
fn transfers_start_count_and_stop() {
    let mut list: TransferList<u32> = TransferList::new();
    assert_eq!(list.active_transfer_count(), 0);
    list.start_transfer(window(1, "a"), DeviceId(10), DeviceId(20), 100);
    list.start_transfer(window(2, "b"), DeviceId(10), DeviceId(30), 200);
    list.start_transfer(window(1, "a again"), DeviceId(10), DeviceId(40), 300);
    assert_eq!(list.len(), 3);
    assert_eq!(list.active_transfer_count(), 3);
    assert!(list.is_running_transfer_of(0, WindowId(1)));
    assert!(!list.is_running_transfer_of(1, WindowId(1)));

    *list.worker_mut(1) += 5;
    assert_eq!(*list.worker_mut(1), 205);

    let stopped = list.stop_transfer(WindowId(1)).unwrap();
    assert_eq!(stopped.0.title, "a");
    assert_eq!(stopped.1, DeviceId(20));
    assert_eq!(list.len(), 1);
    assert_eq!(list.active_transfer_count(), 1);
    assert!(list.is_running_transfer_of(0, WindowId(2)));

    assert!(list.stop_transfer(WindowId(7)).is_none());
    assert_eq!(list.len(), 1);
}

#[test]
fn transfer_phases_compare() {
    assert_eq!(TransferPhase::Error("x".to_string()), TransferPhase::Error("x".to_string()));
    assert_ne!(TransferPhase::Capturing, TransferPhase::Complete);
}
