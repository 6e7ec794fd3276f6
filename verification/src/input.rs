//! The codes used to replay input on the receiving device.

use vstd::prelude::*;
use crate::device::DeviceId;
use crate::event::{KeyState, MouseButton};

verus! {

/// Replays input events received from another device.
pub struct InputInjector {
    pub device_id: DeviceId,
}

impl InputInjector {
    pub fn new(device_id: DeviceId) -> (i: InputInjector)
        ensures
            i.device_id == device_id,
    {
        InputInjector { device_id }
    }
}

/// The virtual-key code of a mouse button.
pub open spec fn button_code(btn: MouseButton) -> i32 {
    match btn {
        MouseButton::Left => 1,
        MouseButton::Right => 2,
        MouseButton::Middle => 4,
        MouseButton::Back => 5,
        MouseButton::Forward => 6,
        MouseButton::Other(v) => v as i32,
    }
}

pub fn virtual_key(btn: MouseButton) -> (vk: i32)
    ensures
        vk == button_code(btn),
{
    match btn {
        MouseButton::Left => 1,
        MouseButton::Right => 2,
        MouseButton::Middle => 4,
        MouseButton::Back => 5,
        MouseButton::Forward => 6,
        MouseButton::Other(v) => v as i32,
    }
}

/// The flags of a synthesized mouse-button event: the button's own "down"
/// or "up" flag (left 0x2 / 0x4, right 0x8 / 0x10, middle 0x20 / 0x40, the
/// two extra buttons 0x80 / 0x100), and none for any other button.
pub open spec fn button_flags(btn: MouseButton, is_down: bool) -> u32 {
    match btn {
        MouseButton::Left => if is_down { 0x2u32 } else { 0x4u32 },
        MouseButton::Right => if is_down { 0x8u32 } else { 0x10u32 },
        MouseButton::Middle => if is_down { 0x20u32 } else { 0x40u32 },
        MouseButton::Back | MouseButton::Forward => if is_down { 0x80u32 } else { 0x100u32 },
        MouseButton::Other(_) => 0u32,
    }
}

/// The event data that says which extra button is meant: 1 for back, 2 for
/// forward, 0 for every other button.
pub open spec fn button_data(btn: MouseButton) -> i32 {
    match btn {
        MouseButton::Back => 1i32,
        MouseButton::Forward => 2i32,
        _ => 0i32,
    }
}

pub fn mouse_button_flags(btn: MouseButton, is_down: bool) -> (f: u32)
    ensures
        f == button_flags(btn, is_down),
{
    match btn {
        MouseButton::Left => if is_down { 0x2 } else { 0x4 },
        MouseButton::Right => if is_down { 0x8 } else { 0x10 },
        MouseButton::Middle => if is_down { 0x20 } else { 0x40 },
        MouseButton::Back | MouseButton::Forward => if is_down { 0x80 } else { 0x100 },
        MouseButton::Other(_) => 0,
    }
}

pub fn mouse_button_data(btn: MouseButton) -> (d: i32)
    ensures
        d == button_data(btn),
{
    match btn {
        MouseButton::Back => 1,
        MouseButton::Forward => 2,
        _ => 0,
    }
}

/// A press and the release of the same button are told apart: their flags
/// differ, and a button that has flags has them for both.
pub proof fn lemma_press_and_release_differ(btn: MouseButton)
    ensures
        button_flags(btn, true) != 0 ==> button_flags(btn, true) != button_flags(btn, false),
        (button_flags(btn, true) == 0) == (button_flags(btn, false) == 0),
{
}

/// The flags of a synthesized key event: 2 for a release, 0 for a press.
pub fn key_event_flags(state: KeyState) -> (f: u8)
    ensures
        f == (if state == KeyState::Released {
            2u8
        } else {
            0u8
        }),
{
    match state {
        KeyState::Released => 2,
        KeyState::Pressed => 0,
    }
}

/// The scan code to send for a key: the mapped one, or the key's own code
/// when the mapping gives 0.
pub fn scan_code(mapped: u32, scancode: u32) -> (s: u32)
    ensures
        s == (if mapped == 0 {
            scancode
        } else {
            mapped
        }),
{
    if mapped == 0 {
        scancode
    } else {
        mapped
    }
}

} // verus!
