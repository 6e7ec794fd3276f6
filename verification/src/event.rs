//! Input events: keys, mouse buttons, clipboard contents, and the pointer
//! events that drive window dragging.

use vstd::prelude::*;
use vstd::string::StrSliceExecFns;

verus! {

#[derive(Clone, Copy, Debug, PartialEq, Eq, Structural, Hash)]
pub enum MouseButton {
    Left,
    Right,
    Middle,
    Back,
    Forward,
    Other(u8),
}

#[derive(Clone, Copy, Debug, PartialEq, Eq, Structural, Hash)]
pub struct KeyModifiers {
    pub ctrl: bool,
    pub alt: bool,
    pub shift: bool,
    pub super_key: bool,
    pub caps_lock: bool,
}

impl Default for KeyModifiers {
    /// No modifier held.
    fn default() -> (m: KeyModifiers)
        ensures
            m == (KeyModifiers {
                ctrl: false,
                alt: false,
                shift: false,
                super_key: false,
                caps_lock: false,
            }),
    {
        KeyModifiers { ctrl: false, alt: false, shift: false, super_key: false, caps_lock: false }
    }
}

#[derive(Clone, Copy, Debug, PartialEq, Eq, Structural, Hash)]
pub enum KeyState {
    Pressed,
    Released,
}

#[derive(Clone, Debug)]
pub struct KeyEvent {
    pub scancode: u32,
    pub key: String,
    pub modifiers: KeyModifiers,
    pub state: KeyState,
}

#[derive(Clone, Copy, Debug, PartialEq, Eq, Structural)]
pub enum ClipboardContentType {
    Text,
    Html,
    Image,
    Files,
}

#[derive(Clone, Debug)]
pub struct ClipboardData {
    pub content_type: ClipboardContentType,
    pub data: Vec<u8>,
}

/// An input event as the drag logic reads it: pointer moves in screen
/// coordinates and button changes; every other event is `Other`.
#[derive(Clone, Copy, Debug, PartialEq, Eq, Structural)]
pub enum PointerEvent {
    Move { screen_x: i32, screen_y: i32 },
    ButtonDown(MouseButton),
    ButtonUp(MouseButton),
    DoubleClick(MouseButton),
    Other,
}

/// Whether a key event is the OmniBridge hotkey: Ctrl+Alt+O.
pub fn is_hotkey_combo(event: &KeyEvent) -> (b: bool)
    ensures
        b == (event.modifiers.ctrl && event.modifiers.alt && event.key@ == seq!['O']),
{
    if !(event.modifiers.ctrl && event.modifiers.alt) {
        return false;
    }
    let k = event.key.as_str();
    if k.unicode_len() != 1 {
        return false;
    }
    let c = k.get_char(0);
    if c == 'O' {
        assert(event.key@ =~= seq!['O']);
        true
    } else {
        false
    }
}

} // verus!
