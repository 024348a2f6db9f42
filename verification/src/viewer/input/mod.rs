//! Input event construction from Win32 message parameters, and capture of
//! window input for the compositor.
//!
//! The Win32 helpers are pure functions over the raw integer message
//! parameters (lParam, wParam, message ids).

pub mod capture;

pub use capture::{
    encode_input_event, keycode_to_linux, ElementState, InputCapture, KeyCode, MouseButton,
    PhysicalKey, ViewerInputEvent, WindowInputEvent,
};

use vstd::prelude::*;

use crate::protocol::message::{ButtonState, InputEvent};

verus! {

/// The scancode (bits 16–23) and extended-key flag (bit 24) of a
/// WM_KEYDOWN/WM_KEYUP lParam.
pub fn extract_scancode(lparam: usize) -> (r: (u16, bool))
    ensures
        r.0 == (lparam / 0x10000) % 0x100,
        r.1 == ((lparam / 0x1000000) % 2 == 1),
{
    let scancode = ((lparam >> 16) & 0xFF) as u16;
    let is_extended = (lparam & (1 << 24)) != 0;
    assert(((lparam >> 16) & 0xFF) == (lparam / 0x10000) % 0x100) by (bit_vector);
    assert(((lparam & (1usize << 24usize)) != 0) == ((lparam / 0x1000000) % 2 == 1)) by (bit_vector);
    (scancode, is_extended)
}

/// The scancode a key event carries: extended keys get the 0x100 offset.
pub open spec fn event_scancode(scancode: u16, is_extended: bool) -> u16 {
    if is_extended {
        scancode | 0x100
    } else {
        scancode
    }
}

/// A KeyDown (`pressed`) or KeyUp event for the scancode; extended keys
/// get an offset of 0x100.
pub fn key_event(scancode: u16, is_extended: bool, pressed: bool) -> (e: InputEvent)
    ensures
        e == (if pressed {
            InputEvent::KeyDown { scancode: event_scancode(scancode, is_extended) }
        } else {
            InputEvent::KeyUp { scancode: event_scancode(scancode, is_extended) }
        }),
{
    let code = if is_extended {
        scancode | 0x100
    } else {
        scancode
    };
    if pressed {
        InputEvent::KeyDown { scancode: code }
    } else {
        InputEvent::KeyUp { scancode: code }
    }
}

/// The pointer position packed in a WM_MOUSEMOVE/WM_*BUTTON* lParam: the
/// low word is x, the high word y, both unsigned.
pub fn pointer_position(lparam: i32) -> (r: (u16, u16))
    ensures
        r == (lparam as u16, (lparam >> 16i32) as u16),
{
    (lparam as u16, (lparam >> 16) as u16)
}

/// The Linux button code and state of a Win32 mouse button message, for
/// the messages `pointer_button` handles.
pub open spec fn button_of(msg: u32, wparam: usize) -> Option<(u32, ButtonState)> {
    let xbutton = (wparam >> 16usize) as u16;
    if msg == 0x0201 {
        Some((0x110u32, ButtonState::Pressed))
    } else if msg == 0x0202 {
        Some((0x110u32, ButtonState::Released))
    } else if msg == 0x0204 {
        Some((0x111u32, ButtonState::Pressed))
    } else if msg == 0x0205 {
        Some((0x111u32, ButtonState::Released))
    } else if msg == 0x0207 {
        Some((0x112u32, ButtonState::Pressed))
    } else if msg == 0x0208 {
        Some((0x112u32, ButtonState::Released))
    } else if msg == 0x020B || msg == 0x020C {
        let state = if msg == 0x020B { ButtonState::Pressed } else { ButtonState::Released };
        if xbutton == 1 {
            Some((0x113u32, state))
        } else if xbutton == 2 {
            Some((0x114u32, state))
        } else {
            None
        }
    } else {
        None
    }
}

/// The released form of a pressed button: the same button, released.
pub open spec fn released(b: Option<(u32, ButtonState)>) -> Option<(u32, ButtonState)> {
    match b {
        Some((code, _)) => Some((code, ButtonState::Released)),
        None => None,
    }
}

/// Button messages come in down/up pairs (left 0x0201/0x0202, right
/// 0x0204/0x0205, middle 0x0207/0x0208, extra 0x020B/0x020C): every down
/// message is a press and its up message is a release of the same button.
/// Left, right and middle are the Linux buttons 0x110, 0x111 and 0x112; the
/// two extra buttons (1 and 2 in the high word of `wparam`) are 0x113 and
/// 0x114, and other extra-button numbers give no event.
pub proof fn lemma_button_message_pairs(wparam: usize)
    ensures
        button_of(0x0201, wparam) == Some((0x110u32, ButtonState::Pressed)),
        button_of(0x0204, wparam) == Some((0x111u32, ButtonState::Pressed)),
        button_of(0x0207, wparam) == Some((0x112u32, ButtonState::Pressed)),
        button_of(0x020B, wparam) matches Some((_, st)) ==> st == ButtonState::Pressed,
        button_of(0x0202, wparam) == released(button_of(0x0201, wparam)),
        button_of(0x0205, wparam) == released(button_of(0x0204, wparam)),
        button_of(0x0208, wparam) == released(button_of(0x0207, wparam)),
        button_of(0x020C, wparam) == released(button_of(0x020B, wparam)),
        ((wparam >> 16usize) as u16 == 1) ==> button_of(0x020B, wparam) == Some((0x113u32, ButtonState::Pressed)),
        ((wparam >> 16usize) as u16 == 2) ==> button_of(0x020B, wparam) == Some((0x114u32, ButtonState::Pressed)),
        ((wparam >> 16usize) as u16 != 1 && (wparam >> 16usize) as u16 != 2) ==> button_of(0x020B, wparam) is None,
{
}

/// Map a Win32 mouse button message to a (Linux button code, state) pair:
/// left 0x110, right 0x111, middle 0x112, X buttons 0x113/0x114 (by the
/// high word of wParam). Other messages give `None`.
pub fn pointer_button(msg: u32, wparam: usize) -> (r: Option<(u32, ButtonState)>)
    ensures
        r == button_of(msg, wparam),
{
    let state = match msg {
        0x0201 | 0x0204 | 0x0207 | 0x020B => ButtonState::Pressed,
        0x0202 | 0x0205 | 0x0208 | 0x020C => ButtonState::Released,
        _ => {
            return None;
        },
    };
    let button: u32 = match msg {
        0x0201 | 0x0202 => 0x110,
        0x0204 | 0x0205 => 0x111,
        0x0207 | 0x0208 => 0x112,
        0x020B | 0x020C => {
            let xbutton = (wparam >> 16) as u16;
            match xbutton {
                1 => 0x113,
                2 => 0x114,
                _ => {
                    return None;
                },
            }
        },
        _ => {
            return None;
        },
    };
    Some((button, state))
}

/// Which wheel a scroll message is for.
#[derive(Debug, Clone, Copy, PartialEq, Eq, Structural)]
pub enum ScrollAxis {
    /// WM_MOUSEWHEEL: positive deltas scroll up, toward negative dy.
    Vertical,
    /// WM_MOUSEHWHEEL: positive deltas scroll right.
    Horizontal,
}

/// The wheel a message scrolls, if it is a wheel message.
pub fn scroll_axis(msg: u32) -> (r: Option<ScrollAxis>)
    ensures
        r == (if msg == 0x020A {
            Some(ScrollAxis::Vertical)
        } else if msg == 0x020E {
            Some(ScrollAxis::Horizontal)
        } else {
            None
        }),
{
    match msg {
        0x020A => Some(ScrollAxis::Vertical),
        0x020E => Some(ScrollAxis::Horizontal),
        _ => None,
    }
}

/// The signed wheel delta in the high word of a wheel message's wParam
/// (120 per notch).
pub fn wheel_delta(wparam: usize) -> (d: i16)
    ensures
        d == (wparam >> 16usize) as i16,
{
    (wparam >> 16) as i16
}

} // verus!
