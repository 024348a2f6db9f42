//! Input capture for the viewer window: keyboard and mouse events become
//! input events for the compositor, encoded in the raw streaming format.

use vstd::prelude::*;

use std::sync::mpsc::Sender;

use crate::server::streaming::input::{
    decode_window_input, lemma_window_input_roundtrip, window_input_bytes, InputEvent as ServerInputEvent, KeyEvent, MouseButtonEvent, MouseMoveEvent,
    MouseScrollEvent, WindowInputEvent as ServerWindowInputEvent,
};
use crate::wire::{be_bytes_u32, push_be_u32};

verus! {

/// Input event types for transmission to the server.
#[derive(Debug, Clone, Copy, PartialEq, Eq, Structural)]
pub enum ViewerInputEvent {
    /// Key press event.
    KeyPress { key_code: u32, modifiers: u8 },
    /// Key release event.
    KeyRelease { key_code: u32, modifiers: u8 },
    /// Mouse move event (relative to window).
    MouseMove { x: i32, y: i32 },
    /// Mouse button press.
    MouseButtonPress { button: u8 },
    /// Mouse button release.
    MouseButtonRelease { button: u8 },
    /// Mouse scroll.
    MouseScroll { horizontal: i32, vertical: i32 },
}

/// Input event with the compositor's window id.
#[derive(Debug, Clone, Copy, PartialEq, Eq, Structural)]
pub struct WindowInputEvent {
    /// Window ID from the compositor.
    pub window_id: u32,
    /// The input event.
    pub event: ViewerInputEvent,
}

/// A physical key position (the keys the Linux mapping covers; every other
/// key is `Unknown`).
#[derive(Debug, Clone, Copy, PartialEq, Eq, Structural)]
pub enum KeyCode {
    Backspace,
    Tab,
    Enter,
    ShiftLeft,
    ShiftRight,
    ControlLeft,
    ControlRight,
    AltLeft,
    AltRight,
    CapsLock,
    Escape,
    Space,
    PageUp,
    PageDown,
    End,
    Home,
    ArrowLeft,
    ArrowUp,
    ArrowRight,
    ArrowDown,
    Insert,
    Delete,
    Digit0,
    Digit1,
    Digit2,
    Digit3,
    Digit4,
    Digit5,
    Digit6,
    Digit7,
    Digit8,
    Digit9,
    KeyA,
    KeyB,
    KeyC,
    KeyD,
    KeyE,
    KeyF,
    KeyG,
    KeyH,
    KeyI,
    KeyJ,
    KeyK,
    KeyL,
    KeyM,
    KeyN,
    KeyO,
    KeyP,
    KeyQ,
    KeyR,
    KeyS,
    KeyT,
    KeyU,
    KeyV,
    KeyW,
    KeyX,
    KeyY,
    KeyZ,
    F1,
    F2,
    F3,
    F4,
    F5,
    F6,
    F7,
    F8,
    F9,
    F10,
    F11,
    F12,
    Minus,
    Equal,
    BracketLeft,
    BracketRight,
    Backslash,
    Semicolon,
    Quote,
    Comma,
    Period,
    Slash,
    Backquote,
    SuperLeft,
    SuperRight,
    ContextMenu,
    Unknown,
}

/// A physical key: a known key position or an unidentified native key.
#[derive(Debug, Clone, Copy, PartialEq, Eq, Structural)]
pub enum PhysicalKey {
    Code(KeyCode),
    Unidentified,
}

/// Whether a key or button went down or up.
#[derive(Debug, Clone, Copy, PartialEq, Eq, Structural)]
pub enum ElementState {
    Pressed,
    Released,
}

/// A mouse button.
#[derive(Debug, Clone, Copy, PartialEq, Eq, Structural)]
pub enum MouseButton {
    Left,
    Right,
    Middle,
    Back,
    Forward,
    Other(u16),
}

/// The Linux input event code of a key position (0 for unknown keys).
pub open spec fn linux_code(code: KeyCode) -> u32 {
    match code {
        KeyCode::Backspace => 14,
        KeyCode::Tab => 15,
        KeyCode::Enter => 28,
        KeyCode::ShiftLeft => 42,
        KeyCode::ShiftRight => 54,
        KeyCode::ControlLeft => 29,
        KeyCode::ControlRight => 97,
        KeyCode::AltLeft => 56,
        KeyCode::AltRight => 100,
        KeyCode::CapsLock => 58,
        KeyCode::Escape => 1,
        KeyCode::Space => 57,
        KeyCode::PageUp => 104,
        KeyCode::PageDown => 109,
        KeyCode::End => 107,
        KeyCode::Home => 102,
        KeyCode::ArrowLeft => 105,
        KeyCode::ArrowUp => 103,
        KeyCode::ArrowRight => 106,
        KeyCode::ArrowDown => 108,
        KeyCode::Insert => 110,
        KeyCode::Delete => 111,
        KeyCode::Digit0 => 11,
        KeyCode::Digit1 => 2,
        KeyCode::Digit2 => 3,
        KeyCode::Digit3 => 4,
        KeyCode::Digit4 => 5,
        KeyCode::Digit5 => 6,
        KeyCode::Digit6 => 7,
        KeyCode::Digit7 => 8,
        KeyCode::Digit8 => 9,
        KeyCode::Digit9 => 10,
        KeyCode::KeyA => 30,
        KeyCode::KeyB => 48,
        KeyCode::KeyC => 46,
        KeyCode::KeyD => 32,
        KeyCode::KeyE => 18,
        KeyCode::KeyF => 33,
        KeyCode::KeyG => 34,
        KeyCode::KeyH => 35,
        KeyCode::KeyI => 23,
        KeyCode::KeyJ => 36,
        KeyCode::KeyK => 37,
        KeyCode::KeyL => 38,
        KeyCode::KeyM => 50,
        KeyCode::KeyN => 49,
        KeyCode::KeyO => 24,
        KeyCode::KeyP => 25,
        KeyCode::KeyQ => 16,
        KeyCode::KeyR => 19,
        KeyCode::KeyS => 31,
        KeyCode::KeyT => 20,
        KeyCode::KeyU => 22,
        KeyCode::KeyV => 47,
        KeyCode::KeyW => 17,
        KeyCode::KeyX => 45,
        KeyCode::KeyY => 21,
        KeyCode::KeyZ => 44,
        KeyCode::F1 => 59,
        KeyCode::F2 => 60,
        KeyCode::F3 => 61,
        KeyCode::F4 => 62,
        KeyCode::F5 => 63,
        KeyCode::F6 => 64,
        KeyCode::F7 => 65,
        KeyCode::F8 => 66,
        KeyCode::F9 => 67,
        KeyCode::F10 => 68,
        KeyCode::F11 => 87,
        KeyCode::F12 => 88,
        KeyCode::Minus => 12,
        KeyCode::Equal => 13,
        KeyCode::BracketLeft => 26,
        KeyCode::BracketRight => 27,
        KeyCode::Backslash => 43,
        KeyCode::Semicolon => 39,
        KeyCode::Quote => 40,
        KeyCode::Comma => 51,
        KeyCode::Period => 52,
        KeyCode::Slash => 53,
        KeyCode::Backquote => 41,
        KeyCode::SuperLeft => 125,
        KeyCode::SuperRight => 126,
        KeyCode::ContextMenu => 127,
        KeyCode::Unknown => 0,
    }
}

/// Map a key position to its Linux input event code; 0 for unknown keys.
pub fn keycode_to_linux(code: &KeyCode) -> (r: u32)
    ensures
        r == linux_code(*code),
{
    match code {
        KeyCode::Backspace => 14,
        KeyCode::Tab => 15,
        KeyCode::Enter => 28,
        KeyCode::ShiftLeft => 42,
        KeyCode::ShiftRight => 54,
        KeyCode::ControlLeft => 29,
        KeyCode::ControlRight => 97,
        KeyCode::AltLeft => 56,
        KeyCode::AltRight => 100,
        KeyCode::CapsLock => 58,
        KeyCode::Escape => 1,
        KeyCode::Space => 57,
        KeyCode::PageUp => 104,
        KeyCode::PageDown => 109,
        KeyCode::End => 107,
        KeyCode::Home => 102,
        KeyCode::ArrowLeft => 105,
        KeyCode::ArrowUp => 103,
        KeyCode::ArrowRight => 106,
        KeyCode::ArrowDown => 108,
        KeyCode::Insert => 110,
        KeyCode::Delete => 111,
        KeyCode::Digit0 => 11,
        KeyCode::Digit1 => 2,
        KeyCode::Digit2 => 3,
        KeyCode::Digit3 => 4,
        KeyCode::Digit4 => 5,
        KeyCode::Digit5 => 6,
        KeyCode::Digit6 => 7,
        KeyCode::Digit7 => 8,
        KeyCode::Digit8 => 9,
        KeyCode::Digit9 => 10,
        KeyCode::KeyA => 30,
        KeyCode::KeyB => 48,
        KeyCode::KeyC => 46,
        KeyCode::KeyD => 32,
        KeyCode::KeyE => 18,
        KeyCode::KeyF => 33,
        KeyCode::KeyG => 34,
        KeyCode::KeyH => 35,
        KeyCode::KeyI => 23,
        KeyCode::KeyJ => 36,
        KeyCode::KeyK => 37,
        KeyCode::KeyL => 38,
        KeyCode::KeyM => 50,
        KeyCode::KeyN => 49,
        KeyCode::KeyO => 24,
        KeyCode::KeyP => 25,
        KeyCode::KeyQ => 16,
        KeyCode::KeyR => 19,
        KeyCode::KeyS => 31,
        KeyCode::KeyT => 20,
        KeyCode::KeyU => 22,
        KeyCode::KeyV => 47,
        KeyCode::KeyW => 17,
        KeyCode::KeyX => 45,
        KeyCode::KeyY => 21,
        KeyCode::KeyZ => 44,
        KeyCode::F1 => 59,
        KeyCode::F2 => 60,
        KeyCode::F3 => 61,
        KeyCode::F4 => 62,
        KeyCode::F5 => 63,
        KeyCode::F6 => 64,
        KeyCode::F7 => 65,
        KeyCode::F8 => 66,
        KeyCode::F9 => 67,
        KeyCode::F10 => 68,
        KeyCode::F11 => 87,
        KeyCode::F12 => 88,
        KeyCode::Minus => 12,
        KeyCode::Equal => 13,
        KeyCode::BracketLeft => 26,
        KeyCode::BracketRight => 27,
        KeyCode::Backslash => 43,
        KeyCode::Semicolon => 39,
        KeyCode::Quote => 40,
        KeyCode::Comma => 51,
        KeyCode::Period => 52,
        KeyCode::Slash => 53,
        KeyCode::Backquote => 41,
        KeyCode::SuperLeft => 125,
        KeyCode::SuperRight => 126,
        KeyCode::ContextMenu => 127,
        KeyCode::Unknown => 0,
    }
}

/// The modifier bit a key controls: shift 0x01, ctrl 0x02, alt 0x04,
/// super 0x08; 0 for other keys.
pub open spec fn modifier_bit(key: PhysicalKey) -> u8 {
    match key {
        PhysicalKey::Code(KeyCode::ShiftLeft) | PhysicalKey::Code(KeyCode::ShiftRight) => 0x01,
        PhysicalKey::Code(KeyCode::ControlLeft) | PhysicalKey::Code(KeyCode::ControlRight) => 0x02,
        PhysicalKey::Code(KeyCode::AltLeft) | PhysicalKey::Code(KeyCode::AltRight) => 0x04,
        PhysicalKey::Code(KeyCode::SuperLeft) | PhysicalKey::Code(KeyCode::SuperRight) => 0x08,
        _ => 0,
    }
}

/// The modifier state after `key` went down (`pressed`) or up.
pub open spec fn modifiers_after(modifiers: u8, key: PhysicalKey, pressed: bool) -> u8 {
    if modifier_bit(key) == 0 {
        modifiers
    } else if pressed {
        modifiers | modifier_bit(key)
    } else {
        modifiers & !modifier_bit(key)
    }
}

/// What pressing and releasing `key` does to modifier state `m`: pressing
/// sets exactly `bit`, releasing clears exactly `bit`.
pub open spec fn toggles(m: u8, key: PhysicalKey, bit: u8) -> bool {
    &&& modifiers_after(m, key, true) == m | bit
    &&& modifiers_after(m, key, false) == m & !bit
}

/// Each modifier key, left or right, sets and clears its own bit of the
/// modifier state and no other: shift 0x01, ctrl 0x02, alt 0x04, super
/// 0x08. Both keys of a pair act alike.
pub proof fn lemma_modifier_bits(m: u8)
    ensures
        toggles(m, PhysicalKey::Code(KeyCode::ShiftLeft), 0x01),
        toggles(m, PhysicalKey::Code(KeyCode::ShiftRight), 0x01),
        toggles(m, PhysicalKey::Code(KeyCode::ControlLeft), 0x02),
        toggles(m, PhysicalKey::Code(KeyCode::ControlRight), 0x02),
        toggles(m, PhysicalKey::Code(KeyCode::AltLeft), 0x04),
        toggles(m, PhysicalKey::Code(KeyCode::AltRight), 0x04),
        toggles(m, PhysicalKey::Code(KeyCode::SuperLeft), 0x08),
        toggles(m, PhysicalKey::Code(KeyCode::SuperRight), 0x08),
{
}

/// The Linux code of a physical key (0 for unidentified keys).
pub open spec fn physical_code(key: PhysicalKey) -> u32 {
    match key {
        PhysicalKey::Code(c) => linux_code(c),
        PhysicalKey::Unidentified => 0,
    }
}

/// The wire number of a mouse button: left 1, right 2, middle 3, back 4,
/// forward 5, other buttons `n + 5`.
pub open spec fn button_number(button: MouseButton) -> u8 {
    match button {
        MouseButton::Left => 1,
        MouseButton::Right => 2,
        MouseButton::Middle => 3,
        MouseButton::Back => 4,
        MouseButton::Forward => 5,
        MouseButton::Other(n) => ((n as u8) + 5) as u8,
    }
}

/// Input capture state for a window: the channel its events go out on
/// (the caller sends each event a handler returns) and the current
/// modifier bits.
#[derive(Debug)]
pub struct InputCapture {
    /// Channel for sending input events.
    pub event_sender: Option<Sender<WindowInputEvent>>,
    /// Current modifier state.
    pub modifiers: u8,
}

impl InputCapture {
    /// No channel, no modifiers held.
    pub fn new() -> (c: Self)
        ensures
            c.modifiers == 0,
            c.event_sender is None,
    {
        Self { event_sender: None, modifiers: 0 }
    }

    /// Set the channel events are sent on.
    pub fn set_sender(&mut self, sender: Sender<WindowInputEvent>)
        ensures
            final(self).event_sender is Some,
            final(self).modifiers == old(self).modifiers,
    {
        self.event_sender = Some(sender);
    }

    /// A key went down or up: the modifier state is updated first, then the
    /// key event carrying the key's Linux code and the new modifiers is
    /// returned, for the caller to send on the channel.
    pub fn handle_keyboard_input(&mut self, window_id: u32, key: &PhysicalKey, state: ElementState) -> (sent: WindowInputEvent)
        ensures
            final(self).modifiers == modifiers_after(old(self).modifiers, *key, state == ElementState::Pressed),
            sent.window_id == window_id,
            sent.event == (if state == ElementState::Pressed {
                ViewerInputEvent::KeyPress { key_code: physical_code(*key), modifiers: final(self).modifiers }
            } else {
                ViewerInputEvent::KeyRelease { key_code: physical_code(*key), modifiers: final(self).modifiers }
            }),
    {
        let key_code = self.winit_key_to_linux_code(key);
        let pressed = match state {
            ElementState::Pressed => true,
            ElementState::Released => false,
        };
        self.update_modifiers(key, pressed);
        let event = match state {
            ElementState::Pressed => ViewerInputEvent::KeyPress { key_code, modifiers: self.modifiers },
            ElementState::Released => ViewerInputEvent::KeyRelease { key_code, modifiers: self.modifiers },
        };
        WindowInputEvent { window_id, event }
    }

    /// The pointer moved to `(x, y)` in window coordinates: the event to
    /// send.
    pub fn handle_mouse_move(&mut self, window_id: u32, x: i32, y: i32) -> (sent: WindowInputEvent)
        ensures
            sent == (WindowInputEvent { window_id, event: ViewerInputEvent::MouseMove { x, y } }),
            final(self).modifiers == old(self).modifiers,
    {
        let event = ViewerInputEvent::MouseMove { x, y };
        WindowInputEvent { window_id, event }
    }

    /// A mouse button went down or up: the event to send.
    pub fn handle_mouse_button(&mut self, window_id: u32, state: ElementState, button: MouseButton) -> (sent: WindowInputEvent)
        requires
            button matches MouseButton::Other(n) ==> (n as u8) <= 250,
        ensures
            final(self).modifiers == old(self).modifiers,
            sent == (WindowInputEvent {
                window_id,
                event: if state == ElementState::Pressed {
                    ViewerInputEvent::MouseButtonPress { button: button_number(button) }
                } else {
                    ViewerInputEvent::MouseButtonRelease { button: button_number(button) }
                },
            }),
    {
        let button_num: u8 = match button {
            MouseButton::Left => 1,
            MouseButton::Right => 2,
            MouseButton::Middle => 3,
            MouseButton::Back => 4,
            MouseButton::Forward => 5,
            MouseButton::Other(n) => n as u8 + 5,
        };
        let event = match state {
            ElementState::Pressed => ViewerInputEvent::MouseButtonPress { button: button_num },
            ElementState::Released => ViewerInputEvent::MouseButtonRelease { button: button_num },
        };
        WindowInputEvent { window_id, event }
    }

    /// The wheel turned by `(horizontal, vertical)` ticks: the event to
    /// send.
    pub fn handle_mouse_wheel(&mut self, window_id: u32, horizontal: i32, vertical: i32) -> (sent: WindowInputEvent)
        ensures
            final(self).modifiers == old(self).modifiers,
            sent == (WindowInputEvent {
                window_id,
                event: ViewerInputEvent::MouseScroll { horizontal, vertical },
            }),
    {
        let event = ViewerInputEvent::MouseScroll { horizontal, vertical };
        WindowInputEvent { window_id, event }
    }

    /// Set or clear the modifier bit a key controls.
    pub fn update_modifiers(&mut self, key: &PhysicalKey, pressed: bool)
        ensures
            final(self).modifiers == modifiers_after(old(self).modifiers, *key, pressed),
            final(self).event_sender == old(self).event_sender,
    {
        let modifier_bit: u8 = match key {
            PhysicalKey::Code(KeyCode::ShiftLeft) | PhysicalKey::Code(KeyCode::ShiftRight) => 0x01,
            PhysicalKey::Code(KeyCode::ControlLeft) | PhysicalKey::Code(KeyCode::ControlRight) => 0x02,
            PhysicalKey::Code(KeyCode::AltLeft) | PhysicalKey::Code(KeyCode::AltRight) => 0x04,
            PhysicalKey::Code(KeyCode::SuperLeft) | PhysicalKey::Code(KeyCode::SuperRight) => 0x08,
            _ => {
                return;
            },
        };
        if pressed {
            self.modifiers = self.modifiers | modifier_bit;
        } else {
            self.modifiers = self.modifiers & !modifier_bit;
        }
    }

    /// The Linux code of a physical key (0 for unidentified keys).
    pub fn winit_key_to_linux_code(&self, key: &PhysicalKey) -> (r: u32)
        ensures
            r == physical_code(*key),
    {
        match key {
            PhysicalKey::Code(code) => keycode_to_linux(code),
            PhysicalKey::Unidentified => 0,
        }
    }
}

impl Default for InputCapture {
    fn default() -> (c: Self)
        ensures
            c.modifiers == 0,
            c.event_sender is None,
    {
        Self::new()
    }
}

/// The compositor-side event a viewer event stands for.
pub open spec fn as_server_event(e: WindowInputEvent) -> ServerWindowInputEvent {
    ServerWindowInputEvent {
        window_id: e.window_id,
        event: match e.event {
            ViewerInputEvent::KeyPress { key_code, modifiers } => ServerInputEvent::KeyPress(
                KeyEvent { key_code, modifiers },
            ),
            ViewerInputEvent::KeyRelease { key_code, modifiers } => ServerInputEvent::KeyRelease(
                KeyEvent { key_code, modifiers },
            ),
            ViewerInputEvent::MouseMove { x, y } => ServerInputEvent::MouseMove(MouseMoveEvent { x, y }),
            ViewerInputEvent::MouseButtonPress { button } => ServerInputEvent::MouseButtonPress(
                MouseButtonEvent { button },
            ),
            ViewerInputEvent::MouseButtonRelease { button } => ServerInputEvent::MouseButtonRelease(
                MouseButtonEvent { button },
            ),
            ViewerInputEvent::MouseScroll { horizontal, vertical } => ServerInputEvent::MouseScroll(
                MouseScrollEvent { horizontal, vertical },
            ),
        },
    }
}

/// Encode an event for the compositor: exactly the bytes the compositor's
/// own encoder writes for the event it stands for.
pub fn encode_input_event(event: &WindowInputEvent) -> (buf: Vec<u8>)
    ensures
        buf@ == window_input_bytes(as_server_event(*event)),
{
    let mut buf: Vec<u8> = Vec::with_capacity(16);
    let event_type: u8 = match &event.event {
        ViewerInputEvent::KeyPress { .. } => 0x01,
        ViewerInputEvent::KeyRelease { .. } => 0x02,
        ViewerInputEvent::MouseMove { .. } => 0x03,
        ViewerInputEvent::MouseButtonPress { .. } => 0x04,
        ViewerInputEvent::MouseButtonRelease { .. } => 0x05,
        ViewerInputEvent::MouseScroll { .. } => 0x06,
    };
    buf.push(event_type);
    push_be_u32(event.window_id, &mut buf);
    let ghost head = buf@;
    match &event.event {
        ViewerInputEvent::KeyPress { key_code, modifiers } | ViewerInputEvent::KeyRelease {
            key_code,
            modifiers,
        } => {
            push_be_u32(*key_code, &mut buf);
            buf.push(*modifiers);
        },
        ViewerInputEvent::MouseMove { x, y } => {
            push_be_u32(*x as u32, &mut buf);
            push_be_u32(*y as u32, &mut buf);
        },
        ViewerInputEvent::MouseButtonPress { button } | ViewerInputEvent::MouseButtonRelease { button } => {
            buf.push(*button);
        },
        ViewerInputEvent::MouseScroll { horizontal, vertical } => {
            push_be_u32(*horizontal as u32, &mut buf);
            push_be_u32(*vertical as u32, &mut buf);
        },
    }
    assert(buf@ =~= window_input_bytes(as_server_event(*event)));
    buf
}

/// What the viewer sends for an event, the compositor decodes back to the
/// event it stands for, consuming exactly the bytes that were sent.
pub proof fn lemma_viewer_event_reaches_compositor(e: WindowInputEvent, rest: Seq<u8>)
    ensures
        decode_window_input(window_input_bytes(as_server_event(e)) + rest) == Some(
            (as_server_event(e), window_input_bytes(as_server_event(e)).len() as usize),
        ),
{
    lemma_window_input_roundtrip(as_server_event(e), rest);
}

} // verus!

