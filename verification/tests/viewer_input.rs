//! Viewer input: Win32 message decoding, key codes, modifier tracking and
//! the encoding of input events for the compositor.

use std::sync::mpsc;

use wayland_remote::protocol::message::{ButtonState, InputEvent};
use wayland_remote::server::streaming::input::{
    InputEvent as ServerInputEvent, KeyEvent, MouseMoveEvent, WindowInputEvent as ServerWindowInputEvent,
};
use wayland_remote::viewer::input::{
    encode_input_event, extract_scancode, key_event, keycode_to_linux, pointer_button, pointer_position,
    scroll_axis, wheel_delta, ElementState, InputCapture, KeyCode, MouseButton, PhysicalKey, ScrollAxis,
    ViewerInputEvent, WindowInputEvent,
};

#[test]
fn scancode_extraction() {
    let lparam = (0x1Eu32 << 16) as usize;
    let (sc, ext) = extract_scancode(lparam);
    assert_eq!(sc, 0x1E);
    assert!(!ext);

    let lparam = ((0x1Du32 << 16) | (1 << 24)) as usize;
    let (sc, ext) = extract_scancode(lparam);
    assert_eq!(sc, 0x1D);
    assert!(ext);
}

#[test]
fn button_mapping() {
    let result = pointer_button(0x0201, 0);
    assert_eq!(result, Some((0x110, ButtonState::Pressed)));

    let result = pointer_button(0x0202, 0);
    assert_eq!(result, Some((0x110, ButtonState::Released)));

    let result = pointer_button(0x0204, 0);
    assert_eq!(result, Some((0x111, ButtonState::Pressed)));

    let result = pointer_button(0x0207, 0);
    assert_eq!(result, Some((0x112, ButtonState::Pressed)));

    assert_eq!(pointer_button(0x0200, 0), None);
}

#[test]
fn x_buttons_follow_wparam_high_word() {
    assert_eq!(pointer_button(0x020B, 1 << 16), Some((0x113, ButtonState::Pressed)));
    assert_eq!(pointer_button(0x020C, 2 << 16), Some((0x114, ButtonState::Released)));
    assert_eq!(pointer_button(0x020B, 3 << 16), None);
}

#[test]
fn scroll_direction() {
    // The wheel delta is read from the high word of wParam; a vertical wheel
    // turned up (positive delta) scrolls toward negative dy.
    assert_eq!(scroll_axis(0x020A), Some(ScrollAxis::Vertical));
    assert_eq!(wheel_delta((120u32 << 16) as usize), 120);
    assert_eq!(wheel_delta(((-120i16 as u16 as u32) << 16) as usize), -120);
    assert_eq!(scroll_axis(0x020E), Some(ScrollAxis::Horizontal));
    assert_eq!(scroll_axis(0x0200), None);
}

#[test]
fn key_event_construction() {
    let ev = key_event(0x1E, false, true);
    assert!(matches!(ev, InputEvent::KeyDown { scancode: 0x1E }));

    let ev = key_event(0x1E, false, false);
    assert!(matches!(ev, InputEvent::KeyUp { scancode: 0x1E }));

    let ev = key_event(0x1D, true, true);
    assert!(matches!(ev, InputEvent::KeyDown { scancode: 0x11D }));
}

#[test]
fn pointer_position_words() {
    assert_eq!(pointer_position((200 << 16) | 100), (100, 200));
    assert_eq!(pointer_position(-1), (0xFFFF, 0xFFFF));
}

#[test]
fn test_input_capture_new() {
    let capture = InputCapture::new();
    assert_eq!(capture.modifiers, 0);
    assert!(capture.event_sender.is_none());
}

#[test]
fn test_keycode_to_linux() {
    assert_eq!(keycode_to_linux(&KeyCode::KeyA), 30);
    assert_eq!(keycode_to_linux(&KeyCode::KeyZ), 44);
    assert_eq!(keycode_to_linux(&KeyCode::Space), 57);
    assert_eq!(keycode_to_linux(&KeyCode::Enter), 28);
    assert_eq!(keycode_to_linux(&KeyCode::Escape), 1);
    assert_eq!(keycode_to_linux(&KeyCode::ArrowUp), 103);
    assert_eq!(keycode_to_linux(&KeyCode::Digit1), 2);
    assert_eq!(keycode_to_linux(&KeyCode::F1), 59);
    assert_eq!(keycode_to_linux(&KeyCode::Unknown), 0);
}

#[test]
fn test_encode_key_press() {
    let event = WindowInputEvent { window_id: 42, event: ViewerInputEvent::KeyPress { key_code: 30, modifiers: 0x01 } };

    let encoded = encode_input_event(&event);

    assert_eq!(encoded[0], 0x01);
    assert_eq!(u32::from_be_bytes([encoded[1], encoded[2], encoded[3], encoded[4]]), 42);
    assert_eq!(u32::from_be_bytes([encoded[5], encoded[6], encoded[7], encoded[8]]), 30);
    assert_eq!(encoded[9], 0x01);
}

#[test]
fn test_encode_key_release() {
    let event = WindowInputEvent { window_id: 1, event: ViewerInputEvent::KeyRelease { key_code: 57, modifiers: 0 } };

    let encoded = encode_input_event(&event);
    assert_eq!(encoded[0], 0x02);
}

#[test]
fn test_encode_mouse_move() {
    let event = WindowInputEvent { window_id: 100, event: ViewerInputEvent::MouseMove { x: -50, y: 200 } };

    let encoded = encode_input_event(&event);

    assert_eq!(encoded[0], 0x03);
    assert_eq!(u32::from_be_bytes([encoded[1], encoded[2], encoded[3], encoded[4]]), 100);
    assert_eq!(i32::from_be_bytes([encoded[5], encoded[6], encoded[7], encoded[8]]), -50);
    assert_eq!(i32::from_be_bytes([encoded[9], encoded[10], encoded[11], encoded[12]]), 200);
}

#[test]
fn test_encode_mouse_button() {
    let press = WindowInputEvent { window_id: 1, event: ViewerInputEvent::MouseButtonPress { button: 1 } };

    let encoded = encode_input_event(&press);
    assert_eq!(encoded[0], 0x04);
    assert_eq!(encoded[5], 1);

    let release = WindowInputEvent { window_id: 1, event: ViewerInputEvent::MouseButtonRelease { button: 2 } };

    let encoded = encode_input_event(&release);
    assert_eq!(encoded[0], 0x05);
    assert_eq!(encoded[5], 2);
}

#[test]
fn test_encode_mouse_scroll() {
    let event = WindowInputEvent { window_id: 5, event: ViewerInputEvent::MouseScroll { horizontal: -3, vertical: 5 } };

    let encoded = encode_input_event(&event);

    assert_eq!(encoded[0], 0x06);
    assert_eq!(u32::from_be_bytes([encoded[1], encoded[2], encoded[3], encoded[4]]), 5);
    assert_eq!(i32::from_be_bytes([encoded[5], encoded[6], encoded[7], encoded[8]]), -3);
    assert_eq!(i32::from_be_bytes([encoded[9], encoded[10], encoded[11], encoded[12]]), 5);
}

#[test]
fn test_modifier_tracking() {
    let mut capture = InputCapture::new();

    assert_eq!(capture.modifiers, 0);

    capture.update_modifiers(&PhysicalKey::Code(KeyCode::ShiftLeft), true);
    assert_eq!(capture.modifiers, 0x01);

    capture.update_modifiers(&PhysicalKey::Code(KeyCode::ControlLeft), true);
    assert_eq!(capture.modifiers, 0x03);

    capture.update_modifiers(&PhysicalKey::Code(KeyCode::ShiftLeft), false);
    assert_eq!(capture.modifiers, 0x02);

    capture.update_modifiers(&PhysicalKey::Code(KeyCode::ControlLeft), false);
    assert_eq!(capture.modifiers, 0);
}

/// Send a handler's event on the capture's channel, as the viewer does.
fn send(capture: &InputCapture, event: WindowInputEvent) {
    capture.event_sender.as_ref().unwrap().send(event).unwrap();
}

#[test]
fn test_mouse_button_mapping() {
    let mut capture = InputCapture::new();
    let (tx, rx) = mpsc::channel();
    capture.set_sender(tx);

    let sent = capture.handle_mouse_button(1, ElementState::Pressed, MouseButton::Left);
    send(&capture, sent);
    let event = rx.recv().unwrap();
    assert_eq!(event.event, ViewerInputEvent::MouseButtonPress { button: 1 });

    let sent = capture.handle_mouse_button(1, ElementState::Released, MouseButton::Right);
    send(&capture, sent);
    let event = rx.recv().unwrap();
    assert_eq!(event.event, ViewerInputEvent::MouseButtonRelease { button: 2 });

    let sent = capture.handle_mouse_button(1, ElementState::Pressed, MouseButton::Middle);
    send(&capture, sent);
    let event = rx.recv().unwrap();
    assert_eq!(event.event, ViewerInputEvent::MouseButtonPress { button: 3 });
}

#[test]
fn mod_test_default_implementation() {
    let capture: InputCapture = Default::default();
    assert_eq!(capture.modifiers, 0);
}

#[test]
fn keyboard_input_carries_updated_modifiers() {
    let mut capture = InputCapture::new();
    let (tx, rx) = mpsc::channel();
    capture.set_sender(tx);
    let alt = capture.handle_keyboard_input(9, &PhysicalKey::Code(KeyCode::AltLeft), ElementState::Pressed);
    send(&capture, alt);
    let sent = capture.handle_keyboard_input(9, &PhysicalKey::Code(KeyCode::KeyQ), ElementState::Pressed);
    send(&capture, sent);
    assert_eq!(sent.event, ViewerInputEvent::KeyPress { key_code: 16, modifiers: 0x04 });
    assert_eq!(rx.recv().unwrap().event, ViewerInputEvent::KeyPress { key_code: 56, modifiers: 0x04 });
    assert_eq!(rx.recv().unwrap(), sent);
    let up = capture.handle_keyboard_input(9, &PhysicalKey::Unidentified, ElementState::Released);
    assert_eq!(up.event, ViewerInputEvent::KeyRelease { key_code: 0, modifiers: 0x04 });
    let other = capture.handle_mouse_button(2, ElementState::Pressed, MouseButton::Other(3));
    assert_eq!(other.event, ViewerInputEvent::MouseButtonPress { button: 8 });
}

#[test]
fn viewer_encoding_decodes_on_the_compositor() {
    let event = WindowInputEvent { window_id: 77, event: ViewerInputEvent::KeyPress { key_code: 30, modifiers: 2 } };
    let bytes = encode_input_event(&event);
    let (decoded, size) = ServerWindowInputEvent::decode(&bytes).unwrap();
    assert_eq!(size, bytes.len());
    assert_eq!(
        decoded,
        ServerWindowInputEvent { window_id: 77, event: ServerInputEvent::KeyPress(KeyEvent { key_code: 30, modifiers: 2 }) }
    );
    let moved = WindowInputEvent { window_id: 1, event: ViewerInputEvent::MouseMove { x: -7, y: 8 } };
    let (decoded, _) = ServerWindowInputEvent::decode(&encode_input_event(&moved)).unwrap();
    assert_eq!(decoded.event, ServerInputEvent::MouseMove(MouseMoveEvent { x: -7, y: 8 }));
}
