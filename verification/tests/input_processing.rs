//! Window↔surface registration for input routing, key code mappings, and
//! the bidirectional input flow.

use wayland_remote::server::handlers::input::keycodes::modifiers::{ALT, CTRL, SHIFT, SUPER};
use wayland_remote::server::handlers::input::keycodes::{
    vk_to_linux, KEY_A, KEY_ENTER, KEY_ESC, KEY_F1, KEY_F10, KEY_SPACE, KEY_UP,
};
use wayland_remote::server::handlers::input::InputProcessor;
use wayland_remote::server::input::keymap::scancode_to_keycode;
use wayland_remote::server::streaming::input::{
    InputEvent, InputEventHandler, InputEventType, KeyEvent, MouseButtonEvent, MouseMoveEvent, MouseScrollEvent,
    WindowInputEvent, EVENT_HEADER_SIZE,
};
use bytes::BytesMut;

/// Stand-in for a surface object id that is not backed by a live client.
const NULL_SURFACE: u64 = 0;

#[test]
fn test_input_processor_new() {
    let processor = InputProcessor::new();
    assert_eq!(processor.window_count(), 0);
}

#[test]
fn test_register_window() {
    let mut processor = InputProcessor::new();
    let surface_id = NULL_SURFACE;

    processor.register_window(1, surface_id);
    assert_eq!(processor.window_count(), 1);
    assert!(processor.has_window(1));
    assert_eq!(processor.get_surface(1), Some(surface_id));
}

#[test]
fn test_unregister_window() {
    let mut processor = InputProcessor::new();
    processor.register_window(1, NULL_SURFACE);
    processor.unregister_window(1);
    assert_eq!(processor.window_count(), 0);
    assert!(!processor.has_window(1));
}

#[test]
fn test_unregister_surface() {
    let mut processor = InputProcessor::new();
    processor.register_window(1, NULL_SURFACE);
    processor.unregister_surface(NULL_SURFACE);
    assert_eq!(processor.window_count(), 0);
}

#[test]
fn test_reverse_lookup() {
    let mut processor = InputProcessor::new();
    processor.register_window(42, NULL_SURFACE);
    assert_eq!(processor.get_window_id(NULL_SURFACE), Some(42));
}

#[test]
fn test_multiple_windows() {
    let mut processor = InputProcessor::new();
    processor.register_window(1, NULL_SURFACE);
    processor.register_window(2, NULL_SURFACE);
    processor.register_window(3, NULL_SURFACE);

    assert_eq!(processor.window_count(), 3);
    assert!(processor.has_window(1));
    assert!(processor.has_window(2));
    assert!(processor.has_window(3));

    processor.unregister_window(2);
    assert_eq!(processor.window_count(), 2);
    assert!(!processor.has_window(2));
}

#[test]
fn test_handle_event_unregistered_window() {
    let mut processor = InputProcessor::new();
    let event = InputEvent::KeyPress(KeyEvent { key_code: 30, modifiers: 0 });
    processor.handle_input_event(999, event);
    assert!(!processor.accept_input_event(999, &event));
}

#[test]
fn test_handle_key_press() {
    let mut processor = InputProcessor::new();
    processor.register_window(1, NULL_SURFACE);
    let event = InputEvent::KeyPress(KeyEvent { key_code: 30, modifiers: 0x01 });
    processor.handle_input_event(1, event);
    assert!(processor.accept_input_event(1, &event));
}

#[test]
fn test_handle_mouse_move() {
    let mut processor = InputProcessor::new();
    processor.register_window(1, NULL_SURFACE);
    let event = InputEvent::MouseMove(MouseMoveEvent { x: 100, y: 200 });
    processor.handle_input_event(1, event);
}

#[test]
fn test_handle_mouse_button() {
    let mut processor = InputProcessor::new();
    processor.register_window(1, NULL_SURFACE);
    let press = InputEvent::MouseButtonPress(MouseButtonEvent { button: 1 });
    let release = InputEvent::MouseButtonRelease(MouseButtonEvent { button: 1 });
    processor.handle_input_event(1, press);
    processor.handle_input_event(1, release);
}

#[test]
fn test_handle_mouse_scroll() {
    let mut processor = InputProcessor::new();
    processor.register_window(1, NULL_SURFACE);
    let event = InputEvent::MouseScroll(MouseScrollEvent { horizontal: 0, vertical: -3 });
    processor.handle_input_event(1, event);
}

#[test]
fn test_keycode_mapping() {
    assert_eq!(vk_to_linux(0x41), Some(KEY_A));
    assert_eq!(vk_to_linux(0x20), Some(KEY_SPACE));
    assert_eq!(vk_to_linux(0x0D), Some(KEY_ENTER));
    assert_eq!(vk_to_linux(0x1B), Some(KEY_ESC));
    assert_eq!(vk_to_linux(0x26), Some(KEY_UP));
    assert_eq!(vk_to_linux(0x70), Some(KEY_F1));
    assert_eq!(vk_to_linux(0x79), Some(KEY_F10));
}

#[test]
fn test_keycode_mapping_unknown() {
    assert_eq!(vk_to_linux(0xFFFF), None);
}

#[test]
fn input_test_default_implementation() {
    let processor: InputProcessor = Default::default();
    assert_eq!(processor.window_count(), 0);
}

#[test]
fn non_extended_scancode_identity() {
    assert_eq!(scancode_to_keycode(0x1E), Some(30));
}

#[test]
fn extended_left_arrow_maps_to_key_left() {
    assert_eq!(scancode_to_keycode(0x100 | 0x4B), Some(105));
}

#[test]
fn unmapped_extended_scancode_returns_none() {
    assert_eq!(scancode_to_keycode(0x100 | 0x99), None);
}

#[test]
fn extended_table_entries() {
    assert_eq!(scancode_to_keycode(0x11C), Some(96));
    assert_eq!(scancode_to_keycode(0x11D), Some(97));
    assert_eq!(scancode_to_keycode(0x153), Some(111));
    assert_eq!(scancode_to_keycode(0xFF), Some(0xFF));
    // Only the low byte of an extended scancode is looked up.
    assert_eq!(scancode_to_keycode(0x24B), Some(105));
}

#[test]
fn registration_maps_both_ways_and_unregisters_both() {
    let mut processor = InputProcessor::new();
    processor.register_window(7, 70);
    processor.register_window(8, 80);
    assert_eq!(processor.get_surface(8), Some(80));
    assert_eq!(processor.get_window_id(70), Some(7));
    processor.unregister_surface(70);
    assert!(!processor.has_window(7));
    assert_eq!(processor.get_window_id(70), None);
    processor.unregister_window(8);
    assert_eq!(processor.get_surface(8), None);
    assert_eq!(processor.get_window_id(80), None);
    processor.unregister_window(8);
    assert_eq!(processor.window_count(), 0);
}

#[test]
fn test_input_event_types_available() {
    assert_eq!(InputEventType::KeyPress.as_u8(), 0x01);
    assert_eq!(InputEventType::KeyRelease.as_u8(), 0x02);
    assert_eq!(InputEventType::MouseMove.as_u8(), 0x03);
    assert_eq!(InputEventType::MouseButtonPress.as_u8(), 0x04);
    assert_eq!(InputEventType::MouseButtonRelease.as_u8(), 0x05);
    assert_eq!(InputEventType::MouseScroll.as_u8(), 0x06);
}

#[test]
fn test_bidirectional_input_test_event_type_from_u8() {
    assert_eq!(InputEventType::from_u8(0x01), Some(InputEventType::KeyPress));
    assert_eq!(InputEventType::from_u8(0x02), Some(InputEventType::KeyRelease));
    assert_eq!(InputEventType::from_u8(0x03), Some(InputEventType::MouseMove));
    assert_eq!(InputEventType::from_u8(0x04), Some(InputEventType::MouseButtonPress));
    assert_eq!(InputEventType::from_u8(0x05), Some(InputEventType::MouseButtonRelease));
    assert_eq!(InputEventType::from_u8(0x06), Some(InputEventType::MouseScroll));
    assert_eq!(InputEventType::from_u8(0xFF), None);
    assert_eq!(InputEventType::from_u8(0x00), None);
}

#[test]
fn test_key_event_structure() {
    let event = KeyEvent { key_code: 30, modifiers: 0x01 };
    assert_eq!(event.key_code, 30);
    assert_eq!(event.modifiers, 0x01);
    assert_eq!(KeyEvent::ENCODED_SIZE, 5);
}

#[test]
fn test_bidirectional_input_test_key_event_encode_decode() {
    let event = KeyEvent { key_code: 0x12345678, modifiers: 0xAB };
    let mut buf = BytesMut::with_capacity(KeyEvent::ENCODED_SIZE);
    event.encode(&mut buf);
    let mut decode_buf = buf.clone();
    let decoded = KeyEvent::decode(&mut decode_buf).unwrap();
    assert_eq!(event, decoded);
}

#[test]
fn test_mouse_move_event_structure() {
    let event = MouseMoveEvent { x: 100, y: 200 };
    assert_eq!(event.x, 100);
    assert_eq!(event.y, 200);
    assert_eq!(MouseMoveEvent::ENCODED_SIZE, 8);
}

#[test]
fn test_bidirectional_input_test_mouse_move_event_negative_coordinates() {
    let event = MouseMoveEvent { x: -500, y: -300 };
    let mut buf = BytesMut::with_capacity(MouseMoveEvent::ENCODED_SIZE);
    event.encode(&mut buf);
    let mut decode_buf = buf.clone();
    let decoded = MouseMoveEvent::decode(&mut decode_buf).unwrap();
    assert_eq!(event.x, decoded.x);
    assert_eq!(event.y, decoded.y);
}

#[test]
fn test_mouse_button_event_structure() {
    let event = MouseButtonEvent { button: 1 };
    assert_eq!(event.button, 1);
    assert_eq!(MouseButtonEvent::ENCODED_SIZE, 1);
}

#[test]
fn test_bidirectional_input_test_mouse_button_event_encode_decode() {
    let event = MouseButtonEvent { button: 3 };
    let mut buf = BytesMut::with_capacity(MouseButtonEvent::ENCODED_SIZE);
    event.encode(&mut buf);
    let mut decode_buf = buf.clone();
    let decoded = MouseButtonEvent::decode(&mut decode_buf).unwrap();
    assert_eq!(event, decoded);
}

#[test]
fn test_mouse_scroll_event_structure() {
    let event = MouseScrollEvent { horizontal: -3, vertical: 5 };
    assert_eq!(event.horizontal, -3);
    assert_eq!(event.vertical, 5);
    assert_eq!(MouseScrollEvent::ENCODED_SIZE, 8);
}

#[test]
fn test_bidirectional_input_test_mouse_scroll_event_encode_decode() {
    let event = MouseScrollEvent { horizontal: -10, vertical: 20 };
    let mut buf = BytesMut::with_capacity(MouseScrollEvent::ENCODED_SIZE);
    event.encode(&mut buf);
    let mut decode_buf = buf.clone();
    let decoded = MouseScrollEvent::decode(&mut decode_buf).unwrap();
    assert_eq!(event, decoded);
}

#[test]
fn test_window_input_event_key_press() {
    let event = WindowInputEvent { window_id: 42, event: InputEvent::KeyPress(KeyEvent { key_code: 30, modifiers: 0x01 }) };
    let encoded = event.encode();
    let (decoded, size) = WindowInputEvent::decode(&encoded).unwrap();
    assert_eq!(event.window_id, decoded.window_id);
    assert_eq!(event.event, decoded.event);
    assert_eq!(size, EVENT_HEADER_SIZE + 5);
}

#[test]
fn test_window_input_event_mouse_move() {
    let event = WindowInputEvent { window_id: 100, event: InputEvent::MouseMove(MouseMoveEvent { x: 500, y: 300 }) };
    let encoded = event.encode();
    let (decoded, size) = WindowInputEvent::decode(&encoded).unwrap();
    assert_eq!(event.window_id, decoded.window_id);
    assert_eq!(event.event, decoded.event);
    assert_eq!(size, EVENT_HEADER_SIZE + 8);
}

#[test]
fn test_window_input_event_mouse_button() {
    let press = WindowInputEvent { window_id: 1, event: InputEvent::MouseButtonPress(MouseButtonEvent { button: 1 }) };
    let encoded = press.encode();
    let (decoded, size) = WindowInputEvent::decode(&encoded).unwrap();
    assert_eq!(press.window_id, decoded.window_id);
    assert_eq!(press.event, decoded.event);
    assert_eq!(size, EVENT_HEADER_SIZE + 1);

    let release =
        WindowInputEvent { window_id: 1, event: InputEvent::MouseButtonRelease(MouseButtonEvent { button: 2 }) };
    let encoded = release.encode();
    let (decoded, _) = WindowInputEvent::decode(&encoded).unwrap();
    assert_eq!(release.event, decoded.event);
}

#[test]
fn test_window_input_event_mouse_scroll() {
    let event =
        WindowInputEvent { window_id: 5, event: InputEvent::MouseScroll(MouseScrollEvent { horizontal: 0, vertical: -3 }) };
    let encoded = event.encode();
    let (decoded, size) = WindowInputEvent::decode(&encoded).unwrap();
    assert_eq!(event.window_id, decoded.window_id);
    assert_eq!(event.event, decoded.event);
    assert_eq!(size, EVENT_HEADER_SIZE + 8);
}

#[test]
fn test_bidirectional_input_test_all_event_types_roundtrip() {
    let events = vec![
        WindowInputEvent { window_id: 1, event: InputEvent::KeyPress(KeyEvent { key_code: 30, modifiers: 0 }) },
        WindowInputEvent { window_id: 1, event: InputEvent::KeyRelease(KeyEvent { key_code: 30, modifiers: 0 }) },
        WindowInputEvent { window_id: 2, event: InputEvent::MouseMove(MouseMoveEvent { x: 100, y: 200 }) },
        WindowInputEvent { window_id: 2, event: InputEvent::MouseButtonPress(MouseButtonEvent { button: 1 }) },
        WindowInputEvent { window_id: 2, event: InputEvent::MouseButtonRelease(MouseButtonEvent { button: 1 }) },
        WindowInputEvent { window_id: 3, event: InputEvent::MouseScroll(MouseScrollEvent { horizontal: 0, vertical: 1 }) },
    ];
    for event in events {
        let encoded = event.encode();
        let (decoded, _) = WindowInputEvent::decode(&encoded).unwrap();
        assert_eq!(event, decoded, "Event roundtrip failed");
    }
}

#[test]
fn test_bidirectional_input_test_decode_insufficient_header() {
    let buf = vec![0x01, 0x00, 0x00];
    assert!(WindowInputEvent::decode(&buf).is_none());
}

#[test]
fn test_bidirectional_input_test_decode_invalid_event_type() {
    let buf = vec![0xFF, 0x00, 0x00, 0x00, 0x01];
    assert!(WindowInputEvent::decode(&buf).is_none());
}

#[test]
fn test_bidirectional_input_test_big_endian_encoding() {
    let event = WindowInputEvent { window_id: 0x12345678, event: InputEvent::MouseMove(MouseMoveEvent { x: 0, y: 0 }) };
    let encoded = event.encode();
    assert_eq!(encoded[1], 0x12);
    assert_eq!(encoded[2], 0x34);
    assert_eq!(encoded[3], 0x56);
    assert_eq!(encoded[4], 0x78);
}

#[test]
fn test_input_processor_structure() {
    let processor = InputProcessor::new();
    assert_eq!(processor.window_count(), 0);
}

#[test]
fn test_input_processor_register_window() {
    let mut processor = InputProcessor::new();
    let surface_id = NULL_SURFACE;
    processor.register_window(1, surface_id);
    assert_eq!(processor.window_count(), 1);
    assert!(processor.has_window(1));
    assert_eq!(processor.get_surface(1), Some(surface_id));
}

#[test]
fn test_input_processor_unregister_window() {
    let mut processor = InputProcessor::new();
    processor.register_window(1, NULL_SURFACE);
    processor.unregister_window(1);
    assert_eq!(processor.window_count(), 0);
    assert!(!processor.has_window(1));
}

#[test]
fn test_input_processor_unregister_surface() {
    let mut processor = InputProcessor::new();
    processor.register_window(1, NULL_SURFACE);
    processor.unregister_surface(NULL_SURFACE);
    assert_eq!(processor.window_count(), 0);
}

#[test]
fn test_input_processor_reverse_lookup() {
    let mut processor = InputProcessor::new();
    processor.register_window(42, NULL_SURFACE);
    assert_eq!(processor.get_window_id(NULL_SURFACE), Some(42));
}

#[test]
fn test_input_processor_multiple_windows() {
    let mut processor = InputProcessor::new();
    processor.register_window(1, NULL_SURFACE);
    processor.register_window(2, NULL_SURFACE);
    processor.register_window(3, NULL_SURFACE);
    assert_eq!(processor.window_count(), 3);
    processor.unregister_window(2);
    assert_eq!(processor.window_count(), 2);
    assert!(!processor.has_window(2));
}

#[test]
fn test_input_processor_unregistered_window() {
    let mut processor = InputProcessor::new();
    let event = InputEvent::KeyPress(KeyEvent { key_code: 30, modifiers: 0 });
    processor.handle_input_event(999, event);
}

#[test]
fn test_keycode_mappings() {
    assert_eq!(vk_to_linux(0x41), Some(KEY_A));
    assert_eq!(vk_to_linux(0x20), Some(KEY_SPACE));
    assert_eq!(vk_to_linux(0x0D), Some(KEY_ENTER));
    assert_eq!(vk_to_linux(0x1B), Some(KEY_ESC));
    assert_eq!(vk_to_linux(0x26), Some(KEY_UP));
    assert_eq!(vk_to_linux(0x70), Some(KEY_F1));
    assert_eq!(vk_to_linux(0x79), Some(KEY_F10));
    assert_eq!(vk_to_linux(0xFFFF), None);
}

#[test]
fn test_modifier_flags() {
    assert_eq!(SHIFT, 0x01);
    assert_eq!(CTRL, 0x02);
    assert_eq!(ALT, 0x04);
    assert_eq!(SUPER, 0x08);
}

#[test]
fn test_input_event_handler_trait() {
    let mut processor = InputProcessor::new();
    processor.register_window(1, NULL_SURFACE);
    let event = InputEvent::KeyPress(KeyEvent { key_code: 30, modifiers: 0x01 });
    InputEventHandler::handle_input_event(&mut processor, 1, event);
}

#[test]
fn test_input_processor_default() {
    let processor: InputProcessor = Default::default();
    assert_eq!(processor.window_count(), 0);
}

#[test]
fn test_complete_input_event_flow() {
    let event = WindowInputEvent { window_id: 42, event: InputEvent::KeyPress(KeyEvent { key_code: 30, modifiers: 0x01 }) };
    let encoded = event.encode();
    let (decoded, _) = WindowInputEvent::decode(&encoded).unwrap();
    assert_eq!(decoded.window_id, 42);
    match &decoded.event {
        InputEvent::KeyPress(key) => {
            assert_eq!(key.key_code, 30);
            assert_eq!(key.modifiers, 0x01);
        }
        _ => panic!("Expected KeyPress event"),
    }
    let mut processor = InputProcessor::new();
    processor.register_window(42, NULL_SURFACE);
    processor.handle_input_event(42, decoded.event);
}

#[test]
fn test_multiple_events_sequence() {
    let mut processor = InputProcessor::new();
    processor.register_window(1, NULL_SURFACE);
    let events = vec![
        WindowInputEvent { window_id: 1, event: InputEvent::MouseMove(MouseMoveEvent { x: 100, y: 100 }) },
        WindowInputEvent { window_id: 1, event: InputEvent::MouseButtonPress(MouseButtonEvent { button: 1 }) },
        WindowInputEvent { window_id: 1, event: InputEvent::MouseMove(MouseMoveEvent { x: 150, y: 150 }) },
        WindowInputEvent { window_id: 1, event: InputEvent::MouseButtonRelease(MouseButtonEvent { button: 1 }) },
    ];
    for event in events {
        let encoded = event.encode();
        let (decoded, _) = WindowInputEvent::decode(&encoded).unwrap();
        processor.handle_input_event(decoded.window_id as u32, decoded.event);
    }
}
