//! The raw input event format: per-event codecs and whole window events.

use bytes::BytesMut;
use wayland_remote::server::streaming::input::{
    InputEvent, InputEventType, KeyEvent, MouseButtonEvent, MouseMoveEvent, MouseScrollEvent, WindowInputEvent,
    EVENT_HEADER_SIZE,
};

#[test]
fn input_test_event_type_from_u8() {
    assert_eq!(InputEventType::from_u8(0x01), Some(InputEventType::KeyPress));
    assert_eq!(InputEventType::from_u8(0x02), Some(InputEventType::KeyRelease));
    assert_eq!(InputEventType::from_u8(0x03), Some(InputEventType::MouseMove));
    assert_eq!(InputEventType::from_u8(0x04), Some(InputEventType::MouseButtonPress));
    assert_eq!(InputEventType::from_u8(0x05), Some(InputEventType::MouseButtonRelease));
    assert_eq!(InputEventType::from_u8(0x06), Some(InputEventType::MouseScroll));
    assert_eq!(InputEventType::from_u8(0xFF), None);
    assert_eq!(InputEventType::from_u8(0x00), None);
}

#[test]
fn input_test_key_event_encode_decode() {
    let event = KeyEvent { key_code: 0x12345678, modifiers: 0xAB };
    let mut buf = BytesMut::with_capacity(KeyEvent::ENCODED_SIZE);
    event.encode(&mut buf);

    let mut decode_buf = buf.clone();
    let decoded = KeyEvent::decode(&mut decode_buf).unwrap();
    assert_eq!(event, decoded);
}

#[test]
fn test_key_event_decode_insufficient_data() {
    let buf = BytesMut::from(&[0x01, 0x02, 0x03][..]);
    let mut decode_buf = buf.clone();
    assert!(KeyEvent::decode(&mut decode_buf).is_none());
}

#[test]
fn test_mouse_move_event_encode_decode() {
    let event = MouseMoveEvent { x: -100, y: 200 };
    let mut buf = BytesMut::with_capacity(MouseMoveEvent::ENCODED_SIZE);
    event.encode(&mut buf);

    let mut decode_buf = buf.clone();
    let decoded = MouseMoveEvent::decode(&mut decode_buf).unwrap();
    assert_eq!(event, decoded);
}

#[test]
fn input_test_mouse_move_event_negative_coordinates() {
    let event = MouseMoveEvent { x: -500, y: -300 };
    let mut buf = BytesMut::with_capacity(MouseMoveEvent::ENCODED_SIZE);
    event.encode(&mut buf);

    let mut decode_buf = buf.clone();
    let decoded = MouseMoveEvent::decode(&mut decode_buf).unwrap();
    assert_eq!(event.x, decoded.x);
    assert_eq!(event.y, decoded.y);
}

#[test]
fn input_test_mouse_button_event_encode_decode() {
    let event = MouseButtonEvent { button: 2 };
    let mut buf = BytesMut::with_capacity(MouseButtonEvent::ENCODED_SIZE);
    event.encode(&mut buf);

    let mut decode_buf = buf.clone();
    let decoded = MouseButtonEvent::decode(&mut decode_buf).unwrap();
    assert_eq!(event, decoded);
}

#[test]
fn input_test_mouse_scroll_event_encode_decode() {
    let event = MouseScrollEvent { horizontal: -3, vertical: 5 };
    let mut buf = BytesMut::with_capacity(MouseScrollEvent::ENCODED_SIZE);
    event.encode(&mut buf);

    let mut decode_buf = buf.clone();
    let decoded = MouseScrollEvent::decode(&mut decode_buf).unwrap();
    assert_eq!(event, decoded);
}

#[test]
fn test_window_input_event_key_press_encode_decode() {
    let event = WindowInputEvent {
        window_id: 42,
        event: InputEvent::KeyPress(KeyEvent { key_code: 0x1E, modifiers: 0x01 }),
    };

    let encoded = event.encode();
    let (decoded, size) = WindowInputEvent::decode(&encoded).unwrap();

    assert_eq!(event.window_id, decoded.window_id);
    assert_eq!(event.event, decoded.event);
    assert_eq!(size, EVENT_HEADER_SIZE + KeyEvent::ENCODED_SIZE);
}

#[test]
fn test_window_input_event_mouse_move_encode_decode() {
    let event = WindowInputEvent { window_id: 100, event: InputEvent::MouseMove(MouseMoveEvent { x: 500, y: 300 }) };

    let encoded = event.encode();
    let (decoded, size) = WindowInputEvent::decode(&encoded).unwrap();

    assert_eq!(event.window_id, decoded.window_id);
    assert_eq!(event.event, decoded.event);
    assert_eq!(size, EVENT_HEADER_SIZE + MouseMoveEvent::ENCODED_SIZE);
}

#[test]
fn test_window_input_event_mouse_button_encode_decode() {
    let event = WindowInputEvent { window_id: 1, event: InputEvent::MouseButtonPress(MouseButtonEvent { button: 1 }) };

    let encoded = event.encode();
    let (decoded, size) = WindowInputEvent::decode(&encoded).unwrap();

    assert_eq!(event.window_id, decoded.window_id);
    assert_eq!(event.event, decoded.event);
    assert_eq!(size, EVENT_HEADER_SIZE + MouseButtonEvent::ENCODED_SIZE);
}

#[test]
fn test_window_input_event_mouse_scroll_encode_decode() {
    let event = WindowInputEvent {
        window_id: 5,
        event: InputEvent::MouseScroll(MouseScrollEvent { horizontal: 0, vertical: -3 }),
    };

    let encoded = event.encode();
    let (decoded, size) = WindowInputEvent::decode(&encoded).unwrap();

    assert_eq!(event.window_id, decoded.window_id);
    assert_eq!(event.event, decoded.event);
    assert_eq!(size, EVENT_HEADER_SIZE + MouseScrollEvent::ENCODED_SIZE);
}

#[test]
fn input_test_decode_insufficient_header() {
    let buf = vec![0x01, 0x00, 0x00];
    assert!(WindowInputEvent::decode(&buf).is_none());
}

#[test]
fn test_decode_insufficient_event_data() {
    let buf = vec![0x01, 0x00, 0x00, 0x00, 0x01];
    assert!(WindowInputEvent::decode(&buf).is_none());
}

#[test]
fn input_test_decode_invalid_event_type() {
    let buf = vec![0xFF, 0x00, 0x00, 0x00, 0x01];
    assert!(WindowInputEvent::decode(&buf).is_none());
}

#[test]
fn input_test_all_event_types_roundtrip() {
    let events = vec![
        WindowInputEvent { window_id: 1, event: InputEvent::KeyPress(KeyEvent { key_code: 30, modifiers: 0 }) },
        WindowInputEvent { window_id: 1, event: InputEvent::KeyRelease(KeyEvent { key_code: 30, modifiers: 0 }) },
        WindowInputEvent { window_id: 2, event: InputEvent::MouseMove(MouseMoveEvent { x: 100, y: 200 }) },
        WindowInputEvent { window_id: 2, event: InputEvent::MouseButtonPress(MouseButtonEvent { button: 1 }) },
        WindowInputEvent { window_id: 2, event: InputEvent::MouseButtonRelease(MouseButtonEvent { button: 1 }) },
        WindowInputEvent {
            window_id: 3,
            event: InputEvent::MouseScroll(MouseScrollEvent { horizontal: 0, vertical: 1 }),
        },
    ];

    for event in events {
        let encoded = event.encode();
        let (decoded, _) = WindowInputEvent::decode(&encoded).unwrap();
        assert_eq!(event, decoded, "Event roundtrip failed");
    }
}

#[test]
fn input_test_big_endian_encoding() {
    let event = WindowInputEvent { window_id: 0x12345678, event: InputEvent::MouseMove(MouseMoveEvent { x: 0, y: 0 }) };

    let encoded = event.encode();

    assert_eq!(encoded[1], 0x12);
    assert_eq!(encoded[2], 0x34);
    assert_eq!(encoded[3], 0x56);
    assert_eq!(encoded[4], 0x78);
}

#[test]
fn decode_leaves_trailing_bytes() {
    let event = WindowInputEvent { window_id: 7, event: InputEvent::MouseButtonRelease(MouseButtonEvent { button: 3 }) };
    let mut bytes = event.encode().to_vec();
    bytes.extend_from_slice(&[0xAA, 0xBB]);
    let (decoded, size) = WindowInputEvent::decode(&bytes).unwrap();
    assert_eq!(decoded, event);
    assert_eq!(size, 6);
}

#[test]
fn key_event_decode_consumes_five_bytes() {
    let mut buf = BytesMut::from(&[0x00, 0x00, 0x00, 0x1E, 0x03, 0x99][..]);
    let decoded = KeyEvent::decode(&mut buf).unwrap();
    assert_eq!(decoded, KeyEvent { key_code: 30, modifiers: 3 });
    assert_eq!(&buf[..], &[0x99]);
}

#[test]
fn scroll_event_wire_bytes() {
    let event = WindowInputEvent {
        window_id: 1,
        event: InputEvent::MouseScroll(MouseScrollEvent { horizontal: -1, vertical: 2 }),
    };
    let encoded = event.encode();
    assert_eq!(&encoded[..], &[0x06, 0, 0, 0, 1, 0xFF, 0xFF, 0xFF, 0xFF, 0, 0, 0, 2]);
}

#[test]
fn event_type_bytes_round_trip() {
    for v in 1u8..=6 {
        assert_eq!(InputEventType::from_u8(v).unwrap().as_u8(), v);
    }
}
