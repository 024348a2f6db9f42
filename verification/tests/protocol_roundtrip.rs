//! Wire format: message round-trips, truncation safety, frame-header
//! validation, string length limits, unknown tags and the lz4 block codec.

use wayland_remote::protocol::codec::{
    decode_frame_header, decode_message, decode_varint, encode_frame_header, encode_message, encode_varint, Cursor,
    DecodeError,
};
use wayland_remote::protocol::compress::{compress, decompress, Compression};
use wayland_remote::protocol::message::{
    ButtonState, FrameHeader, InputEvent, Message, WindowEventKind, FORMAT_BGRA8, FRAME_HEADER_SIZE, FRAME_MAGIC,
};

/// Simple LCG for deterministic pseudo-random test data.
fn lcg_fill(buf: &mut [u8], seed: u32) {
    let mut s = seed;
    for b in buf.iter_mut() {
        s = s.wrapping_mul(1664525).wrapping_add(1013904223);
        *b = (s >> 24) as u8;
    }
}

#[test]
fn message_roundtrip() {
    let messages = vec![
        Message::Hello { version: 1, client_name: "test-viewer".into() },
        Message::Input { window_id: 0, event: InputEvent::KeyDown { scancode: 0x1E } },
        Message::Input {
            window_id: 42,
            event: InputEvent::PointerMove { x: 12.5f64.to_bits(), y: (-3.25f64).to_bits() },
        },
        Message::Input { window_id: 7, event: InputEvent::PointerButton { button: 0x110, state: ButtonState::Pressed } },
        Message::Input { window_id: 7, event: InputEvent::Axis { dx: 0.0f64.to_bits(), dy: 1.0f64.to_bits() } },
        Message::Welcome { version: 1, width: 1280, height: 720 },
        Message::WindowEvent {
            window_id: 1,
            event: WindowEventKind::Created { width: 800, height: 600, title: "App".into() },
        },
        Message::WindowEvent { window_id: 1, event: WindowEventKind::Destroyed },
        Message::Ping { timestamp_ns: 1234567890 },
        Message::Pong { timestamp_ns: 1234567890 },
        Message::SetFocus { window_id: 5 },
        Message::ConfigureWindow { window_id: 3, width: 800, height: 600 },
        Message::CloseWindow { window_id: 7 },
    ];
    for msg in &messages {
        let mut buf = Vec::new();
        encode_message(msg, &mut buf);
        let mut cursor = Cursor::new(&buf);
        let decoded = decode_message(&mut cursor).unwrap();
        assert_eq!(msg, &decoded, "round-trip mismatch");
        assert_eq!(cursor.position() as usize, buf.len());
    }
}

#[test]
fn truncation_safety() {
    let msg = Message::WindowEvent {
        window_id: 99,
        event: WindowEventKind::Created { width: 100, height: 100, title: "x".into() },
    };
    let mut buf = Vec::new();
    encode_message(&msg, &mut buf);
    for len in 0..buf.len() {
        let mut cursor = Cursor::new(&buf[..len]);
        let _ = decode_message(&mut cursor);
    }
}

#[test]
fn frame_header_validation() {
    let valid = FrameHeader {
        magic: FRAME_MAGIC,
        frame_id: 1,
        window_id: 0,
        width: 1280,
        height: 720,
        stride: 1280 * 4,
        format: FORMAT_BGRA8,
        compression: 0,
        _reserved: 0,
        timestamp_ns: 42,
        compressed_size: 1280 * 720 * 4,
    };

    let mut buf = Vec::new();
    encode_frame_header(&valid, &mut buf);
    let mut cursor = Cursor::new(&buf);
    let decoded = decode_frame_header(&mut cursor).unwrap();
    assert_eq!(valid, decoded);

    let mut bad = valid;
    bad.magic = 0xDEADBEEF;
    let mut b = Vec::new();
    encode_frame_header(&bad, &mut b);
    assert!(matches!(decode_frame_header(&mut Cursor::new(&b)), Err(DecodeError::BadFrameMagic)));

    let mut bad = valid;
    bad.format = 99;
    let mut b = Vec::new();
    encode_frame_header(&bad, &mut b);
    assert!(matches!(decode_frame_header(&mut Cursor::new(&b)), Err(DecodeError::UnknownFormat(99))));

    let mut bad = valid;
    bad.compression = 5;
    let mut b = Vec::new();
    encode_frame_header(&bad, &mut b);
    assert!(matches!(decode_frame_header(&mut Cursor::new(&b)), Err(DecodeError::UnknownCompression(5))));

    let mut bad = valid;
    bad.stride = 1280 * 4 - 1;
    let mut b = Vec::new();
    encode_frame_header(&bad, &mut b);
    assert!(matches!(decode_frame_header(&mut Cursor::new(&b)), Err(DecodeError::InvalidStride)));

    let mut bad = valid;
    bad.height = 64 * 1024 * 1024 / (1280 * 4) + 1;
    bad.compressed_size = bad.stride as u64 * bad.height as u64;
    let mut b = Vec::new();
    encode_frame_header(&bad, &mut b);
    assert!(matches!(decode_frame_header(&mut Cursor::new(&b)), Err(DecodeError::FrameTooLarge)));
}

#[test]
fn string_length_limit() {
    let msg = Message::Hello { version: 1, client_name: "a".repeat(20_000) };
    let mut buf = Vec::new();
    encode_message(&msg, &mut buf);
    let result = decode_message(&mut Cursor::new(&buf));
    assert!(matches!(result, Err(DecodeError::StringTooLarge)));
}

#[test]
fn unknown_message_tag() {
    let mut payload = Vec::new();
    encode_varint(99, &mut payload);
    let mut buf = Vec::new();
    encode_varint(payload.len() as u64, &mut buf);
    buf.extend_from_slice(&payload);
    let result = decode_message(&mut Cursor::new(&buf));
    assert!(matches!(result, Err(DecodeError::UnknownMessageTag(99))));
}

#[test]
fn lz4_compression_roundtrip() {
    let empty: Vec<u8> = vec![];
    let c = compress(&empty);
    let d = decompress(&c, 0).unwrap();
    assert_eq!(d, empty);

    let small = vec![0xAAu8; 64];
    let c = compress(&small);
    let d = decompress(&c, 64).unwrap();
    assert_eq!(d, small);

    let mut big = vec![0u8; 1024 * 1024];
    lcg_fill(&mut big, 0x12345678);
    let c = compress(&big);
    let d = decompress(&c, big.len()).unwrap();
    assert_eq!(d, big);
}

#[test]
fn varint_encodings_are_leb128() {
    let mut buf = Vec::new();
    encode_varint(0, &mut buf);
    assert_eq!(buf, vec![0x00]);
    let mut buf = Vec::new();
    encode_varint(300, &mut buf);
    assert_eq!(buf, vec![0xAC, 0x02]);
    let mut buf = Vec::new();
    encode_varint(u64::MAX, &mut buf);
    assert_eq!(buf.len(), 10);
    let mut c = Cursor::new(&buf);
    assert_eq!(decode_varint(&mut c), Ok(u64::MAX));
    assert_eq!(c.position(), 10);
}

#[test]
fn varint_truncated_is_eof() {
    let buf = vec![0x80u8, 0x80];
    assert_eq!(decode_varint(&mut Cursor::new(&buf)), Err(DecodeError::UnexpectedEof));
}

#[test]
fn frame_header_is_54_little_endian_bytes() {
    let h = FrameHeader {
        magic: FRAME_MAGIC,
        frame_id: 0x0102030405060708,
        window_id: 9,
        width: 2,
        height: 3,
        stride: 8,
        format: FORMAT_BGRA8,
        compression: 1,
        _reserved: 0,
        timestamp_ns: 7,
        compressed_size: 11,
    };
    let mut buf = Vec::new();
    encode_frame_header(&h, &mut buf);
    assert_eq!(buf.len(), FRAME_HEADER_SIZE);
    assert_eq!(&buf[0..4], b"FRME");
    assert_eq!(buf[4], 0x08);
    assert_eq!(buf[11], 0x01);
}

#[test]
fn frame_header_short_input_is_eof() {
    let buf = vec![0x46u8, 0x52, 0x4D];
    assert_eq!(decode_frame_header(&mut Cursor::new(&buf)), Err(DecodeError::UnexpectedEof));
}

#[test]
fn invalid_utf8_string_rejected() {
    // Hello: tag 1, version 1, string of length 2 holding invalid UTF-8.
    let payload = vec![0x01u8, 0x01, 0x00, 0x02, 0xFF, 0xFE];
    let mut buf = Vec::new();
    encode_varint(payload.len() as u64, &mut buf);
    buf.extend_from_slice(&payload);
    assert_eq!(decode_message(&mut Cursor::new(&buf)), Err(DecodeError::InvalidUtf8));
}

#[test]
fn unknown_input_and_window_tags_rejected() {
    // Input message (tag 2), window 0, input tag 9.
    let mut payload = vec![0x02u8];
    payload.extend_from_slice(&0u64.to_le_bytes());
    payload.push(9);
    let mut buf = Vec::new();
    encode_varint(payload.len() as u64, &mut buf);
    buf.extend_from_slice(&payload);
    assert_eq!(decode_message(&mut Cursor::new(&buf)), Err(DecodeError::UnknownInputTag(9)));

    // WindowEvent message (tag 4), window 0, window tag 9.
    let mut payload = vec![0x04u8];
    payload.extend_from_slice(&0u64.to_le_bytes());
    payload.push(9);
    let mut buf = Vec::new();
    encode_varint(payload.len() as u64, &mut buf);
    buf.extend_from_slice(&payload);
    assert_eq!(decode_message(&mut Cursor::new(&buf)), Err(DecodeError::UnknownWindowTag(9)));
}

#[test]
fn compression_bytes() {
    assert_eq!(Compression::from_u8(0), Ok(Compression::Raw));
    assert_eq!(Compression::from_u8(1), Ok(Compression::Lz4));
    assert_eq!(Compression::from_u8(7), Err(DecodeError::UnknownCompression(7)));
    assert_eq!(Compression::Raw.as_u8(), 0);
    assert_eq!(Compression::Lz4.as_u8(), 1);
}

#[test]
fn decompress_garbage_fails() {
    let garbage = vec![0xFFu8; 8];
    assert_eq!(decompress(&garbage, 4), Err(DecodeError::DecompressFailed));
}

#[test]
fn pipelined_messages_decode_in_order() {
    let mut buf = Vec::new();
    encode_message(&Message::Ping { timestamp_ns: 1 }, &mut buf);
    encode_message(&Message::Pong { timestamp_ns: 2 }, &mut buf);
    let mut c = Cursor::new(&buf);
    assert_eq!(decode_message(&mut c), Ok(Message::Ping { timestamp_ns: 1 }));
    assert_eq!(decode_message(&mut c), Ok(Message::Pong { timestamp_ns: 2 }));
    assert_eq!(c.position(), buf.len());
}
