//! Frame-server decisions: coalescing, control-stream framing, handshake,
//! dispatch, frame stream bytes and certificate fingerprints.

use wayland_remote::protocol::codec::{decode_frame_header, encode_message, Cursor, DecodeError};
use wayland_remote::protocol::compress::{decompress, Compression};
use wayland_remote::protocol::message::{InputEvent, Message, WindowEventKind, FRAME_HEADER_SIZE, FRAME_MAGIC};
use wayland_remote::server::bridge::{CompositorCommand, NetCommand};
use wayland_remote::server::net::cert::{fingerprint_str, hex_encode};
use wayland_remote::server::net::session::{
    check_hello, control_action, frame_stream_bytes, nanos_to_u64, now_ns, session_batch, ControlAction,
    HelloOutcome, MessageReader, ReadStep, MAX_MESSAGE_BYTES,
};
use wayland_remote::server::net::{coalesce, ERROR_VERSION_MISMATCH, PROTOCOL_VERSION};
use wayland_remote::server::rendering::FrameBuffer;

fn frame(id: u8) -> FrameBuffer {
    FrameBuffer { data: vec![id; 4], width: 1, height: 1, stride: 4, window_id: 0 }
}

#[test]
fn burst_coalesces_to_newest_frame() {
    let mut batch = Vec::new();
    for id in 0..5u64 {
        batch.push(NetCommand::Frame { frame: frame(id as u8), frame_id: id + 1 });
    }
    batch.push(NetCommand::Shutdown);
    let out = coalesce(batch);
    let (f, id) = out.frame.expect("newest frame survives");
    assert_eq!(f.data[0], 4);
    assert_eq!(id, 5);
    assert!(out.shutdown);
    assert!(out.window_events.is_empty());
}

#[test]
fn window_events_are_all_kept_in_order() {
    let batch = vec![
        NetCommand::WindowEvents(vec![(1, WindowEventKind::Focused)]),
        NetCommand::Frame { frame: frame(9), frame_id: 1 },
        NetCommand::WindowEvents(vec![(2, WindowEventKind::Destroyed)]),
    ];
    let out = coalesce(batch);
    assert_eq!(
        out.window_events,
        vec![vec![(1, WindowEventKind::Focused)], vec![(2, WindowEventKind::Destroyed)]]
    );
    assert_eq!(out.frame.map(|(f, id)| (f.data, id)), Some((vec![9; 4], 1)));
    assert!(!out.shutdown);
}

#[test]
fn session_batch_keeps_newest_frame_or_shutdown() {
    let out = session_batch(vec![
        NetCommand::Frame { frame: frame(1), frame_id: 1 },
        NetCommand::Shutdown,
        NetCommand::WindowEvents(vec![(3, WindowEventKind::Unfocused)]),
    ]);
    assert!(matches!(out.latest, Some(NetCommand::Shutdown)));
    assert_eq!(out.window_events.len(), 1);
    let out = session_batch(vec![NetCommand::Shutdown, NetCommand::Frame { frame: frame(2), frame_id: 7 }]);
    assert!(matches!(out.latest, Some(NetCommand::Frame { frame_id: 7, .. })));
}

#[test]
fn reader_waits_for_whole_frames_and_keeps_pipelined_bytes() {
    let mut bytes = Vec::new();
    encode_message(&Message::Ping { timestamp_ns: 9 }, &mut bytes);
    encode_message(&Message::SetFocus { window_id: 4 }, &mut bytes);
    let mut reader = MessageReader::new();
    assert!(matches!(reader.poll(), ReadStep::NeedMore));
    reader.feed(&bytes[..3]);
    assert!(matches!(reader.poll(), ReadStep::NeedMore));
    reader.feed(&bytes[3..]);
    match reader.poll() {
        ReadStep::Ready(Ok(m)) => assert_eq!(m, Message::Ping { timestamp_ns: 9 }),
        other => panic!("unexpected {other:?}"),
    }
    match reader.poll() {
        ReadStep::Ready(Ok(m)) => assert_eq!(m, Message::SetFocus { window_id: 4 }),
        other => panic!("unexpected {other:?}"),
    }
    assert!(matches!(reader.poll(), ReadStep::NeedMore));
}

#[test]
fn reader_rejects_oversized_frames() {
    let mut reader = MessageReader::new();
    // varint(40000) = 0xC0 0xB8 0x02
    reader.feed(&[0xC0, 0xB8, 0x02]);
    assert!(matches!(reader.poll(), ReadStep::Oversized { len: 40000 }));
    assert_eq!(MAX_MESSAGE_BYTES, 32 * 1024);
}

#[test]
fn reader_reports_undecodable_frame() {
    let mut reader = MessageReader::new();
    reader.feed(&[0x01, 0x63]);
    assert!(matches!(reader.poll(), ReadStep::Ready(Err(DecodeError::UnknownMessageTag(99)))));
}

#[test]
fn reader_treats_overlong_length_as_incomplete() {
    // A length prefix longer than ten bytes reads as truncated: the reader
    // keeps waiting, exactly as for a prefix cut short.
    let mut reader = MessageReader::new();
    reader.feed(&[0xFF; 11]);
    assert!(matches!(reader.poll(), ReadStep::NeedMore));
}

#[test]
fn handshake_decisions() {
    match check_hello(&Message::Hello { version: 1, client_name: "v".into() }) {
        HelloOutcome::Accept { client_name } => assert_eq!(client_name, "v"),
        other => panic!("unexpected {other:?}"),
    }
    assert_eq!(
        check_hello(&Message::Hello { version: 2, client_name: "v".into() }),
        HelloOutcome::VersionMismatch { version: 2 }
    );
    assert_eq!(check_hello(&Message::Ping { timestamp_ns: 0 }), HelloOutcome::NotHello);
    assert_eq!(PROTOCOL_VERSION, 1);
    assert_eq!(ERROR_VERSION_MISMATCH, 1);
}

#[test]
fn control_dispatch() {
    assert!(matches!(
        control_action(Message::Ping { timestamp_ns: 5 }, 0),
        ControlAction::Reply(Message::Pong { timestamp_ns: 5 })
    ));
    assert!(matches!(
        control_action(Message::Pong { timestamp_ns: 5 }, 12),
        ControlAction::PongReceived { rtt_ns: 7 }
    ));
    assert!(matches!(
        control_action(Message::Pong { timestamp_ns: 50 }, 12),
        ControlAction::PongReceived { rtt_ns: 0 }
    ));
    assert!(matches!(
        control_action(Message::Input { window_id: 3, event: InputEvent::KeyDown { scancode: 1 } }, 0),
        ControlAction::Forward(CompositorCommand::Input { window_id: 3, event: InputEvent::KeyDown { scancode: 1 } })
    ));
    assert!(matches!(
        control_action(Message::ConfigureWindow { window_id: 3, width: 4, height: 5 }, 0),
        ControlAction::Forward(CompositorCommand::ConfigureWindow { window_id: 3, width: 4, height: 5 })
    ));
    assert!(matches!(
        control_action(Message::CloseWindow { window_id: 6 }, 0),
        ControlAction::Forward(CompositorCommand::CloseWindow { window_id: 6 })
    ));
    assert!(matches!(
        control_action(Message::SetFocus { window_id: 2 }, 0),
        ControlAction::Forward(CompositorCommand::SetFocus { window_id: 2 })
    ));
    assert!(matches!(
        control_action(Message::Welcome { version: 1, width: 1, height: 1 }, 0),
        ControlAction::Unexpected
    ));
}

#[test]
fn frame_stream_raw_and_lz4() {
    let f = FrameBuffer { data: vec![7u8; 64], width: 4, height: 4, stride: 16, window_id: 3 };
    let raw = frame_stream_bytes(&f, 11, Compression::Raw, 99);
    assert_eq!(raw.len(), FRAME_HEADER_SIZE + 64);
    let h = decode_frame_header(&mut Cursor::new(&raw)).unwrap();
    assert_eq!(h.magic, FRAME_MAGIC);
    assert_eq!((h.frame_id, h.window_id, h.compression, h.timestamp_ns, h.compressed_size), (11, 3, 0, 99, 64));
    assert_eq!(&raw[FRAME_HEADER_SIZE..], &f.data[..]);

    let lz = frame_stream_bytes(&f, 12, Compression::Lz4, 100);
    let h = decode_frame_header(&mut Cursor::new(&lz)).unwrap();
    assert_eq!(h.compression, 1);
    assert_eq!(h.compressed_size as usize, lz.len() - FRAME_HEADER_SIZE);
    assert_eq!(decompress(&lz[FRAME_HEADER_SIZE..], 64).unwrap(), f.data);
}

#[test]
fn fingerprint_is_stable_for_same_der() {
    let der = b"fake-certificate-bytes";
    assert_eq!(fingerprint_str(der), fingerprint_str(der));
    assert_eq!(fingerprint_str(der).len(), 64);
    assert_ne!(fingerprint_str(der), fingerprint_str(b"other-bytes"));
}

#[test]
fn fingerprint_of_empty_input_is_known_digest() {
    assert_eq!(fingerprint_str(b""), "e3b0c44298fc1c149afbf4c8996fb92427ae41e4649b934ca495991b7852b855");
}

#[test]
fn hex_is_lowercase_two_digits_per_byte() {
    assert_eq!(hex_encode(&[0x00, 0x0f, 0xa0, 0xff]), b"000fa0ff".to_vec());
}

#[test]
fn clock_readings() {
    assert_eq!(nanos_to_u64(None), 0);
    assert_eq!(nanos_to_u64(Some(5)), 5);
    assert_eq!(nanos_to_u64(Some((1u128 << 64) + 3)), 3);
    assert!(now_ns() > 0);
}
