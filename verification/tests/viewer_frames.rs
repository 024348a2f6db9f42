//! Viewer frames: the raw frame format, the frame store, window tracking,
//! session decisions and pixel conversions.

use wayland_remote::protocol::codec::{encode_frame_header, encode_message, DecodeError};
use wayland_remote::protocol::compress::compress;
use wayland_remote::protocol::message::{FrameHeader as StreamHeader, Message, WindowEventKind, FORMAT_BGRA8, FRAME_MAGIC};
use wayland_remote::viewer::display::drive::{action_inputs, frame_rgba, frames_differ, CaptureState, DriveAction};
use wayland_remote::viewer::display::gdi::{convert_rgba_to_bgra, GdiError};
use wayland_remote::viewer::framebuf::{FrameBuffer, FrameStore};
use wayland_remote::viewer::network::client::checked_payload_size;
use wayland_remote::viewer::network::{Frame, FrameHeader, NetworkError, TcpClient};
use wayland_remote::viewer::session::{
    choose_verifier, frame_from_payload, frame_stream_header, hello_message, is_pong_for, parse_fingerprint,
    poll_control, welcome_size, ControlRead, FingerprintVerifier, HandshakeError, VerifierChoice,
};
use wayland_remote::viewer::window_manager::ViewerWindowManager;
use wayland_remote::protocol::message::InputEvent;

#[test]
fn test_frame_header_wire_size() {
    assert_eq!(FrameHeader::SIZE, 20, "Wire format must be exactly 20 bytes");
}

#[test]
fn test_frame_struct_exists() {
    let frame = Frame {
        header: FrameHeader { window_id: 1, width: 1920, height: 1080, timestamp: 1234567890 },
        data: vec![0u8; 1920 * 1080 * 4],
    };
    assert_eq!(frame.header.width, 1920);
    assert_eq!(frame.header.height, 1080);
    assert_eq!(frame.data.len(), 1920 * 1080 * 4);
}

#[test]
fn test_header_decode() {
    let mut data = [0u8; 20];
    data[0..4].copy_from_slice(&1u32.to_be_bytes());
    data[4..8].copy_from_slice(&1920u32.to_be_bytes());
    data[8..12].copy_from_slice(&1080u32.to_be_bytes());
    data[12..20].copy_from_slice(&1234567890u64.to_be_bytes());

    let header = FrameHeader::decode(&data).unwrap();

    assert_eq!(header.window_id, 1);
    assert_eq!(header.width, 1920);
    assert_eq!(header.height, 1080);
    assert_eq!(header.timestamp, 1234567890);
}

#[test]
fn test_header_encode() {
    let header = FrameHeader { window_id: 42, width: 1280, height: 720, timestamp: 9876543210 };

    let encoded = header.encode();
    let decoded = FrameHeader::decode(&encoded).unwrap();

    assert_eq!(header, decoded);
}

#[test]
fn test_header_payload_size() {
    let header = FrameHeader { window_id: 1, width: 1920, height: 1080, timestamp: 0 };
    assert_eq!(header.payload_size(), 8_294_400);
}

#[test]
fn test_header_total_size() {
    let header = FrameHeader { window_id: 1, width: 100, height: 100, timestamp: 0 };
    assert_eq!(header.total_size(), 40_020);
}

#[test]
fn test_decode_insufficient_data() {
    let data = [0u8; 15];
    let result = FrameHeader::decode(&data);
    assert!(result.is_err());
}

#[test]
fn test_frame_validity() {
    let header = FrameHeader { window_id: 1, width: 100, height: 100, timestamp: 0 };

    let valid_frame = Frame::new(header.clone(), vec![0u8; 100 * 100 * 4]);
    assert!(valid_frame.is_valid());

    let invalid_frame = Frame::new(header, vec![0u8; 5000]);
    assert!(!invalid_frame.is_valid());
}

#[test]
fn test_big_endian_ordering() {
    let header = FrameHeader { window_id: 0x12345678, width: 0x9ABCDEF0, height: 0xFEDCBA98, timestamp: 0x1122334455667788 };

    let encoded = header.encode();

    assert_eq!(encoded[0], 0x12);
    assert_eq!(encoded[1], 0x34);
    assert_eq!(encoded[2], 0x56);
    assert_eq!(encoded[3], 0x78);

    assert_eq!(encoded[4], 0x9A);
    assert_eq!(encoded[5], 0xBC);
    assert_eq!(encoded[6], 0xDE);
    assert_eq!(encoded[7], 0xF0);

    assert_eq!(encoded[12], 0x11);
    assert_eq!(encoded[19], 0x88);
}

#[test]
fn test_client_address_parsing() {
    let client = TcpClient::new("192.168.1.100:8080");
    assert_eq!(client.address, "192.168.1.100:8080");

    let client2 = TcpClient::new("localhost:9000");
    assert_eq!(client2.address, "localhost:9000");
}

#[test]
fn payload_size_check() {
    let ok = FrameHeader { window_id: 1, width: 100, height: 100, timestamp: 0 };
    assert_eq!(checked_payload_size(&ok).unwrap(), 40_000);
    let huge = FrameHeader { window_id: 1, width: 10_000, height: 10_000, timestamp: 0 };
    assert!(matches!(checked_payload_size(&huge), Err(NetworkError::Protocol(_))));
    let max = FrameHeader { window_id: 1, width: u32::MAX, height: u32::MAX, timestamp: 0 };
    assert!(matches!(checked_payload_size(&max), Err(NetworkError::Protocol(_))));
}

#[test]
fn frame_store_flags_new_frames() {
    let mut store = FrameStore::new();
    assert!(store.borrow().is_none());
    assert_eq!(store.size(), None);
    let f = FrameBuffer { data: vec![1, 2, 3, 4], width: 1, height: 1, stride: 4, frame_id: 7, timestamp_ns: 0, window_id: 2 };
    store.swap(f);
    assert_eq!(store.size(), Some((1, 1)));
    assert_eq!(store.latest().unwrap().frame_id, 7);
    assert_eq!(store.borrow().unwrap().data, vec![1, 2, 3, 4]);
    assert!(store.borrow().is_none());
    assert_eq!(store.latest().unwrap().window_id, 2);
}

#[test]
fn window_manager_follows_window_events() {
    let mut wm = ViewerWindowManager::new();
    wm.handle_event(1, &WindowEventKind::Created { width: 10, height: 20, title: "a".into() });
    wm.handle_event(2, &WindowEventKind::Created { width: 1, height: 1, title: "b".into() });
    wm.handle_event(1, &WindowEventKind::Resized { width: 30, height: 40 });
    wm.handle_event(9, &WindowEventKind::Resized { width: 30, height: 40 });
    wm.handle_event(2, &WindowEventKind::Focused);
    assert_eq!(wm.window_count(), 2);
    let w = wm.get(1).unwrap();
    assert_eq!((w.width, w.height, w.title.as_str()), (30, 40, "a"));
    assert!(wm.get(9).is_none());
    let mut ids = wm.window_ids();
    ids.sort();
    assert_eq!(ids, vec![1, 2]);
    wm.handle_event(1, &WindowEventKind::Destroyed);
    assert_eq!(wm.window_ids(), vec![2]);
    wm.set_hwnd(2, 0x1234);
    assert_eq!(wm.hwnd_for(2), Some(0x1234));
    wm.remove_hwnd(2);
    assert_eq!(wm.hwnd_for(2), None);
}

#[test]
fn verifier_choice_and_fingerprint_match() {
    assert!(matches!(choose_verifier(Some([1u8; 32]), false), Ok(VerifierChoice::Fingerprint(fp)) if fp == [1u8; 32]));
    assert!(matches!(choose_verifier(None, true), Ok(VerifierChoice::Insecure)));
    assert!(choose_verifier(None, false).is_err());

    let der = b"certificate";
    let hex = wayland_remote::server::net::cert::fingerprint_str(der);
    let pinned = parse_fingerprint(hex.as_bytes()).unwrap();
    let v = FingerprintVerifier { expected: pinned };
    assert!(v.verify_server_cert(der).is_ok());
    assert!(v.verify_server_cert(b"other").is_err());
}

#[test]
fn fingerprint_parsing() {
    let hex = "00".repeat(31) + "Fe";
    let fp = parse_fingerprint(hex.as_bytes()).unwrap();
    assert_eq!(fp[31], 0xFE);
    assert!(parse_fingerprint(b"abc").is_none());
    assert!(parse_fingerprint(("zz".repeat(32)).as_bytes()).is_none());
}

#[test]
fn handshake_and_control_reads() {
    assert_eq!(hello_message(), Message::Hello { version: 1, client_name: "wayland-remote-viewer".into() });
    assert_eq!(welcome_size(&Message::Welcome { version: 1, width: 1280, height: 720 }), Ok((1280, 720)));
    assert_eq!(welcome_size(&Message::Welcome { version: 3, width: 1, height: 1 }), Err(HandshakeError::VersionMismatch(3)));
    assert_eq!(welcome_size(&Message::Ping { timestamp_ns: 1 }), Err(HandshakeError::NotWelcome));

    let mut bytes = Vec::new();
    encode_message(&Message::Pong { timestamp_ns: 42 }, &mut bytes);
    assert!(matches!(poll_control(&bytes[..1]), ControlRead::NeedMore));
    match poll_control(&bytes) {
        ControlRead::Message(m) => {
            assert!(is_pong_for(&m, 42));
            assert!(!is_pong_for(&m, 43));
        }
        other => panic!("unexpected {other:?}"),
    }
    assert!(matches!(poll_control(&[0x01, 0x63]), ControlRead::Malformed(DecodeError::UnknownMessageTag(99))));
}

#[test]
fn frame_stream_to_frame() {
    let pixels = vec![5u8; 2 * 2 * 4];
    let payload = compress(&pixels);
    let h = StreamHeader {
        magic: FRAME_MAGIC,
        frame_id: 3,
        window_id: 8,
        width: 2,
        height: 2,
        stride: 8,
        format: FORMAT_BGRA8,
        compression: 1,
        _reserved: 0,
        timestamp_ns: 77,
        compressed_size: payload.len() as u64,
    };
    let mut bytes = Vec::new();
    encode_frame_header(&h, &mut bytes);
    let header = frame_stream_header(&bytes).unwrap();
    assert_eq!(header, h);
    let frame = frame_from_payload(&header, payload).unwrap();
    assert_eq!(frame.data, pixels);
    assert_eq!((frame.width, frame.height, frame.stride, frame.frame_id, frame.timestamp_ns, frame.window_id), (2, 2, 8, 3, 77, 8));

    let raw = StreamHeader { compression: 0, ..h };
    assert_eq!(frame_from_payload(&raw, vec![1, 2]).unwrap().data, vec![1, 2]);
    let bad = StreamHeader { compression: 4, ..h };
    assert!(matches!(frame_from_payload(&bad, vec![]), Err(DecodeError::UnknownCompression(4))));
    assert!(matches!(frame_from_payload(&h, vec![0xFF; 3]), Err(DecodeError::DecompressFailed)));
}

#[test]
fn test_rgba_to_bgra_conversion() {
    let rgba = vec![255, 128, 64, 200];
    let bgra = convert_rgba_to_bgra(&rgba, 1, 1);
    assert_eq!(bgra, vec![64, 128, 255, 200]);
}

#[test]
fn test_rgba_to_bgra_multiple_pixels() {
    let rgba = vec![255, 0, 0, 255, 0, 255, 0, 255];
    let bgra = convert_rgba_to_bgra(&rgba, 2, 1);
    assert_eq!(bgra, vec![0, 0, 255, 255, 0, 255, 0, 255]);
}

#[test]
fn gdi_error_messages() {
    assert_eq!(GdiError::GetDcFailed.message(), "Failed to get device context");
    assert_eq!(GdiError::CreateDibSectionFailed.message(), "Failed to create DIB section");
}

#[test]
fn drive_actions_and_capture() {
    assert_eq!(
        action_inputs(&DriveAction::KeyPress { scancode: 0x1E }),
        vec![InputEvent::KeyDown { scancode: 0x1E }, InputEvent::KeyUp { scancode: 0x1E }]
    );
    assert_eq!(action_inputs(&DriveAction::Click { x: 1, y: 2, button: 0x110 }).len(), 3);
    assert!(action_inputs(&DriveAction::Wait { ms: 5 }).is_empty());

    let mut cap = CaptureState::new(2);
    assert!(cap.wants_frame());
    assert!(!cap.record_frame(false, 10));
    assert!(cap.record_frame(true, 20));
    assert!(!cap.wants_frame());
    assert_eq!(cap.changed_at.map(|c| (c.frame, c.ms)), Some((2, 20)));
    assert_eq!(cap.total_frames, 3);
    assert!(frames_differ(&[1, 2], &[1, 3]));
    assert!(!frames_differ(&[1, 2], &[1, 2]));
}

#[test]
fn padded_frames_convert_row_by_row() {
    // 1-pixel-wide rows 8 bytes apart.
    let data = vec![1, 2, 3, 4, 0, 0, 0, 0, 5, 6, 7, 8];
    assert_eq!(frame_rgba(&data, 1, 2, 8), Some(vec![3, 2, 1, 4, 7, 6, 5, 8]));
    assert_eq!(frame_rgba(&data, 1, 3, 8), None);
    assert_eq!(frame_rgba(&[9, 8, 7, 6], 1, 1, 4), Some(vec![7, 8, 9, 6]));
}
