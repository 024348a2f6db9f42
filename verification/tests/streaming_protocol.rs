//! The raw frame header format and frames ready for streaming.

use bytes::BytesMut;
use wayland_remote::server::streaming::protocol::{encode_frame, FrameHeader};
use wayland_remote::server::streaming::surface::SurfaceTracker;
use wayland_remote::server::streaming::FrameData;

#[test]
fn test_header_size() {
    assert_eq!(FrameHeader::SIZE, 20);
}

#[test]
fn test_header_encode_decode() {
    let header = FrameHeader::new(0xDEADBEEF, 1920, 1080, 1234567890);

    let mut buf = BytesMut::with_capacity(FrameHeader::SIZE);
    header.encode(&mut buf);

    assert_eq!(buf.len(), FrameHeader::SIZE);

    let decoded = FrameHeader::decode(&buf).expect("Failed to decode header");
    assert_eq!(header, decoded);
}

#[test]
fn test_header_decode_insufficient_data() {
    let buf = vec![0u8; 10];
    assert!(FrameHeader::decode(&buf).is_none());
}

#[test]
fn test_payload_size() {
    let header = FrameHeader::new(1, 1920, 1080, 0);
    assert_eq!(header.payload_size(), 1920 * 1080 * 4);
}

#[test]
fn test_encode_frame() {
    let header = FrameHeader::new(42, 100, 100, 1000000);
    let rgba_data = vec![0xFFu8; 100 * 100 * 4];

    let frame = encode_frame(&header, &rgba_data);

    assert_eq!(frame.len(), FrameHeader::SIZE + 100 * 100 * 4);

    let decoded = FrameHeader::decode(&frame[..FrameHeader::SIZE]).expect("Failed to decode header");
    assert_eq!(header, decoded);
}

#[test]
fn test_big_endian_byte_order() {
    let header = FrameHeader::new(0x01020304, 0x05060708, 0x090A0B0C, 0x0D0E0F1011121314);
    let mut buf = BytesMut::with_capacity(FrameHeader::SIZE);
    header.encode(&mut buf);

    assert_eq!(&buf[0..4], &[0x01, 0x02, 0x03, 0x04]);
    assert_eq!(&buf[4..8], &[0x05, 0x06, 0x07, 0x08]);
    assert_eq!(&buf[8..12], &[0x09, 0x0A, 0x0B, 0x0C]);
    assert_eq!(&buf[12..20], &[0x0D, 0x0E, 0x0F, 0x10, 0x11, 0x12, 0x13, 0x14]);
}

#[test]
fn test_frame_data_byte_size() {
    let frame = FrameData::new(1920, 1080, 0, vec![0u8; 1920 * 1080 * 4]);
    assert_eq!(frame.byte_size(), 1920 * 1080 * 4);
}

#[test]
fn test_surface_tracker_new() {
    let tracker = SurfaceTracker::new();
    assert_eq!(tracker.surface_count(), 0);
}

#[test]
fn surface_tracker_allocates_from_one_and_reuses() {
    let mut tracker = SurfaceTracker::new();
    assert_eq!(tracker.allocate_window_id(100), 1);
    assert_eq!(tracker.allocate_window_id(200), 2);
    assert_eq!(tracker.allocate_window_id(100), 1);
    assert_eq!(tracker.get_window_id(200), Some(2));
    assert_eq!(tracker.get_surface_id(2), Some(200));
    assert_eq!(tracker.surface_count(), 2);
    assert_eq!(tracker.remove_surface(100), Some(1));
    assert_eq!(tracker.remove_surface(100), None);
    assert_eq!(tracker.get_surface_id(1), None);
    assert_eq!(tracker.allocate_window_id(100), 3);
    assert_eq!(tracker.get_all_mappings().len(), 2);
}

#[test]
fn header_decode_ignores_trailing_bytes() {
    let header = FrameHeader::new(1, 2, 3, 4);
    let mut buf = BytesMut::new();
    header.encode(&mut buf);
    let mut bytes = buf.to_vec();
    bytes.push(0xEE);
    assert_eq!(FrameHeader::decode(&bytes), Some(header));
}
