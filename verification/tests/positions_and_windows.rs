//! Where a failed decode leaves the cursor, refused lz4 blocks, the
//! telemetry rate window and commit latency, serial counting, and the
//! control-stream reader under any split of its input.

use wayland_remote::protocol::codec::{decode_message, decode_varint, decode_window_event_kind, encode_message, Cursor, DecodeError};
use wayland_remote::protocol::compress::{compress, decompress};
use wayland_remote::protocol::message::{Message, WindowEventKind};
use wayland_remote::server::input::InputRouter;
use wayland_remote::server::net::cert::ALPN_PROTOCOL;
use wayland_remote::server::net::session::{MessageReader, ReadStep};
use wayland_remote::server::state::Telemetry;

#[test]
fn failed_varint_reads_consume_what_they_looked_at() {
    let empty: [u8; 0] = [];
    let mut c = Cursor::new(&empty);
    assert_eq!(decode_varint(&mut c), Err(DecodeError::UnexpectedEof));
    assert_eq!(c.position(), 0);

    let short = [0x80u8, 0x80];
    let mut c = Cursor::new(&short);
    assert_eq!(decode_varint(&mut c), Err(DecodeError::UnexpectedEof));
    assert_eq!(c.position(), 2);

    let long = [0x80u8; 12];
    let mut c = Cursor::new(&long);
    assert_eq!(decode_varint(&mut c), Err(DecodeError::UnexpectedEof));
    assert_eq!(c.position(), 10);
}

#[test]
fn unknown_window_tag_reads_only_the_tag() {
    for (bytes, tag) in [(vec![0x06u8, 1, 2, 3], 6u64), (vec![0x00u8, 9], 0u64), (vec![0x80u8, 0x01, 7], 128u64)] {
        let mut c = Cursor::new(&bytes);
        assert_eq!(decode_window_event_kind(&mut c), Err(DecodeError::UnknownWindowTag(tag)));
        assert_eq!(c.position(), if tag == 128 { 2 } else { 1 });
    }
}

#[test]
fn message_reads_consume_prefix_and_whole_payload() {
    // Declared payload longer than what is there: only the length is read.
    let short = [0x05u8, 0x01, 0x02];
    let mut c = Cursor::new(&short);
    assert_eq!(decode_message(&mut c), Err(DecodeError::UnexpectedEof));
    assert_eq!(c.position(), 1);
    // A whole payload with an unknown tag is consumed all the same.
    let bad = [0x02u8, 0x63, 0x00, 0xAA];
    let mut c = Cursor::new(&bad);
    assert_eq!(decode_message(&mut c), Err(DecodeError::UnknownMessageTag(99)));
    assert_eq!(c.position(), 3);
}

#[test]
fn lz4_blocks_with_huge_ff_runs_are_refused() {
    // A length run whose sum would overflow the decoder's u32 counter.
    let mut block = vec![0xF0u8];
    block.extend(std::iter::repeat(0xFFu8).take(16_843_009));
    block.push(0x00);
    assert_eq!(decompress(&block, 64), Err(DecodeError::DecompressFailed));
    // One byte shorter is read, and fails only for running past the input.
    block.remove(1);
    assert_eq!(decompress(&block, 64), Err(DecodeError::DecompressFailed));
    // White pixels still round-trip.
    let white = vec![0xFFu8; 100_000];
    assert_eq!(decompress(&compress(&white), white.len()).unwrap(), white);
}

#[test]
fn alpn_is_wayland_remote_1() {
    assert_eq!(&ALPN_PROTOCOL[..], b"wayland-remote/1");
}

#[test]
fn rate_window_rolls_only_after_a_second() {
    let mut t = Telemetry::new();
    t.record_frame(10, 3_000_000, 5_000_000);
    t.record_frame(10, 1_000_000, 0);
    assert_eq!(t.roll_window(999_999_999), (0, 0, 0));
    assert_eq!(t.roll_window(1_000_000_000), (2, 4, 5));
    assert_eq!(t.roll_window(2_000_000_000), (0, 0, 0));
    let s = t.snapshot();
    assert_eq!(s.frames_total, 2);
    assert_eq!(s.frame_bytes_total, 20);
}

#[test]
fn commit_latency_pairs_one_input() {
    let mut t = Telemetry::new();
    t.record_input();
    t.commit_with_input_age(Some(7_400_000));
    assert_eq!(t.snapshot().last_input_to_commit_ms, Some(7));
    t.commit_with_input_age(None);
    assert_eq!(t.snapshot().last_input_to_commit_ms, Some(7));
    t.record_input();
    t.commit_with_input_age(Some(6_000_000_000));
    assert_eq!(t.snapshot().last_input_to_commit_ms, Some(7));
    assert_eq!(t.snapshot().commits_total, 3);
}

#[test]
fn serials_count_up_from_one() {
    let mut r = InputRouter::new();
    for k in 0..1000u32 {
        assert_eq!(r.next_serial(), k + 1);
    }
}

#[test]
fn reader_gives_messages_in_order_under_any_split() {
    let msgs = vec![
        Message::Ping { timestamp_ns: 1 },
        Message::Hello { version: 1, client_name: "viewer".into() },
        Message::WindowEvent { window_id: 4, event: WindowEventKind::Focused },
    ];
    let mut bytes = Vec::new();
    for m in &msgs {
        encode_message(m, &mut bytes);
    }
    for chunk in 1..=bytes.len() {
        let mut reader = MessageReader::new();
        let mut got = Vec::new();
        for piece in bytes.chunks(chunk) {
            reader.feed(piece);
            loop {
                match reader.poll() {
                    ReadStep::Ready(Ok(m)) => got.push(m),
                    ReadStep::NeedMore => break,
                    other => panic!("unexpected {other:?}"),
                }
            }
        }
        assert_eq!(got, msgs, "chunk size {chunk}");
    }
}
