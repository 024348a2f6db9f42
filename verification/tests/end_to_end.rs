//! What one side writes, the other side reads: compositor frames through
//! the viewer's readers, message prefixes, and repeated window commits.

use wayland_remote::protocol::codec::{decode_message, encode_message, Cursor};
use wayland_remote::protocol::compress::Compression;
use wayland_remote::protocol::message::{Message, WindowEventKind, FRAME_HEADER_SIZE};
use wayland_remote::server::bridge::NetCommand;
use wayland_remote::server::net::session::frame_stream_bytes;
use wayland_remote::server::net::{coalesce, plan_deliveries, pump_round, Delivery};
use wayland_remote::server::rendering::FrameBuffer as ServerFrame;
use wayland_remote::server::streaming::protocol::{encode_frame, FrameHeader as RawHeader};
use wayland_remote::server::window::WindowManager;
use wayland_remote::viewer::network::FrameHeader as ViewerRawHeader;
use wayland_remote::viewer::session::{frame_from_payload, frame_stream_header};

fn gradient(len: usize) -> Vec<u8> {
    (0..len).map(|i| (i * 7 % 251) as u8).collect()
}

#[test]
fn compositor_frame_reaches_viewer_raw_and_lz4() {
    let f = ServerFrame { data: gradient(3 * 2 * 4), width: 3, height: 2, stride: 12, window_id: 5 };
    for (compression, frame_id) in [(Compression::Raw, 1u64), (Compression::Lz4, 2u64)] {
        let bytes = frame_stream_bytes(&f, frame_id, compression, 4242);
        let header = frame_stream_header(&bytes[..FRAME_HEADER_SIZE]).unwrap();
        assert_eq!(header.compressed_size as usize, bytes.len() - FRAME_HEADER_SIZE);
        let frame = frame_from_payload(&header, bytes[FRAME_HEADER_SIZE..].to_vec()).unwrap();
        assert_eq!(frame.data, f.data);
        assert_eq!(
            (frame.width, frame.height, frame.stride, frame.frame_id, frame.timestamp_ns, frame.window_id),
            (3, 2, 12, frame_id, 4242, 5)
        );
    }
}

#[test]
fn compositor_raw_header_reads_on_viewer() {
    let h = RawHeader::new(0x0102_0304, 640, 480, 0x1122_3344_5566_7788);
    let pixels = vec![9u8; 8];
    let buf = encode_frame(&h, &pixels);
    let v = ViewerRawHeader::decode(&buf[..20]).unwrap();
    assert!(ViewerRawHeader::decode(&buf).is_err());
    assert!(ViewerRawHeader::decode(&buf[..21]).is_err());
    assert_eq!((v.window_id, v.width, v.height, v.timestamp), (0x0102_0304, 640, 480, 0x1122_3344_5566_7788));
    assert_eq!(v.payload_size(), 640 * 480 * 4);
    assert_eq!(&buf[20..], &pixels[..]);
}

#[test]
fn every_proper_prefix_of_a_message_fails() {
    let msgs = vec![
        Message::WindowEvent {
            window_id: 99,
            event: WindowEventKind::Created { width: 100, height: 100, title: "x".into() },
        },
        Message::Hello { version: 1, client_name: "a viewer".into() },
        Message::Ping { timestamp_ns: u64::MAX },
    ];
    for msg in msgs {
        let mut buf = Vec::new();
        encode_message(&msg, &mut buf);
        for len in 0..buf.len() {
            let mut cursor = Cursor::new(&buf[..len]);
            assert!(decode_message(&mut cursor).is_err(), "prefix of {len} bytes decoded");
        }
        let mut cursor = Cursor::new(&buf);
        assert_eq!(decode_message(&mut cursor).unwrap(), msg);
    }
}

#[test]
fn a_window_is_announced_once() {
    let mut wm = WindowManager::new();
    wm.register(7);
    wm.mark_acked(7);
    wm.on_commit(7, 30, 40);
    assert_eq!(
        wm.drain_events(),
        vec![(1, WindowEventKind::Created { width: 30, height: 40, title: String::new() })]
    );
    wm.mark_acked(7);
    wm.on_commit(7, 30, 40);
    wm.on_commit(7, 50, 40);
    assert_eq!(wm.drain_events(), vec![(1, WindowEventKind::Resized { width: 50, height: 40 })]);
}

#[test]
fn window_ids_are_not_reused() {
    let mut wm = WindowManager::new();
    wm.register(1);
    wm.register(2);
    wm.destroy(1);
    wm.register(3);
    assert_eq!(wm.surface_for(3), Some(3));
    assert_eq!(wm.surface_id_for(1), None);
    assert_eq!(wm.surface_id_for(2), Some(2));
}

#[test]
fn cursor_targets_pointer_window_then_focus() {
    let mut wm = WindowManager::new();
    assert_eq!(wm.cursor_window_id(None), None);
    wm.register(10);
    wm.mark_acked(10);
    wm.on_commit(10, 5, 5);
    wm.register(20);
    assert_eq!(wm.cursor_window_id(Some(20)), Some(2));
    assert_eq!(wm.cursor_window_id(Some(99)), Some(1));
    assert_eq!(wm.cursor_window_id(None), Some(1));
}

#[test]
fn pump_sends_newest_frame_to_each_slot_then_events_in_order() {
    let frame = |id: u8| NetCommand::Frame {
        frame: ServerFrame { data: vec![id; 4], width: 1, height: 1, stride: 4, window_id: 0 },
        frame_id: id as u64,
    };
    let batch = coalesce(vec![
        frame(1),
        NetCommand::WindowEvents(vec![(1, WindowEventKind::Focused)]),
        frame(2),
        NetCommand::WindowEvents(vec![(2, WindowEventKind::Destroyed)]),
        NetCommand::Shutdown,
    ]);
    assert_eq!(batch.frame.as_ref().map(|(f, id)| (f.data[0], *id)), Some((2, 2)));
    assert!(batch.shutdown);
    assert_eq!(
        plan_deliveries(&batch, 2),
        vec![
            Delivery::Frame { slot: 0 },
            Delivery::Frame { slot: 1 },
            Delivery::Events { slot: 0, list: 0 },
            Delivery::Events { slot: 1, list: 0 },
            Delivery::Events { slot: 0, list: 1 },
            Delivery::Events { slot: 1, list: 1 },
        ]
    );
    let empty = coalesce(vec![NetCommand::Shutdown]);
    assert!(plan_deliveries(&empty, 3).is_empty());
}

#[test]
fn pump_round_keeps_only_the_newest_of_a_burst() {
    let burst: Vec<NetCommand> = (1..=5u8)
        .map(|id| NetCommand::Frame {
            frame: ServerFrame { data: vec![id - 1; 4], width: 1, height: 1, stride: 4, window_id: 0 },
            frame_id: id as u64,
        })
        .chain(std::iter::once(NetCommand::Shutdown))
        .collect();
    let round = pump_round(burst, 1);
    assert_eq!(round.plan, vec![Delivery::Frame { slot: 0 }]);
    assert_eq!(round.batch.frame.as_ref().map(|(f, id)| (f.data[0], *id)), Some((4, 5)));
    assert!(round.batch.shutdown);
}

#[test]
fn serials_follow_serial_after() {
    let mut r = wayland_remote::server::input::InputRouter::new();
    for _ in 0..3 {
        r.next_serial();
    }
    assert_eq!(r.next_serial(), 4);
}
