//! Decisions of the Win32 display: UTF-16 strings for the window API, each
//! child window's size negotiation, focus on activation, native-window
//! bookkeeping for window events, pixel packing for the blit, and what the
//! network task does with each control message.

use vstd::prelude::*;

use crate::protocol::message::{Message, MessageV, WindowEventKind, WindowEventKindV};
use vstd::std_specs::iter::IteratorSpec;

verus! {

/// The UTF-16 code units of a character.
pub open spec fn utf16_units(c: char) -> Seq<u16> {
    let v = c as u32;
    if v < 0x10000 {
        seq![v as u16]
    } else {
        let w = (v - 0x10000) as u32;
        seq![(0xD800 + w / 0x400) as u16, (0xDC00 + w % 0x400) as u16]
    }
}

/// The UTF-16 encoding of a character sequence.
pub open spec fn utf16_encode(s: Seq<char>) -> Seq<u16>
    decreases s.len(),
{
    if s.len() == 0 {
        Seq::empty()
    } else {
        utf16_encode(s.drop_last()) + utf16_units(s.last())
    }
}

/// Encode a string as a NUL-terminated UTF-16 buffer for the wide-string
/// arguments of the window API.
pub fn widen(s: &str) -> (v: Vec<u16>)
    ensures
        v@ == utf16_encode(s@).push(0u16),
{
    let mut v: Vec<u16> = Vec::new();
    let ghost cs: Seq<char> = s@;
    for c in it: s.chars()
        invariant
            it.seq() == cs,
            cs == s@,
            v@ == utf16_encode(cs.take(it.index())),
    {
        let ghost k = it.index();
        proof {
            assert(cs.take(k + 1).drop_last() =~= cs.take(k));
            assert(cs.take(k + 1).last() == c);
        }
        let u = c as u32;
        if u < 0x10000 {
            v.push(u as u16);
        } else {
            let w = u - 0x10000;
            v.push((0xD800 + w / 0x400) as u16);
            v.push((0xDC00 + w % 0x400) as u16);
        }
        assert(v@ =~= utf16_encode(cs.take(k + 1)));
    }
    assert(cs.take(cs.len() as int) =~= cs);
    v.push(0);
    v
}

/// Size negotiation state of one native child window.
#[derive(Debug, Clone, Copy, PartialEq, Eq, Structural)]
pub struct ChildWindowState {
    /// The compositor window this native window shows.
    pub window_id: u64,
    /// A resize request is in flight; local size changes are not sent again
    /// until the compositor answers with a Resized event.
    pub pending_configure: bool,
    /// Current client-area width.
    pub client_w: u32,
    /// Current client-area height.
    pub client_h: u32,
}

impl ChildWindowState {
    /// A freshly created child window of the given client size.
    pub fn new(window_id: u64, width: u32, height: u32) -> (s: Self)
        ensures
            s == (ChildWindowState { window_id, pending_configure: false, client_w: width, client_h: height }),
    {
        ChildWindowState { window_id, pending_configure: false, client_w: width, client_h: height }
    }

    /// The client area was resized (WM_SIZE: width in the low word of
    /// lParam, height in the next word). Returns the resize request to send
    /// to the compositor, when none is in flight and the area is not empty.
    pub fn on_size(&mut self, lparam: isize) -> (req: Option<(u64, u32, u32)>)
        ensures
            final(self).window_id == old(self).window_id,
            final(self).client_w == (lparam as u64 % 0x10000) as u32,
            final(self).client_h == ((lparam as u64 / 0x10000) % 0x10000) as u32,
            ({
                let sends = !old(self).pending_configure && final(self).client_w > 0 && final(self).client_h > 0;
                &&& final(self).pending_configure == (old(self).pending_configure || sends)
                &&& req == (if sends {
                    Some((old(self).window_id, final(self).client_w, final(self).client_h))
                } else {
                    None
                })
            }),
    {
        let w = (lparam & 0xFFFF) as u32;
        let h = ((lparam >> 16) & 0xFFFF) as u32;
        assert((lparam & 0xFFFF) as u32 == (lparam as u64 % 0x10000) as u32) by (bit_vector);
        assert(((lparam >> 16) & 0xFFFF) as u32 == ((lparam as u64 / 0x10000) % 0x10000) as u32)
            by (bit_vector);
        self.client_w = w;
        self.client_h = h;
        if !self.pending_configure && w > 0 && h > 0 {
            self.pending_configure = true;
            Some((self.window_id, w, h))
        } else {
            None
        }
    }

    /// The compositor answered with a size: local size changes may be sent again.
    pub fn on_server_resize(&mut self)
        ensures
            *final(self) == (ChildWindowState { pending_configure: false, ..*old(self) }),
    {
        self.pending_configure = false;
    }
}

/// Whether a WM_ACTIVATE wParam activates the window (low word 1 or 2).
pub fn activation_focuses(wparam: usize) -> (b: bool)
    ensures
        b == (wparam % 0x10000 == 1 || wparam % 0x10000 == 2),
{
    let activate = (wparam & 0xFFFF) as u32;
    assert((wparam & 0xFFFF) as u32 == (wparam % 0x10000) as u32) by (bit_vector);
    activate == 1 || activate == 2
}

/// What the native side does for a window event.
#[derive(Debug, Clone, PartialEq, Eq)]
pub enum NativeWindowOp {
    /// Create a native window of this size and title.
    Create { width: u32, height: u32, title: String },
    /// Destroy the native window and drop its frames.
    Destroy,
    /// Resize the native window (clearing its pending resize request).
    Resize { width: u32, height: u32 },
    /// Nothing to do.
    Nothing,
}

/// The native operation a window event calls for.
pub fn native_op_for(event: &WindowEventKind) -> (op: NativeWindowOp)
    ensures
        match event@ {
            WindowEventKindV::Created { width, height, title } => op matches NativeWindowOp::Create {
                width: w,
                height: h,
                title: t,
            } && w == width && h == height && t@ == title,
            WindowEventKindV::Destroyed => op == NativeWindowOp::Destroy,
            WindowEventKindV::Resized { width, height } => op == (NativeWindowOp::Resize { width, height }),
            _ => op == NativeWindowOp::Nothing,
        },
{
    match event {
        WindowEventKind::Created { width, height, title } => NativeWindowOp::Create {
            width: *width,
            height: *height,
            title: title.clone(),
        },
        WindowEventKind::Destroyed => NativeWindowOp::Destroy,
        WindowEventKind::Resized { width, height } => NativeWindowOp::Resize { width: *width, height: *height },
        _ => NativeWindowOp::Nothing,
    }
}

/// Whether a cursor sprite holds exactly `width × height` BGRA pixels.
pub fn cursor_data_fits(len: usize, width: u32, height: u32) -> (b: bool)
    ensures
        b == (len == width * height * 4),
{
    let w = width as u128;
    let h = height as u128;
    assert(w * h * 4 <= 0x4_0000_0000_0000_0000u128) by (nonlinear_arith)
        requires
            w <= 0xffff_ffff,
            h <= 0xffff_ffff,
    ;
    (len as u128) == w * h * 4
}

/// The first `height` rows of `width × 4` bytes, taken `stride` bytes
/// apart, packed back to back.
pub open spec fn packed_rows(data: Seq<u8>, row_bytes: int, stride: int, rows: nat) -> Seq<u8>
    decreases rows,
{
    if rows == 0 {
        Seq::empty()
    } else {
        let start = (rows - 1) * stride;
        packed_rows(data, row_bytes, stride, (rows - 1) as nat) + data.subrange(start, start + row_bytes)
    }
}

/// Pack padded rows contiguously for a 32-bit top-down blit.
pub fn pack_rows(data: &[u8], width: u32, height: u32, stride: u32) -> (out: Vec<u8>)
    requires
        height > 0 ==> (height - 1) * stride + width * 4 <= data@.len(),
        height * stride + width * 4 <= usize::MAX,
    ensures
        out@ == packed_rows(data@, width * 4, stride as int, height as nat),
{
    let row = width as usize * 4;
    let h = height as usize;
    let st = stride as usize;
    let mut out: Vec<u8> = Vec::new();
    let mut y: usize = 0;
    while y < h
        invariant
            y <= h,
            h == height,
            st == stride,
            row == width * 4,
            h > 0 ==> (h - 1) * st + row <= data@.len(),
            h * st + row <= usize::MAX,
            out@ == packed_rows(data@, row as int, st as int, y as nat),
        decreases h - y,
    {
        assert(y * st + row <= data@.len() && y * st + row <= h * st + row) by (nonlinear_arith)
            requires
                y < h,
                (h - 1) * st + row <= data@.len(),
        ;
        let src = y * st;
        let piece = vstd::slice::slice_subrange(data, src, src + row);
        let mut k: usize = 0;
        let ghost before = out@;
        while k < piece.len()
            invariant
                k <= piece@.len(),
                out@ == before + piece@.take(k as int),
            decreases piece@.len() - k,
        {
            out.push(piece[k]);
            k = k + 1;
            assert(out@ =~= before + piece@.take(k as int));
        }
        assert(piece@.take(k as int) =~= piece@);
        y = y + 1;
    }
    out
}

/// What the viewer's network task does with a control message.
#[derive(Debug, Clone, PartialEq)]
pub enum ViewerControlAction {
    /// Hand a window event to the UI thread.
    WindowEvent { window_id: u64, event: WindowEventKind },
    /// The outstanding Ping came back; show the round trip in milliseconds.
    ShowRtt { rtt_ms: u64 },
    /// Answer a server Ping with this Pong.
    Reply(Message),
    /// Nothing to do.
    Ignore,
}

/// Decide what to do with a control message, given the timestamp of the
/// outstanding Ping (if any) and the clock reading `now_ns`.
pub fn viewer_control_action(msg: Message, pending_ping: Option<u64>, now_ns: u64) -> (a: ViewerControlAction)
    ensures
        match msg@ {
            MessageV::WindowEvent { window_id, event } => a matches ViewerControlAction::WindowEvent {
                window_id: w,
                event: e,
            } && w == window_id && e@ == event,
            MessageV::Pong { timestamp_ns } => if pending_ping == Some(timestamp_ns) {
                a == (ViewerControlAction::ShowRtt {
                    rtt_ms: (if now_ns >= timestamp_ns { now_ns - timestamp_ns } else { 0 }) as u64 / 1_000_000,
                })
            } else {
                a == ViewerControlAction::Ignore
            },
            MessageV::Ping { timestamp_ns } => a matches ViewerControlAction::Reply(Message::Pong { timestamp_ns: t })
                && t == timestamp_ns,
            _ => a == ViewerControlAction::Ignore,
        },
{
    match msg {
        Message::WindowEvent { window_id, event } => ViewerControlAction::WindowEvent { window_id, event },
        Message::Pong { timestamp_ns } => {
            if pending_ping == Some(timestamp_ns) {
                ViewerControlAction::ShowRtt { rtt_ms: now_ns.saturating_sub(timestamp_ns) / 1_000_000 }
            } else {
                ViewerControlAction::Ignore
            }
        },
        Message::Ping { timestamp_ns } => ViewerControlAction::Reply(Message::Pong { timestamp_ns }),
        _ => ViewerControlAction::Ignore,
    }
}

} // verus!
