//! Input event protocol for bidirectional streaming.
//!
//! Input events travel from the viewer back to the compositor in this
//! format (all integers big-endian):
//! - event type: u8
//! - window id: u32
//! - event data, by type: key `u32 key_code, u8 modifiers`; mouse move
//!   `i32 x, i32 y`; mouse button `u8 button`; scroll `i32 horizontal,
//!   i32 vertical`.
//!
//! Event types: 0x01 key press, 0x02 key release, 0x03 mouse move,
//! 0x04 button press, 0x05 button release, 0x06 scroll.

use vstd::prelude::*;

use bytes::BytesMut;

use crate::server::streaming::buf::{
    buf_from_slice, buf_get_i32, buf_get_u32, buf_get_u8, buf_len, buf_put_i32, buf_put_u32,
    buf_put_u8, buf_with_capacity, bytes_of, fits_in_buffer,
};
use crate::wire::{be_bytes_u32, be_u32, lemma_be_u32_roundtrip, lemma_i32_bits, read_be_u32};

verus! {

/// Size of the fixed event header (event type + window id).
pub const EVENT_HEADER_SIZE: usize = 5usize;

/// Input event types.
#[derive(Debug, Clone, Copy, PartialEq, Eq, Structural)]
pub enum InputEventType {
    /// Key press event.
    KeyPress,
    /// Key release event.
    KeyRelease,
    /// Mouse move event (relative to window).
    MouseMove,
    /// Mouse button press.
    MouseButtonPress,
    /// Mouse button release.
    MouseButtonRelease,
    /// Mouse scroll/wheel event.
    MouseScroll,
}

/// The wire byte of an event type.
pub open spec fn event_type_byte(t: InputEventType) -> u8 {
    match t {
        InputEventType::KeyPress => 0x01,
        InputEventType::KeyRelease => 0x02,
        InputEventType::MouseMove => 0x03,
        InputEventType::MouseButtonPress => 0x04,
        InputEventType::MouseButtonRelease => 0x05,
        InputEventType::MouseScroll => 0x06,
    }
}

/// The event type a wire byte names, if any.
pub open spec fn event_type_of(v: u8) -> Option<InputEventType> {
    if v == 0x01 {
        Some(InputEventType::KeyPress)
    } else if v == 0x02 {
        Some(InputEventType::KeyRelease)
    } else if v == 0x03 {
        Some(InputEventType::MouseMove)
    } else if v == 0x04 {
        Some(InputEventType::MouseButtonPress)
    } else if v == 0x05 {
        Some(InputEventType::MouseButtonRelease)
    } else if v == 0x06 {
        Some(InputEventType::MouseScroll)
    } else {
        None
    }
}

impl InputEventType {
    /// Convert a wire byte to an event type; unknown bytes give `None`.
    pub fn from_u8(value: u8) -> (r: Option<Self>)
        ensures
            r == event_type_of(value),
    {
        match value {
            0x01 => Some(Self::KeyPress),
            0x02 => Some(Self::KeyRelease),
            0x03 => Some(Self::MouseMove),
            0x04 => Some(Self::MouseButtonPress),
            0x05 => Some(Self::MouseButtonRelease),
            0x06 => Some(Self::MouseScroll),
            _ => None,
        }
    }

    /// The wire byte of this event type.
    pub fn as_u8(&self) -> (r: u8)
        ensures
            r == event_type_byte(*self),
    {
        match self {
            Self::KeyPress => 0x01,
            Self::KeyRelease => 0x02,
            Self::MouseMove => 0x03,
            Self::MouseButtonPress => 0x04,
            Self::MouseButtonRelease => 0x05,
            Self::MouseScroll => 0x06,
        }
    }
}

/// Keyboard event data.
#[derive(Debug, Clone, Copy, PartialEq, Eq, Structural)]
pub struct KeyEvent {
    /// Key code (Linux input event code).
    pub key_code: u32,
    /// Modifiers bitfield (shift, ctrl, alt, super).
    pub modifiers: u8,
}

/// Mouse move event data.
#[derive(Debug, Clone, Copy, PartialEq, Eq, Structural)]
pub struct MouseMoveEvent {
    /// X coordinate relative to the window (may be negative).
    pub x: i32,
    /// Y coordinate relative to the window (may be negative).
    pub y: i32,
}

/// Mouse button event data.
#[derive(Debug, Clone, Copy, PartialEq, Eq, Structural)]
pub struct MouseButtonEvent {
    /// Button number: 1 = left, 2 = right, 3 = middle, 4+ = additional buttons.
    pub button: u8,
}

/// Mouse scroll/wheel event data.
#[derive(Debug, Clone, Copy, PartialEq, Eq, Structural)]
pub struct MouseScrollEvent {
    /// Horizontal scroll amount (positive = right).
    pub horizontal: i32,
    /// Vertical scroll amount (positive = down).
    pub vertical: i32,
}

/// Wire bytes of a key event.
pub open spec fn key_event_bytes(k: KeyEvent) -> Seq<u8> {
    be_bytes_u32(k.key_code).push(k.modifiers)
}

/// The key event held in the first five bytes of `s`.
pub open spec fn key_event_from(s: Seq<u8>) -> KeyEvent {
    KeyEvent { key_code: be_u32(s), modifiers: s[4] }
}

/// Wire bytes of a pair of signed 32-bit values.
pub open spec fn i32_pair_bytes(a: i32, b: i32) -> Seq<u8> {
    be_bytes_u32(a as u32) + be_bytes_u32(b as u32)
}

/// Wire bytes of a mouse move event.
pub open spec fn mouse_move_bytes(m: MouseMoveEvent) -> Seq<u8> {
    i32_pair_bytes(m.x, m.y)
}

/// The mouse move event held in the first eight bytes of `s`.
pub open spec fn mouse_move_from(s: Seq<u8>) -> MouseMoveEvent {
    MouseMoveEvent { x: be_u32(s) as i32, y: be_u32(s.skip(4)) as i32 }
}

/// Wire bytes of a scroll event.
pub open spec fn mouse_scroll_bytes(m: MouseScrollEvent) -> Seq<u8> {
    i32_pair_bytes(m.horizontal, m.vertical)
}

/// The scroll event held in the first eight bytes of `s`.
pub open spec fn mouse_scroll_from(s: Seq<u8>) -> MouseScrollEvent {
    MouseScrollEvent { horizontal: be_u32(s) as i32, vertical: be_u32(s.skip(4)) as i32 }
}

impl KeyEvent {
    /// Size of an encoded `KeyEvent` in bytes.
    pub const ENCODED_SIZE: usize = 5usize;

    /// Append the event to `buf`.
    pub fn encode(&self, buf: &mut BytesMut)
        requires
            fits_in_buffer(bytes_of(*old(buf)).len() + 5),
        ensures
            bytes_of(*final(buf)) == bytes_of(*old(buf)) + key_event_bytes(*self),
    {
        buf_put_u32(buf, self.key_code);
        buf_put_u8(buf, self.modifiers);
        assert(bytes_of(*buf) =~= bytes_of(*old(buf)) + key_event_bytes(*self));
    }

    /// Take an event from the front of `buf`; `None`, leaving `buf` as it
    /// was, when fewer than five bytes remain.
    pub fn decode(buf: &mut BytesMut) -> (r: Option<Self>)
        ensures
            bytes_of(*old(buf)).len() < 5 ==> r is None && bytes_of(*final(buf)) == bytes_of(*old(buf)),
            bytes_of(*old(buf)).len() >= 5 ==> r == Some(key_event_from(bytes_of(*old(buf))))
                && bytes_of(*final(buf)) == bytes_of(*old(buf)).skip(5),
    {
        if buf_len(buf) < Self::ENCODED_SIZE {
            return None;
        }
        let ghost s = bytes_of(*buf);
        let key_code = buf_get_u32(buf);
        let modifiers = buf_get_u8(buf);
        assert(s.skip(4)[0] == s[4]);
        assert(s.skip(4).skip(1) =~= s.skip(5));
        Some(Self { key_code, modifiers })
    }
}

impl MouseMoveEvent {
    /// Size of an encoded `MouseMoveEvent` in bytes.
    pub const ENCODED_SIZE: usize = 8usize;

    /// Append the event to `buf`.
    pub fn encode(&self, buf: &mut BytesMut)
        requires
            fits_in_buffer(bytes_of(*old(buf)).len() + 8),
        ensures
            bytes_of(*final(buf)) == bytes_of(*old(buf)) + mouse_move_bytes(*self),
    {
        buf_put_i32(buf, self.x);
        buf_put_i32(buf, self.y);
        assert(bytes_of(*buf) =~= bytes_of(*old(buf)) + mouse_move_bytes(*self));
    }

    /// Take an event from the front of `buf`; `None`, leaving `buf` as it
    /// was, when fewer than eight bytes remain.
    pub fn decode(buf: &mut BytesMut) -> (r: Option<Self>)
        ensures
            bytes_of(*old(buf)).len() < 8 ==> r is None && bytes_of(*final(buf)) == bytes_of(*old(buf)),
            bytes_of(*old(buf)).len() >= 8 ==> r == Some(mouse_move_from(bytes_of(*old(buf))))
                && bytes_of(*final(buf)) == bytes_of(*old(buf)).skip(8),
    {
        if buf_len(buf) < Self::ENCODED_SIZE {
            return None;
        }
        let ghost s = bytes_of(*buf);
        let x = buf_get_i32(buf);
        let y = buf_get_i32(buf);
        assert(s.skip(4).skip(4) =~= s.skip(8));
        Some(Self { x, y })
    }
}

impl MouseButtonEvent {
    /// Size of an encoded `MouseButtonEvent` in bytes.
    pub const ENCODED_SIZE: usize = 1usize;

    /// Append the event to `buf`.
    pub fn encode(&self, buf: &mut BytesMut)
        requires
            fits_in_buffer(bytes_of(*old(buf)).len() + 1),
        ensures
            bytes_of(*final(buf)) == bytes_of(*old(buf)).push(self.button),
    {
        buf_put_u8(buf, self.button);
    }

    /// Take an event from the front of `buf`; `None`, leaving `buf` as it
    /// was, when it is empty.
    pub fn decode(buf: &mut BytesMut) -> (r: Option<Self>)
        ensures
            bytes_of(*old(buf)).len() == 0 ==> r is None && bytes_of(*final(buf)) == bytes_of(*old(buf)),
            bytes_of(*old(buf)).len() >= 1 ==> r == Some(MouseButtonEvent { button: bytes_of(*old(buf))[0] })
                && bytes_of(*final(buf)) == bytes_of(*old(buf)).skip(1),
    {
        if buf_len(buf) == 0 {
            return None;
        }
        let button = buf_get_u8(buf);
        Some(Self { button })
    }
}

impl MouseScrollEvent {
    /// Size of an encoded `MouseScrollEvent` in bytes.
    pub const ENCODED_SIZE: usize = 8usize;

    /// Append the event to `buf`.
    pub fn encode(&self, buf: &mut BytesMut)
        requires
            fits_in_buffer(bytes_of(*old(buf)).len() + 8),
        ensures
            bytes_of(*final(buf)) == bytes_of(*old(buf)) + mouse_scroll_bytes(*self),
    {
        buf_put_i32(buf, self.horizontal);
        buf_put_i32(buf, self.vertical);
        assert(bytes_of(*buf) =~= bytes_of(*old(buf)) + mouse_scroll_bytes(*self));
    }

    /// Take an event from the front of `buf`; `None`, leaving `buf` as it
    /// was, when fewer than eight bytes remain.
    pub fn decode(buf: &mut BytesMut) -> (r: Option<Self>)
        ensures
            bytes_of(*old(buf)).len() < 8 ==> r is None && bytes_of(*final(buf)) == bytes_of(*old(buf)),
            bytes_of(*old(buf)).len() >= 8 ==> r == Some(mouse_scroll_from(bytes_of(*old(buf))))
                && bytes_of(*final(buf)) == bytes_of(*old(buf)).skip(8),
    {
        if buf_len(buf) < Self::ENCODED_SIZE {
            return None;
        }
        let ghost s = bytes_of(*buf);
        let horizontal = buf_get_i32(buf);
        let vertical = buf_get_i32(buf);
        assert(s.skip(4).skip(4) =~= s.skip(8));
        Some(Self { horizontal, vertical })
    }
}

/// Input event forwarded from viewer to server.
#[derive(Debug, Clone, Copy, PartialEq, Eq, Structural)]
pub enum InputEvent {
    /// Key press.
    KeyPress(KeyEvent),
    /// Key release.
    KeyRelease(KeyEvent),
    /// Mouse move.
    MouseMove(MouseMoveEvent),
    /// Mouse button press.
    MouseButtonPress(MouseButtonEvent),
    /// Mouse button release.
    MouseButtonRelease(MouseButtonEvent),
    /// Mouse scroll.
    MouseScroll(MouseScrollEvent),
}

/// Complete input event with its target window.
#[derive(Debug, Clone, Copy, PartialEq, Eq, Structural)]
pub struct WindowInputEvent {
    /// Target window ID.
    pub window_id: u32,
    /// The input event.
    pub event: InputEvent,
}

/// The type tag of an event.
pub open spec fn event_type_of_event(e: InputEvent) -> InputEventType {
    match e {
        InputEvent::KeyPress(_) => InputEventType::KeyPress,
        InputEvent::KeyRelease(_) => InputEventType::KeyRelease,
        InputEvent::MouseMove(_) => InputEventType::MouseMove,
        InputEvent::MouseButtonPress(_) => InputEventType::MouseButtonPress,
        InputEvent::MouseButtonRelease(_) => InputEventType::MouseButtonRelease,
        InputEvent::MouseScroll(_) => InputEventType::MouseScroll,
    }
}

/// The event-specific bytes that follow the header.
pub open spec fn event_payload_bytes(e: InputEvent) -> Seq<u8> {
    match e {
        InputEvent::KeyPress(k) | InputEvent::KeyRelease(k) => key_event_bytes(k),
        InputEvent::MouseMove(m) => mouse_move_bytes(m),
        InputEvent::MouseButtonPress(b) | InputEvent::MouseButtonRelease(b) => seq![b.button],
        InputEvent::MouseScroll(s) => mouse_scroll_bytes(s),
    }
}

/// The full wire encoding of a window input event.
pub open spec fn window_input_bytes(e: WindowInputEvent) -> Seq<u8> {
    seq![event_type_byte(event_type_of_event(e.event))] + be_bytes_u32(e.window_id)
        + event_payload_bytes(e.event)
}

/// Size of the event data that follows the header for an event type.
pub open spec fn payload_size_of(t: InputEventType) -> int {
    match t {
        InputEventType::KeyPress | InputEventType::KeyRelease => 5,
        InputEventType::MouseMove | InputEventType::MouseScroll => 8,
        InputEventType::MouseButtonPress | InputEventType::MouseButtonRelease => 1,
    }
}

/// The event of type `t` held at the front of `d` (which holds at least
/// `payload_size_of(t)` bytes).
pub open spec fn event_from(t: InputEventType, d: Seq<u8>) -> InputEvent {
    match t {
        InputEventType::KeyPress => InputEvent::KeyPress(key_event_from(d)),
        InputEventType::KeyRelease => InputEvent::KeyRelease(key_event_from(d)),
        InputEventType::MouseMove => InputEvent::MouseMove(mouse_move_from(d)),
        InputEventType::MouseButtonPress => InputEvent::MouseButtonPress(MouseButtonEvent { button: d[0] }),
        InputEventType::MouseButtonRelease => InputEvent::MouseButtonRelease(MouseButtonEvent { button: d[0] }),
        InputEventType::MouseScroll => InputEvent::MouseScroll(mouse_scroll_from(d)),
    }
}

/// Decoding of a window input event at the front of `s`: the event and
/// the number of bytes it takes, or `None` for a short buffer or an
/// unknown type byte.
pub open spec fn decode_window_input(s: Seq<u8>) -> Option<(WindowInputEvent, usize)> {
    if s.len() < 5 {
        None
    } else {
        match event_type_of(s[0]) {
            None => None,
            Some(t) => if s.len() < 5 + payload_size_of(t) {
                None
            } else {
                Some((
                    WindowInputEvent { window_id: be_u32(s.skip(1)), event: event_from(t, s.skip(5)) },
                    (5 + payload_size_of(t)) as usize,
                ))
            },
        }
    }
}

impl WindowInputEvent {
    /// The event type of this event.
    fn event_type(&self) -> (t: InputEventType)
        ensures
            t == event_type_of_event(self.event),
    {
        match &self.event {
            InputEvent::KeyPress(_) => InputEventType::KeyPress,
            InputEvent::KeyRelease(_) => InputEventType::KeyRelease,
            InputEvent::MouseMove(_) => InputEventType::MouseMove,
            InputEvent::MouseButtonPress(_) => InputEventType::MouseButtonPress,
            InputEvent::MouseButtonRelease(_) => InputEventType::MouseButtonRelease,
            InputEvent::MouseScroll(_) => InputEventType::MouseScroll,
        }
    }

    /// Encode the complete event: type byte, big-endian window id, event data.
    pub fn encode(&self) -> (buf: BytesMut)
        ensures
            bytes_of(buf) == window_input_bytes(*self),
    {
        let event_data_size = match &self.event {
            InputEvent::KeyPress(_) | InputEvent::KeyRelease(_) => KeyEvent::ENCODED_SIZE,
            InputEvent::MouseMove(_) => MouseMoveEvent::ENCODED_SIZE,
            InputEvent::MouseButtonPress(_) | InputEvent::MouseButtonRelease(_) => MouseButtonEvent::ENCODED_SIZE,
            InputEvent::MouseScroll(_) => MouseScrollEvent::ENCODED_SIZE,
        };
        let mut buf = buf_with_capacity(EVENT_HEADER_SIZE + event_data_size);
        buf_put_u8(&mut buf, self.event_type().as_u8());
        buf_put_u32(&mut buf, self.window_id);
        let ghost head = bytes_of(buf);
        match &self.event {
            InputEvent::KeyPress(k) | InputEvent::KeyRelease(k) => k.encode(&mut buf),
            InputEvent::MouseMove(m) => m.encode(&mut buf),
            InputEvent::MouseButtonPress(b) | InputEvent::MouseButtonRelease(b) => {
                b.encode(&mut buf);
                assert(bytes_of(buf) =~= head + seq![b.button]);
            },
            InputEvent::MouseScroll(s) => s.encode(&mut buf),
        }
        assert(bytes_of(buf) =~= window_input_bytes(*self));
        buf
    }

    /// Decode an event from the front of `buf`, with the number of bytes it
    /// takes; `None` if `buf` holds no complete event or its type byte is
    /// unknown.
    pub fn decode(buf: &[u8]) -> (r: Option<(Self, usize)>)
        ensures
            r == decode_window_input(buf@),
    {
        if buf.len() < EVENT_HEADER_SIZE {
            return None;
        }
        let event_type = match InputEventType::from_u8(buf[0]) {
            Some(t) => t,
            None => return None,
        };
        let window_id = read_be_u32(buf, 1);
        let event_data = slice_from(buf, EVENT_HEADER_SIZE);
        let mut event_buf = buf_from_slice(event_data);
        let ghost d = buf@.skip(5);
        assert(event_data@ =~= d);
        let (event, event_size) = match event_type {
            InputEventType::KeyPress => match KeyEvent::decode(&mut event_buf) {
                Some(key) => (InputEvent::KeyPress(key), KeyEvent::ENCODED_SIZE),
                None => return None,
            },
            InputEventType::KeyRelease => match KeyEvent::decode(&mut event_buf) {
                Some(key) => (InputEvent::KeyRelease(key), KeyEvent::ENCODED_SIZE),
                None => return None,
            },
            InputEventType::MouseMove => match MouseMoveEvent::decode(&mut event_buf) {
                Some(mouse) => (InputEvent::MouseMove(mouse), MouseMoveEvent::ENCODED_SIZE),
                None => return None,
            },
            InputEventType::MouseButtonPress => match MouseButtonEvent::decode(&mut event_buf) {
                Some(btn) => (InputEvent::MouseButtonPress(btn), MouseButtonEvent::ENCODED_SIZE),
                None => return None,
            },
            InputEventType::MouseButtonRelease => match MouseButtonEvent::decode(&mut event_buf) {
                Some(btn) => (InputEvent::MouseButtonRelease(btn), MouseButtonEvent::ENCODED_SIZE),
                None => return None,
            },
            InputEventType::MouseScroll => match MouseScrollEvent::decode(&mut event_buf) {
                Some(scroll) => (InputEvent::MouseScroll(scroll), MouseScrollEvent::ENCODED_SIZE),
                None => return None,
            },
        };
        let total_size = EVENT_HEADER_SIZE + event_size;
        if buf.len() < total_size {
            return None;
        }
        Some((Self { window_id, event }, total_size))
    }
}

/// The bytes of `s` from `at` on.
fn slice_from(s: &[u8], at: usize) -> (r: &[u8])
    requires
        at <= s@.len(),
    ensures
        r@ == s@.skip(at as int),
{
    let r = vstd::slice::slice_subrange(s, at, s.len());
    assert(r@ =~= s@.skip(at as int));
    r
}

/// Every window input event decodes back to itself from its encoding,
/// taking exactly the encoded length, whatever bytes follow it; that length
/// is the 5-byte header plus the event's data (5 bytes for a key, 8 for a
/// move or scroll, 1 for a button).
pub proof fn lemma_window_input_roundtrip(e: WindowInputEvent, rest: Seq<u8>)
    ensures
        decode_window_input(window_input_bytes(e) + rest)
            == Some((e, window_input_bytes(e).len() as usize)),
        window_input_bytes(e).len() == EVENT_HEADER_SIZE + payload_size_of(event_type_of_event(e.event)),
{
    let p = event_payload_bytes(e.event);
    let s = window_input_bytes(e) + rest;
    let t = event_type_of_event(e.event);
    assert(s =~= seq![event_type_byte(t)] + (be_bytes_u32(e.window_id) + (p + rest)));
    assert(s[0] == event_type_byte(t));
    assert(s.skip(1) =~= be_bytes_u32(e.window_id) + (p + rest));
    lemma_be_u32_roundtrip(e.window_id, p + rest);
    assert(s.skip(5) =~= p + rest);
    let d = p + rest;
    match e.event {
        InputEvent::KeyPress(k) | InputEvent::KeyRelease(k) => {
            assert(d =~= be_bytes_u32(k.key_code) + (seq![k.modifiers] + rest));
            lemma_be_u32_roundtrip(k.key_code, seq![k.modifiers] + rest);
            assert(d[4] == k.modifiers);
            assert(key_event_from(d) == k);
        },
        InputEvent::MouseMove(m) => {
            assert(d =~= be_bytes_u32(m.x as u32) + (be_bytes_u32(m.y as u32) + rest));
            lemma_be_u32_roundtrip(m.x as u32, be_bytes_u32(m.y as u32) + rest);
            lemma_be_u32_roundtrip(m.y as u32, rest);
            lemma_i32_bits(m.x);
            lemma_i32_bits(m.y);
            assert(mouse_move_from(d) == m);
        },
        InputEvent::MouseButtonPress(b) | InputEvent::MouseButtonRelease(b) => {
            assert(d[0] == b.button);
        },
        InputEvent::MouseScroll(m) => {
            assert(d =~= be_bytes_u32(m.horizontal as u32) + (be_bytes_u32(m.vertical as u32) + rest));
            lemma_be_u32_roundtrip(m.horizontal as u32, be_bytes_u32(m.vertical as u32) + rest);
            lemma_be_u32_roundtrip(m.vertical as u32, rest);
            lemma_i32_bits(m.horizontal);
            lemma_i32_bits(m.vertical);
            assert(mouse_scroll_from(d) == m);
        },
    }
}

/// Receiver of decoded input events.
pub trait InputEventHandler {
    /// Handle an input event for `window_id`.
    fn handle_input_event(&mut self, window_id: u32, event: InputEvent);
}

} // verus!
