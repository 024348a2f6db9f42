//! Wire-format message types for the wayland-remote protocol.

use vstd::prelude::*;

verus! {

/// A control-stream message exchanged between viewer and compositor.
#[derive(Debug, Clone, PartialEq)]
#[allow(inconsistent_fields)]
pub enum Message {
    /// Viewer -> compositor: first message, identifies the client.
    Hello { version: u16, client_name: String },
    /// Viewer -> compositor: an input event to inject into the Wayland seat.
    Input { window_id: u64, event: InputEvent },
    /// Compositor -> viewer: handshake response with the negotiated geometry.
    Welcome { version: u16, width: u32, height: u32 },
    /// Compositor -> viewer: a window lifecycle event.
    WindowEvent { window_id: u64, event: WindowEventKind },
    /// Latency probe.
    Ping { timestamp_ns: u64 },
    /// Echo of a Ping with the original timestamp.
    Pong { timestamp_ns: u64 },
    /// Viewer -> compositor: activate a window.
    SetFocus { window_id: u64 },
    /// Viewer -> compositor: resize a window.
    ConfigureWindow { window_id: u64, width: u32, height: u32 },
    /// Viewer -> compositor: ask a window to close.
    CloseWindow { window_id: u64 },
}

/// An input event forwarded from the viewer to the compositor.
///
/// Pointer coordinates and scroll deltas are `f64` values carried as their
/// IEEE-754 bit patterns (`f64::to_bits`), which is exactly what travels on
/// the wire.
#[derive(Debug, Clone, Copy, PartialEq, Eq, Structural)]
pub enum InputEvent {
    KeyDown { scancode: u16 },
    KeyUp { scancode: u16 },
    PointerMove { x: u64, y: u64 },
    PointerButton { button: u32, state: ButtonState },
    Axis { dx: u64, dy: u64 },
}

/// A window lifecycle event sent from compositor to viewer.
#[derive(Debug, Clone, PartialEq)]
pub enum WindowEventKind {
    Created { width: u32, height: u32, title: String },
    Destroyed,
    Resized { width: u32, height: u32 },
    Focused,
    Unfocused,
}

/// State of a pointer button.
#[derive(Debug, Clone, Copy, PartialEq, Eq, Structural)]
pub enum ButtonState {
    Pressed,
    Released,
}

/// Mathematical value of a [`WindowEventKind`]: the title as characters.
pub enum WindowEventKindV {
    Created { width: u32, height: u32, title: Seq<char> },
    Destroyed,
    Resized { width: u32, height: u32 },
    Focused,
    Unfocused,
}

/// Mathematical value of a [`Message`]: strings as characters.
#[allow(inconsistent_fields)]
pub enum MessageV {
    Hello { version: u16, client_name: Seq<char> },
    Input { window_id: u64, event: InputEvent },
    Welcome { version: u16, width: u32, height: u32 },
    WindowEvent { window_id: u64, event: WindowEventKindV },
    Ping { timestamp_ns: u64 },
    Pong { timestamp_ns: u64 },
    SetFocus { window_id: u64 },
    ConfigureWindow { window_id: u64, width: u32, height: u32 },
    CloseWindow { window_id: u64 },
}

impl View for WindowEventKind {
    type V = WindowEventKindV;

    open spec fn view(&self) -> WindowEventKindV {
        match self {
            WindowEventKind::Created { width, height, title } => WindowEventKindV::Created {
                width: *width,
                height: *height,
                title: title@,
            },
            WindowEventKind::Destroyed => WindowEventKindV::Destroyed,
            WindowEventKind::Resized { width, height } => WindowEventKindV::Resized {
                width: *width,
                height: *height,
            },
            WindowEventKind::Focused => WindowEventKindV::Focused,
            WindowEventKind::Unfocused => WindowEventKindV::Unfocused,
        }
    }
}

impl View for Message {
    type V = MessageV;

    open spec fn view(&self) -> MessageV {
        match self {
            Message::Hello { version, client_name } => MessageV::Hello {
                version: *version,
                client_name: client_name@,
            },
            Message::Input { window_id, event } => MessageV::Input {
                window_id: *window_id,
                event: *event,
            },
            Message::Welcome { version, width, height } => MessageV::Welcome {
                version: *version,
                width: *width,
                height: *height,
            },
            Message::WindowEvent { window_id, event } => MessageV::WindowEvent {
                window_id: *window_id,
                event: event@,
            },
            Message::Ping { timestamp_ns } => MessageV::Ping { timestamp_ns: *timestamp_ns },
            Message::Pong { timestamp_ns } => MessageV::Pong { timestamp_ns: *timestamp_ns },
            Message::SetFocus { window_id } => MessageV::SetFocus { window_id: *window_id },
            Message::ConfigureWindow { window_id, width, height } => MessageV::ConfigureWindow {
                window_id: *window_id,
                width: *width,
                height: *height,
            },
            Message::CloseWindow { window_id } => MessageV::CloseWindow { window_id: *window_id },
        }
    }
}

/// Fixed header at the start of every frame's unidirectional stream.
///
/// All fields are little-endian on the wire; the layout sums to 54 bytes.
#[derive(Debug, Clone, Copy, PartialEq, Eq, Structural)]
pub struct FrameHeader {
    /// Magic bytes `b"FRME"` read as little-endian u32.
    pub magic: u32,
    /// Monotonically increasing frame counter per connection.
    pub frame_id: u64,
    /// Which window this frame belongs to.
    pub window_id: u64,
    /// Frame width in pixels.
    pub width: u32,
    /// Frame height in pixels.
    pub height: u32,
    /// Bytes per scanline (may exceed `width * 4` due to padding).
    pub stride: u32,
    /// Pixel format; `0` = BGRA8.
    pub format: u8,
    /// Compression algorithm; `0` = None, `1` = Lz4.
    pub compression: u8,
    /// Reserved, must be zero.
    pub _reserved: u32,
    /// Server render timestamp in nanoseconds.
    pub timestamp_ns: u64,
    /// Payload byte count after this header.
    pub compressed_size: u64,
}

/// Magic value for `FrameHeader::magic`: `b"FRME"` as a little-endian u32.
pub const FRAME_MAGIC: u32 = 0x454D_5246u32;

/// BGRA8 pixel format identifier.
pub const FORMAT_BGRA8: u8 = 0u8;

/// Wire size of the frame header in bytes.
pub const FRAME_HEADER_SIZE: usize = 54usize;

} // verus!
