//! Raw TCP frame streaming: the 20-byte frame header, the input event
//! format, and the frames handed to connected viewers.

pub mod buf;
pub mod input;
pub mod protocol;
pub mod surface;

use vstd::prelude::*;

use crate::server::streaming::protocol::rgba_size;

verus! {

/// Frame data ready for streaming: dimensions, timestamp and RGBA bytes.
#[derive(Debug, Clone)]
pub struct FrameData {
    /// Frame width in pixels.
    pub width: u32,
    /// Frame height in pixels.
    pub height: u32,
    /// Unix timestamp in microseconds.
    pub timestamp_us: u64,
    /// Raw RGBA pixel bytes (width × height × 4).
    pub rgba: Vec<u8>,
}

impl FrameData {
    /// Bundle a frame.
    pub fn new(width: u32, height: u32, timestamp_us: u64, rgba: Vec<u8>) -> (f: Self)
        ensures
            f.width == width,
            f.height == height,
            f.timestamp_us == timestamp_us,
            f.rgba@ == rgba@,
    {
        Self { width, height, timestamp_us, rgba }
    }

    /// Total RGBA byte size of the frame (width × height × 4).
    pub fn byte_size(&self) -> (n: usize)
        requires
            rgba_size(self.width, self.height) <= usize::MAX,
        ensures
            n == rgba_size(self.width, self.height),
    {
        assert((self.width as usize) * (self.height as usize) <= rgba_size(self.width, self.height))
            by (nonlinear_arith);
        (self.width as usize) * (self.height as usize) * 4
    }
}

} // verus!
