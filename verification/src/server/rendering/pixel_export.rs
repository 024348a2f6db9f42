//! Raw pixel data read back from an offscreen framebuffer.

use vstd::prelude::*;

verus! {

/// Pixel data with its dimensions (4 bytes per pixel: B, G, R, A).
#[derive(Debug, Clone)]
pub struct RgbaData {
    /// Width of the frame in pixels.
    pub width: u32,
    /// Height of the frame in pixels.
    pub height: u32,
    /// Raw pixel bytes.
    pub data: Vec<u8>,
}

impl RgbaData {
    /// Bundle pixel bytes with their dimensions.
    pub fn new(width: u32, height: u32, data: Vec<u8>) -> (r: Self)
        ensures
            r.width == width,
            r.height == height,
            r.data@ == data@,
    {
        Self { width, height, data }
    }

    /// Number of bytes of pixel data held.
    pub fn byte_size(&self) -> (n: usize)
        ensures
            n == self.data@.len(),
    {
        self.data.len()
    }

    /// Byte size of a `width` × `height` frame at 4 bytes per pixel.
    pub fn expected_size(width: u32, height: u32) -> (n: usize)
        requires
            width * height * 4 <= usize::MAX,
        ensures
            n == width * height * 4,
    {
        let w = width as usize;
        let h = height as usize;
        assert(w * h <= w * h * 4) by (nonlinear_arith);
        w * h * 4
    }
}

} // verus!
