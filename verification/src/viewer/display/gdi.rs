//! GDI blit support: the renderer's errors and the RGBA → BGRA conversion
//! of frame pixels.

use vstd::prelude::*;

use crate::server::rendering::{swap_pixel_channels, swap_red_blue};

verus! {

/// Error of a GDI operation.
#[derive(Debug, Clone, Copy, PartialEq, Eq, Structural)]
pub enum GdiError {
    GetDcFailed,
    CreateDibSectionFailed,
}

impl GdiError {
    /// The error's message.
    pub fn message(&self) -> (s: &'static str)
        ensures
            *self == GdiError::GetDcFailed ==> s@ == "Failed to get device context"@,
            *self == GdiError::CreateDibSectionFailed ==> s@ == "Failed to create DIB section"@,
    {
        match self {
            GdiError::GetDcFailed => "Failed to get device context",
            GdiError::CreateDibSectionFailed => "Failed to create DIB section",
        }
    }
}

/// Convert the first `width × height` RGBA pixels to BGRA (swap red and blue).
pub fn convert_rgba_to_bgra(rgba_data: &[u8], width: usize, height: usize) -> (bgra: Vec<u8>)
    requires
        width * height * 4 <= rgba_data@.len(),
    ensures
        bgra@ == swap_red_blue(rgba_data@.take(width * height * 4)),
{
    let len = rgba_data.len();
    assert(width * height <= width * height * 4) by (nonlinear_arith);
    let pixel_count = width * height;
    swap_pixel_channels(rgba_data, pixel_count)
}

} // verus!
