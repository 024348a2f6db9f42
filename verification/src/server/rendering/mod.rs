//! Rendered frames: the BGRA pixel buffers the compositor streams, and the
//! requests that ask the compositor thread for one.

pub mod pixel_export;

use vstd::prelude::*;

use std::sync::mpsc::Sender;

verus! {

#[verifier::external_type_specification]
#[verifier::external_body]
#[verifier::reject_recursive_types(T)]
pub struct ExSender<T>(std::sync::mpsc::Sender<T>);

/// A rendered offscreen frame: contiguous BGRA pixels, `stride` bytes per row.
#[derive(Debug, Clone)]
pub struct FrameBuffer {
    /// Contiguous BGRA pixel data (`width * height * 4` bytes).
    pub data: Vec<u8>,
    /// Frame width in pixels.
    pub width: u32,
    /// Frame height in pixels.
    pub height: u32,
    /// Row stride in bytes (`width * 4` for a contiguous buffer).
    pub stride: u32,
    /// The window this frame was rendered for; 0 for a full-desktop composite.
    pub window_id: u64,
}

/// Mathematical value of a [`FrameBuffer`].
pub struct FrameBufferV {
    pub data: Seq<u8>,
    pub width: u32,
    pub height: u32,
    pub stride: u32,
    pub window_id: u64,
}

impl View for FrameBuffer {
    type V = FrameBufferV;

    open spec fn view(&self) -> FrameBufferV {
        FrameBufferV {
            data: self.data@,
            width: self.width,
            height: self.height,
            stride: self.stride,
            window_id: self.window_id,
        }
    }
}

/// `px` with the bytes at 0 and 2 of every whole 4-byte pixel swapped;
/// a trailing partial pixel is dropped.
pub open spec fn swap_red_blue(px: Seq<u8>) -> Seq<u8> {
    Seq::new(
        (px.len() / 4 * 4) as nat,
        |i: int|
            if i % 4 == 0 {
                px[i + 2]
            } else if i % 4 == 2 {
                px[i - 2]
            } else {
                px[i]
            },
    )
}

impl FrameBuffer {
    /// The BGRA data as RGBA bytes (red and blue swapped in every pixel).
    pub fn to_rgba(&self) -> (out: Vec<u8>)
        ensures
            out@ == swap_red_blue(self.data@),
    {
        let pixels = self.data.len() / 4;
        let out = swap_pixel_channels(self.data.as_slice(), pixels);
        assert(swap_red_blue(self.data@.take(pixels * 4)) =~= swap_red_blue(self.data@));
        out
    }
}

/// Swap the bytes at 0 and 2 of each of the first `pixels` 4-byte pixels
/// of `data`: BGRA becomes RGBA and back.
pub fn swap_pixel_channels(data: &[u8], pixels: usize) -> (out: Vec<u8>)
    requires
        pixels * 4 <= data@.len(),
    ensures
        out@ == swap_red_blue(data@.take(pixels * 4)),
{
    let ghost src = data@.take(pixels * 4);
    let len = data.len();
    let mut out: Vec<u8> = Vec::with_capacity(pixels * 4);
    let mut p: usize = 0;
    while p < pixels
        invariant
            pixels * 4 <= data@.len(),
            len == data@.len(),
            src == data@.take(pixels * 4),
            p <= pixels,
            out@.len() == 4 * p,
            forall|i: int| 0 <= i < 4 * p ==> out@[i] == swap_red_blue(src)[i],
        decreases pixels - p,
    {
        let base = 4 * p;
        out.push(data[base + 2]);
        out.push(data[base + 1]);
        out.push(data[base]);
        out.push(data[base + 3]);
        proof {
            assert forall|i: int| 0 <= i < 4 * (p + 1) implies out@[i] == swap_red_blue(src)[i] by {
                if i >= 4 * p {
                    assert(i / 4 == p && i % 4 == i - 4 * p) by (nonlinear_arith)
                        requires
                            4 * p <= i < 4 * (p + 1),
                    ;
                }
            }
        }
        p = p + 1;
    }
    assert(out@ =~= swap_red_blue(src));
    out
}

/// Swapping red and blue twice gives back the whole pixels.
pub proof fn lemma_swap_involutive(px: Seq<u8>)
    requires
        px.len() % 4 == 0,
    ensures
        swap_red_blue(swap_red_blue(px)) == px,
{
    let once = swap_red_blue(px);
    assert(once.len() == px.len());
    assert forall|i: int| 0 <= i < px.len() implies swap_red_blue(once)[i] == px[i] by {
        if i % 4 == 0 {
            assert((i + 2) % 4 == 2);
        } else if i % 4 == 2 {
            assert((i - 2) % 4 == 0);
        }
    }
    assert(swap_red_blue(once) =~= px);
}

/// A request the compositor thread answers with a rendered frame.
#[derive(Debug)]
pub enum RenderRequest {
    /// Render the current surface set and send the result over `reply`.
    Render { reply: Sender<FrameBuffer> },
    /// Render one mapped window and send the result over `reply`.
    RenderWindow { window_id: u64, reply: Sender<FrameBuffer> },
}

} // verus!
