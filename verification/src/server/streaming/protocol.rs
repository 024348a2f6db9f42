//! Binary frame protocol for raw TCP streaming.
//!
//! Header (20 bytes, big-endian): window_id u32, width u32, height u32,
//! timestamp_us u64. The RGBA payload (width × height × 4 bytes) follows.

use vstd::prelude::*;

use bytes::BytesMut;

use crate::server::streaming::buf::{buf_put_slice, buf_put_u32, buf_put_u64, buf_with_capacity, bytes_of, fits_in_buffer};
use crate::wire::{be_bytes_u32, be_bytes_u64, be_u32, be_u64, lemma_be_u32_roundtrip, lemma_be_u64_roundtrip, read_be_u32, read_be_u64};

verus! {

/// Frame header of the raw streaming format.
#[derive(Debug, Clone, Copy, PartialEq, Eq, Structural)]
pub struct FrameHeader {
    /// Unique window/surface identifier.
    pub window_id: u32,
    /// Frame width in pixels.
    pub width: u32,
    /// Frame height in pixels.
    pub height: u32,
    /// Unix timestamp in microseconds.
    pub timestamp_us: u64,
}

/// The 20 wire bytes of a header.
pub open spec fn header_bytes(h: FrameHeader) -> Seq<u8> {
    be_bytes_u32(h.window_id) + be_bytes_u32(h.width) + be_bytes_u32(h.height) + be_bytes_u64(h.timestamp_us)
}

/// The header held in the first 20 bytes of `s`, or `None` when `s` is shorter.
pub open spec fn header_from(s: Seq<u8>) -> Option<FrameHeader> {
    if s.len() < 20 {
        None
    } else {
        Some(FrameHeader {
            window_id: be_u32(s),
            width: be_u32(s.skip(4)),
            height: be_u32(s.skip(8)),
            timestamp_us: be_u64(s.skip(12)),
        })
    }
}

/// RGBA payload size of a `width` × `height` frame.
pub open spec fn rgba_size(width: u32, height: u32) -> int {
    width * height * 4
}

impl FrameHeader {
    /// Size of the header in bytes.
    pub const SIZE: usize = 20usize;

    /// Create a header.
    pub fn new(window_id: u32, width: u32, height: u32, timestamp_us: u64) -> (h: Self)
        ensures
            h == (FrameHeader { window_id, width, height, timestamp_us }),
    {
        Self { window_id, width, height, timestamp_us }
    }

    /// RGBA payload size of this frame in bytes.
    pub fn payload_size(&self) -> (n: usize)
        requires
            rgba_size(self.width, self.height) <= usize::MAX,
        ensures
            n == rgba_size(self.width, self.height),
    {
        assert((self.width as usize) * (self.height as usize) <= rgba_size(self.width, self.height))
            by (nonlinear_arith);
        (self.width as usize) * (self.height as usize) * 4
    }

    /// Append the 20-byte big-endian header to `buf`.
    pub fn encode(&self, buf: &mut BytesMut)
        requires
            fits_in_buffer(bytes_of(*old(buf)).len() + 20),
        ensures
            bytes_of(*final(buf)) == bytes_of(*old(buf)) + header_bytes(*self),
    {
        buf_put_u32(buf, self.window_id);
        buf_put_u32(buf, self.width);
        buf_put_u32(buf, self.height);
        buf_put_u64(buf, self.timestamp_us);
        assert(bytes_of(*buf) =~= bytes_of(*old(buf)) + header_bytes(*self));
    }

    /// Parse a header from the front of `buf`; `None` when it holds fewer
    /// than 20 bytes.
    pub fn decode(buf: &[u8]) -> (r: Option<Self>)
        ensures
            r == header_from(buf@),
    {
        if buf.len() < Self::SIZE {
            return None;
        }
        Some(Self {
            window_id: read_be_u32(buf, 0),
            width: read_be_u32(buf, 4),
            height: read_be_u32(buf, 8),
            timestamp_us: read_be_u64(buf, 12),
        })
    }
}

/// Encode a complete frame: the header followed by the RGBA bytes.
pub fn encode_frame(header: &FrameHeader, rgba_data: &[u8]) -> (buf: BytesMut)
    requires
        fits_in_buffer(20 + rgba_data@.len()),
    ensures
        bytes_of(buf) == header_bytes(*header) + rgba_data@,
{
    let mut buf = buf_with_capacity(FrameHeader::SIZE + rgba_data.len());
    header.encode(&mut buf);
    buf_put_slice(&mut buf, rgba_data);
    assert(bytes_of(buf) =~= header_bytes(*header) + rgba_data@);
    buf
}

/// A header decodes back to itself from its encoding, whatever follows it.
pub proof fn lemma_header_roundtrip(h: FrameHeader, rest: Seq<u8>)
    ensures
        header_from(header_bytes(h) + rest) == Some(h),
{
    let s = header_bytes(h) + rest;
    let t3 = be_bytes_u64(h.timestamp_us) + rest;
    let t2 = be_bytes_u32(h.height) + t3;
    let t1 = be_bytes_u32(h.width) + t2;
    assert(s =~= be_bytes_u32(h.window_id) + t1);
    lemma_be_u32_roundtrip(h.window_id, t1);
    lemma_be_u32_roundtrip(h.width, t2);
    lemma_be_u32_roundtrip(h.height, t3);
    lemma_be_u64_roundtrip(h.timestamp_us, rest);
    assert(s.skip(4) =~= t1);
    assert(s.skip(8) =~= t2);
    assert(s.skip(12) =~= t3);
}

} // verus!
