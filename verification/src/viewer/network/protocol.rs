//! Frame header and frame of the raw streaming format, as the viewer reads
//! them: window_id u32, width u32, height u32, timestamp u64, big-endian,
//! then width × height × 4 RGBA bytes.

use vstd::prelude::*;

use crate::server::streaming::protocol::{header_bytes as server_header_bytes, rgba_size, FrameHeader as ServerFrameHeader};
use crate::viewer::network::NetworkError;
use crate::wire::{be_bytes_u32, be_bytes_u64, be_u32, be_u64, lemma_be_u32_roundtrip, lemma_be_u64_roundtrip, push_be_u32, push_be_u64, read_be_u32, read_be_u64};

verus! {

/// Frame header: which window, its size, and a timestamp.
#[derive(Debug, Clone, Copy, PartialEq, Eq, Structural)]
pub struct FrameHeader {
    /// Unique identifier for the window/surface.
    pub window_id: u32,
    /// Frame width in pixels.
    pub width: u32,
    /// Frame height in pixels.
    pub height: u32,
    /// Timestamp in milliseconds since the epoch.
    pub timestamp: u64,
}

/// The 20 wire bytes of a header.
pub open spec fn header_bytes(h: FrameHeader) -> Seq<u8> {
    be_bytes_u32(h.window_id) + be_bytes_u32(h.width) + be_bytes_u32(h.height) + be_bytes_u64(h.timestamp)
}

/// The header in the first 20 bytes of `s` (which holds at least 20).
pub open spec fn header_in(s: Seq<u8>) -> FrameHeader {
    FrameHeader {
        window_id: be_u32(s),
        width: be_u32(s.skip(4)),
        height: be_u32(s.skip(8)),
        timestamp: be_u64(s.skip(12)),
    }
}

/// RGBA payload size of a header's frame.
pub open spec fn payload_len(h: FrameHeader) -> int {
    h.width * h.height * 4
}

/// The message of a too-short header buffer.
#[verifier::external_body]
fn short_header_message(expected: usize, got: usize) -> String {
    format!("Expected {} bytes, got {}", expected, got)
}

impl FrameHeader {
    /// Size of the header in bytes.
    pub const SIZE: usize = 20usize;

    /// Decode a header from exactly 20 big-endian bytes; any other length
    /// is a protocol error.
    pub fn decode(data: &[u8]) -> (r: Result<Self, NetworkError>)
        ensures
            data@.len() == 20 ==> r == Ok::<FrameHeader, NetworkError>(header_in(data@)),
            data@.len() != 20 ==> r matches Err(NetworkError::Protocol(_)),
    {
        if data.len() != Self::SIZE {
            return Err(NetworkError::Protocol(short_header_message(Self::SIZE, data.len())));
        }
        Ok(Self {
            window_id: read_be_u32(data, 0),
            width: read_be_u32(data, 4),
            height: read_be_u32(data, 8),
            timestamp: read_be_u64(data, 12),
        })
    }

    /// Encode the header as 20 big-endian bytes.
    pub fn encode(&self) -> (buf: [u8; 20])
        ensures
            buf@ == header_bytes(*self),
    {
        let mut v: Vec<u8> = Vec::with_capacity(20);
        push_be_u32(self.window_id, &mut v);
        push_be_u32(self.width, &mut v);
        push_be_u32(self.height, &mut v);
        push_be_u64(self.timestamp, &mut v);
        let buf: [u8; 20] = [
            v[0], v[1], v[2], v[3], v[4], v[5], v[6], v[7], v[8], v[9], v[10], v[11], v[12], v[13],
            v[14], v[15], v[16], v[17], v[18], v[19],
        ];
        assert(buf@ =~= header_bytes(*self));
        buf
    }

    /// RGBA payload size in bytes (4 bytes per pixel).
    pub fn payload_size(&self) -> (n: usize)
        requires
            payload_len(*self) <= usize::MAX,
        ensures
            n == payload_len(*self),
    {
        assert((self.width as usize) * (self.height as usize) <= payload_len(*self)) by (nonlinear_arith);
        (self.width as usize) * (self.height as usize) * 4
    }

    /// Total frame size: header plus payload.
    pub fn total_size(&self) -> (n: usize)
        requires
            20 + payload_len(*self) <= usize::MAX,
        ensures
            n == 20 + payload_len(*self),
    {
        Self::SIZE + self.payload_size()
    }
}

/// Complete frame with header and RGBA pixel data.
#[derive(Debug, Clone, PartialEq)]
pub struct Frame {
    /// Frame metadata.
    pub header: FrameHeader,
    /// RGBA pixel data (4 bytes per pixel).
    pub data: Vec<u8>,
}

impl Frame {
    /// Bundle a header and its data.
    pub fn new(header: FrameHeader, data: Vec<u8>) -> (f: Self)
        ensures
            f.header == header,
            f.data@ == data@,
    {
        Self { header, data }
    }

    /// Whether the data size matches the header's dimensions.
    pub fn is_valid(&self) -> (b: bool)
        requires
            payload_len(self.header) <= usize::MAX,
        ensures
            b == (self.data@.len() == payload_len(self.header)),
    {
        self.data.len() == self.header.payload_size()
    }
}

/// A header decodes back to itself from its encoding.
pub proof fn lemma_header_roundtrip(h: FrameHeader, rest: Seq<u8>)
    ensures
        header_in(header_bytes(h) + rest) == h,
        (header_bytes(h) + rest).len() >= 20,
{
    let s = header_bytes(h) + rest;
    let t3 = be_bytes_u64(h.timestamp) + rest;
    let t2 = be_bytes_u32(h.height) + t3;
    let t1 = be_bytes_u32(h.width) + t2;
    assert(s =~= be_bytes_u32(h.window_id) + t1);
    lemma_be_u32_roundtrip(h.window_id, t1);
    lemma_be_u32_roundtrip(h.width, t2);
    lemma_be_u32_roundtrip(h.height, t3);
    lemma_be_u64_roundtrip(h.timestamp, rest);
    assert(s.skip(4) =~= t1);
    assert(s.skip(8) =~= t2);
    assert(s.skip(12) =~= t3);
}

/// A frame header written by the compositor's encoder is read by the viewer
/// as the same window, size and timestamp, and both sides agree on the
/// length of the pixel data that follows it.
pub proof fn lemma_reads_compositor_header(h: ServerFrameHeader, rest: Seq<u8>)
    ensures
        (server_header_bytes(h) + rest).len() >= 20,
        header_in(server_header_bytes(h) + rest) == (FrameHeader {
            window_id: h.window_id,
            width: h.width,
            height: h.height,
            timestamp: h.timestamp_us,
        }),
        payload_len(header_in(server_header_bytes(h) + rest)) == rgba_size(h.width, h.height),
{
    let v = FrameHeader { window_id: h.window_id, width: h.width, height: h.height, timestamp: h.timestamp_us };
    assert(server_header_bytes(h) =~= header_bytes(v));
    lemma_header_roundtrip(v, rest);
}

} // verus!
