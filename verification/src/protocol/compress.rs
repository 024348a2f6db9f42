//! lz4 block compression of frame payloads.

use vstd::prelude::*;

use crate::protocol::codec::DecodeError;

verus! {

/// Compression algorithm identifier, mirroring the wire `compression` field.
#[derive(Debug, Clone, Copy, PartialEq, Eq, Structural)]
pub enum Compression {
    /// No compression; payload is raw BGRA bytes.
    Raw,
    /// lz4 block compression (block format, not the lz4 frame format).
    Lz4,
}

/// The wire byte of a compression algorithm.
pub open spec fn compression_byte(c: Compression) -> u8 {
    match c {
        Compression::Raw => 0,
        Compression::Lz4 => 1,
    }
}

impl Compression {
    /// Decode the wire `compression` byte; unknown values are an error.
    pub fn from_u8(v: u8) -> (r: Result<Self, DecodeError>)
        ensures
            v == 0 ==> r == Ok::<Compression, DecodeError>(Compression::Raw),
            v == 1 ==> r == Ok::<Compression, DecodeError>(Compression::Lz4),
            v > 1 ==> r == Err::<Compression, DecodeError>(DecodeError::UnknownCompression(v)),
    {
        match v {
            0 => Ok(Self::Raw),
            1 => Ok(Self::Lz4),
            other => Err(DecodeError::UnknownCompression(other)),
        }
    }

    /// Encode as the wire `compression` byte.
    pub fn as_u8(&self) -> (r: u8)
        ensures
            r == compression_byte(*self),
    {
        match self {
            Self::Raw => 0,
            Self::Lz4 => 1,
        }
    }
}

/// What `lz4_flex::block::compress` returns for the given input bytes.
pub uninterp spec fn lz4_block_compressed(data: Seq<u8>) -> Seq<u8>;

/// What `lz4_flex::block::decompress` yields for a block and an output
/// capacity: `Some` bytes on success, `None` on a decompression error.
pub uninterp spec fn lz4_block_decompressed(src: Seq<u8>, capacity: usize) -> Option<Seq<u8>>;

#[verifier::external_type_specification]
#[verifier::external_body]
pub struct ExDecompressError(lz4_flex::block::DecompressError);

/// Inputs below this many bytes (255 × 2^24, just under 4 GiB) are the
/// ones whose lz4 round trip is stated: the decoder sums a length's run of
/// `0xFF` bytes into a `u32`, and for such inputs no run comes near
/// overflowing it.
pub const LZ4_ROUNDTRIP_LIMIT: u64 = 0xFF00_0000u64;

/// Whether `lz4_flex::block::compress` can size its output buffer for an
/// input of `len` bytes: `20 + len × 110 / 100` bytes, computed in
/// `usize` and allocated as one `Vec` (at most `isize::MAX` bytes).
pub open spec fn lz4_compressible_len(len: nat) -> bool {
    &&& len * 110 <= usize::MAX
    &&& 20 + len * 110 / 100 <= isize::MAX
}

/// The number of consecutive `0xFF` bytes of `s` ending at index `j`.
pub open spec fn ff_run_at(s: Seq<u8>, j: int) -> nat
    decreases j + 1,
{
    if j < 0 || j >= s.len() {
        0
    } else if s[j] == 0xFF {
        1 + ff_run_at(s, j - 1)
    } else {
        0
    }
}

/// Whether the lz4 decoder can read a length made of `run` bytes of
/// `0xFF` (and one final byte) into a buffer of `capacity` bytes without
/// overflowing: the `u32` it sums the bytes into, and the `usize`
/// arithmetic on that sum and the buffer position.
pub open spec fn lz4_run_fits(run: nat, capacity: nat) -> bool {
    &&& 255 * run + 254 <= u32::MAX
    &&& 255 * run + 273 + capacity <= usize::MAX
}

/// Every run of `0xFF` bytes in `s` is one the lz4 decoder can read into a
/// buffer of `capacity` bytes.
pub open spec fn lz4_decodable(s: Seq<u8>, capacity: nat) -> bool {
    forall|j: int| 0 <= j < s.len() ==> lz4_run_fits(#[trigger] ff_run_at(s, j), capacity)
}

/// `lz4_flex::block::compress`: the output is a function of the input
/// bytes. It sizes its buffer as `20 + len × 110 / 100` bytes in `usize`
/// ([`lz4_compressible_len`]). For inputs under [`LZ4_ROUNDTRIP_LIMIT`] the
/// block decompresses, with the input's length as capacity, back to the
/// input, and its `0xFF` runs (the length bytes of one literal run or
/// match, 1 per 255 bytes of it, and a few offset and literal bytes beside
/// them) stay within what the decoder can read. Nothing else about the
/// compressed bytes is stated.
#[verifier::external_body]
fn lz4_compress(data: &[u8]) -> (r: Vec<u8>)
    requires
        lz4_compressible_len(data@.len()),
    ensures
        r@ == lz4_block_compressed(data@),
        data@.len() < LZ4_ROUNDTRIP_LIMIT ==> lz4_block_decompressed(r@, data@.len() as usize) == Some(data@)
            && lz4_decodable(r@, data@.len()),
{
    lz4_flex::block::compress(data)
}

/// Whether every run of `0xFF` bytes in `s` is one the lz4 decoder can
/// read into a buffer of `capacity` bytes.
pub fn lz4_block_fits(s: &[u8], capacity: usize) -> (b: bool)
    ensures
        b == lz4_decodable(s@, capacity as nat),
{
    let mut run: usize = 0;
    let mut i: usize = 0;
    while i < s.len()
        invariant
            i <= s@.len(),
            run == (if i == 0 { 0 } else { ff_run_at(s@, i - 1) }),
            forall|j: int| 0 <= j < i ==> lz4_run_fits(#[trigger] ff_run_at(s@, j), capacity as nat),
        decreases s@.len() - i,
    {
        proof {
            if i > 0 {
                lemma_ff_run_bound(s@, i - 1);
            }
        }
        if s[i] == 0xFF {
            run = run + 1;
        } else {
            run = 0;
        }
        assert(run == ff_run_at(s@, i as int));
        let r = run as u128;
        let fits = 255 * r + 254 <= 0xFFFF_FFFFu128 && 255 * r + 273 + (capacity as u128) <= (usize::MAX as u128);
        if !fits {
            return false;
        }
        i = i + 1;
    }
    true
}

/// A run ending at `j` is at most `j + 1` bytes long.
proof fn lemma_ff_run_bound(s: Seq<u8>, j: int)
    ensures
        ff_run_at(s, j) <= if j < 0 { 0 } else { j + 1 },
    decreases j + 1,
{
    if 0 <= j < s.len() && s[j] == 0xFF {
        lemma_ff_run_bound(s, j - 1);
    }
}

/// `lz4_flex::block::decompress` (default `safe-decode` build): decompresses
/// into a zeroed buffer of `capacity` bytes and returns the bytes written,
/// or an error for a malformed block or one that does not fit. Every copy
/// is bounds-checked against the input and the buffer. A length is read by
/// summing a run of `0xFF` bytes and one final byte into a `u32`, then used
/// in `usize` arithmetic with the buffer position; [`lz4_decodable`] keeps
/// both from overflowing. Allocating the buffer panics above `isize::MAX`
/// bytes. Which error variant comes back is not stated, and neither is a
/// failed allocation, which aborts the process and depends on the machine.
#[verifier::external_body]
fn lz4_decompress(src: &[u8], capacity: usize) -> (r: Result<Vec<u8>, lz4_flex::block::DecompressError>)
    requires
        lz4_decodable(src@, capacity as nat),
        capacity <= isize::MAX,
    ensures
        r is Ok <==> lz4_block_decompressed(src@, capacity) is Some,
        r matches Ok(v) ==> v@ == lz4_block_decompressed(src@, capacity)->Some_0 && v@.len() <= capacity,
{
    lz4_flex::block::decompress(src, capacity)
}

/// Compress `data` as an lz4 block; an input under
/// [`LZ4_ROUNDTRIP_LIMIT`] decompresses back to itself.
pub fn compress(data: &[u8]) -> (r: Vec<u8>)
    requires
        lz4_compressible_len(data@.len()),
    ensures
        r@ == lz4_block_compressed(data@),
        data@.len() < LZ4_ROUNDTRIP_LIMIT ==> lz4_block_decompressed(r@, data@.len() as usize) == Some(data@)
            && lz4_decodable(r@, data@.len()),
{
    lz4_compress(data)
}

/// Decompress an lz4 block of `src`, expecting at most `expected_len`
/// uncompressed bytes. A block with a run of `0xFF` bytes too long for the
/// decoder's length counters (one that would overflow them) is refused as
/// a failed decompression before it is decoded.
pub fn decompress(src: &[u8], expected_len: usize) -> (r: Result<Vec<u8>, DecodeError>)
    requires
        expected_len <= isize::MAX,
    ensures
        !lz4_decodable(src@, expected_len as nat) ==> r == Err::<Vec<u8>, DecodeError>(DecodeError::DecompressFailed),
        lz4_decodable(src@, expected_len as nat) ==> match lz4_block_decompressed(src@, expected_len) {
            Some(d) => r matches Ok(v) && v@ == d,
            None => r == Err::<Vec<u8>, DecodeError>(DecodeError::DecompressFailed),
        },
{
    if !lz4_block_fits(src, expected_len) {
        return Err(DecodeError::DecompressFailed);
    }
    match lz4_decompress(src, expected_len) {
        Ok(v) => Ok(v),
        Err(_) => Err(DecodeError::DecompressFailed),
    }
}

} // verus!
