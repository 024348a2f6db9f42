//! Binary (de)serialization of the wire format.

use vstd::prelude::*;
use vstd::utf8::*;
use vstd::string::*;
use crate::protocol::message::{ButtonState, InputEvent, Message, MessageV, WindowEventKind, WindowEventKindV, FrameHeader, FRAME_MAGIC, FORMAT_BGRA8};

verus! {

/// Errors that can occur while decoding the wire format.
#[derive(Debug, Clone, Copy, PartialEq, Eq, Structural)]
pub enum DecodeError {
    StringTooLarge,
    FrameTooLarge,
    BadFrameMagic,
    UnknownFormat(u8),
    UnknownCompression(u8),
    InvalidStride,
    UnexpectedEof,
    InvalidUtf8,
    DecompressFailed,
    UnknownMessageTag(u64),
    UnknownInputTag(u64),
    UnknownWindowTag(u64),
}

/// A read position over a borrowed byte slice.
pub struct Cursor<'a> {
    data: &'a [u8],
    pos: usize,
}

impl<'a> Cursor<'a> {
    #[verifier::type_invariant]
    spec fn inv(self) -> bool {
        self.pos <= self.data@.len()
    }

    /// All bytes the cursor reads from.
    pub closed spec fn data(self) -> Seq<u8> {
        self.data@
    }

    /// The current read offset into `data()`.
    pub closed spec fn pos(self) -> int {
        self.pos as int
    }

    /// The bytes not yet consumed.
    pub open spec fn rest(self) -> Seq<u8> {
        self.data().subrange(self.pos(), self.data().len() as int)
    }

    /// A cursor positioned at the start of `data`.
    pub fn new(data: &'a [u8]) -> (c: Self)
        ensures
            c.data() == data@,
            c.pos() == 0,
    {
        Cursor { data, pos: 0 }
    }

    /// The current read offset.
    pub fn position(&self) -> (p: usize)
        ensures
            p == self.pos(),
    {
        self.pos
    }

    /// Read one byte.
    fn read_byte(&mut self) -> (r: Result<u8, DecodeError>)
        ensures
            final(self).data() == old(self).data(),
            old(self).rest().len() >= 1 ==> r == Ok::<u8, DecodeError>(old(self).rest()[0])
                && final(self).pos() == old(self).pos() + 1
                && final(self).rest() == old(self).rest().skip(1),
            old(self).rest().len() < 1 ==> r == Err::<u8, DecodeError>(DecodeError::UnexpectedEof)
                && final(self).pos() == old(self).pos(),
    {
        proof { use_type_invariant(&*self); }
        if self.pos < self.data.len() {
            let b = self.data[self.pos];
            self.pos = self.pos + 1;
            proof {
                assert(self.rest() =~= old(self).rest().skip(1));
            }
            Ok(b)
        } else {
            Err(DecodeError::UnexpectedEof)
        }
    }

    /// Take the next `n` bytes.
    fn read_bytes(&mut self, n: u64) -> (r: Result<&'a [u8], DecodeError>)
        ensures
            final(self).data() == old(self).data(),
            old(self).rest().len() >= n ==> (r matches Ok(b) && b@ == old(self).rest().subrange(0, n as int)
                && final(self).pos() == old(self).pos() + n
                && final(self).rest() == old(self).rest().skip(n as int)),
            old(self).rest().len() < n ==> r == Err::<&[u8], DecodeError>(DecodeError::UnexpectedEof)
                && final(self).pos() == old(self).pos(),
    {
        proof { use_type_invariant(&*self); }
        let avail = self.data.len() - self.pos;
        if n <= avail as u64 {
            let end = self.pos + n as usize;
            let b = &self.data[self.pos..end];
            proof {
                assert(b@ =~= old(self).rest().subrange(0, n as int));
            }
            self.pos = end;
            proof {
                assert(self.rest() =~= old(self).rest().skip(n as int));
            }
            Ok(b)
        } else {
            Err(DecodeError::UnexpectedEof)
        }
    }
}

/// Decoding of an unsigned LEB128 varint starting at byte `i` of `s`, with
/// `shift` bits already accumulated into `acc`.
pub open spec fn varint_from(s: Seq<u8>, i: int, shift: u64, acc: u64) -> Result<(u64, int), DecodeError>
    decreases 64 - shift,
{
    if i < 0 || i >= s.len() {
        Err(DecodeError::UnexpectedEof)
    } else {
        let b = s[i];
        let acc2 = acc | (((b & 0x7f) as u64) << shift);
        if b & 0x80 == 0 {
            Ok((acc2, i + 1))
        } else if shift >= 57 {
            Err(DecodeError::UnexpectedEof)
        } else {
            varint_from(s, i + 1, (shift + 7) as u64, acc2)
        }
    }
}


proof fn lemma_varint_from_len(s: Seq<u8>, i: int, shift: u64, acc: u64)
    requires
        0 <= i,
        shift <= 63,
        shift == 7 * i,
    ensures
        varint_from(s, i, shift, acc) matches Ok((v, n)) ==> i < n <= s.len() && n <= 10,
    decreases 64 - shift,
{
    if 0 <= i < s.len() {
        let b = s[i];
        let acc2 = acc | (((b & 0x7f) as u64) << shift);
        if b & 0x80 != 0 && shift < 57 {
            lemma_varint_from_len(s, i + 1, (shift + 7) as u64, acc2);
        }
    }
}

/// A successful varint decode consumes between 1 and 10 bytes of its input.
pub proof fn lemma_decode_varint_len(s: Seq<u8>)
    ensures
        spec_decode_varint(s) matches Ok((v, n)) ==> 1 <= n <= s.len() && n <= 10,
{
    lemma_varint_from_len(s, 0, 0, 0);
}

/// Decoding of a varint at the start of `s`: the value and the byte count.
pub open spec fn spec_decode_varint(s: Seq<u8>) -> Result<(u64, int), DecodeError> {
    varint_from(s, 0, 0, 0)
}

/// The unsigned LEB128 encoding of `v`.
pub open spec fn spec_encode_varint(v: u64) -> Seq<u8>
    decreases v,
{
    if v < 0x80 {
        seq![v as u8]
    } else {
        proof { lemma_shr7_decreases(v); }
        seq![(v as u8) | 0x80u8].add(spec_encode_varint(v >> 7))
    }
}

pub proof fn lemma_shr7_decreases(v: u64)
    requires v >= 0x80,
    ensures (v >> 7) < v,
{
    assert(v >= 0x80 ==> (v >> 7) < v) by (bit_vector);
}


/// The low `shift` bits of a u64.
pub open spec fn low_bits(v: u64, shift: u64) -> u64 {
    v & !(0xffff_ffff_ffff_ffffu64 << shift)
}

proof fn lemma_varint_step_last(v: u64, shift: u64, acc: u64)
    requires
        shift <= 63,
        acc == low_bits(v, shift),
        (v >> shift) < 0x80,
    ensures
        (((v >> shift) as u8) & 0x80u8) == 0,
        acc | (((((v >> shift) as u8) & 0x7fu8) as u64) << shift) == v,
{
    assert((((v >> shift) as u8) & 0x80u8) == 0) by (bit_vector)
        requires (v >> shift) < 0x80;
    assert(acc | (((((v >> shift) as u8) & 0x7fu8) as u64) << shift) == v) by (bit_vector)
        requires
            shift <= 63,
            acc == v & !(0xffff_ffff_ffff_ffffu64 << shift),
            (v >> shift) < 0x80;
}

proof fn lemma_varint_step_more(v: u64, shift: u64, acc: u64)
    requires
        shift <= 63,
        acc == low_bits(v, shift),
        (v >> shift) >= 0x80,
    ensures
        shift <= 56,
        ((((v >> shift) as u8) | 0x80u8) & 0x80u8) != 0,
        acc | ((((((v >> shift) as u8) | 0x80u8) & 0x7fu8) as u64) << shift) == low_bits(v, (shift + 7) as u64),
        (v >> shift) >> 7u64 == v >> ((shift + 7) as u64),
{
    assert(shift <= 56) by (bit_vector)
        requires shift <= 63, (v >> shift) >= 0x80;
    assert(((((v >> shift) as u8) | 0x80u8) & 0x80u8) != 0) by (bit_vector);
    assert(acc | ((((((v >> shift) as u8) | 0x80u8) & 0x7fu8) as u64) << shift)
        == v & !(0xffff_ffff_ffff_ffffu64 << ((shift + 7) as u64))) by (bit_vector)
        requires
            shift <= 56,
            acc == v & !(0xffff_ffff_ffff_ffffu64 << shift);
    assert((v >> shift) >> 7u64 == v >> ((shift + 7) as u64)) by (bit_vector)
        requires shift <= 56;
}

proof fn lemma_varint_from_encoding(v: u64, shift: u64, acc: u64, s: Seq<u8>, i: int)
    requires
        shift <= 63,
        acc == low_bits(v, shift),
        0 <= i,
        i + spec_encode_varint(v >> shift).len() <= s.len(),
        s.subrange(i, i + spec_encode_varint(v >> shift).len()) == spec_encode_varint(v >> shift),
    ensures
        varint_from(s, i, shift, acc) == Ok::<(u64, int), DecodeError>((v, i + spec_encode_varint(v >> shift).len())),
    decreases 64 - shift,
{
    let w = v >> shift;
    let e = spec_encode_varint(w);
    assert(s[i] == e[0]) by {
        assert(s.subrange(i, i + e.len())[0] == s[i]);
    }
    if w < 0x80 {
        lemma_varint_step_last(v, shift, acc);
        assert(e == seq![w as u8]);
    } else {
        lemma_varint_step_more(v, shift, acc);
        lemma_shr7_decreases(w);
        let e2 = spec_encode_varint(w >> 7);
        assert(e == seq![(w as u8) | 0x80u8].add(e2));
        assert(s.subrange(i + 1, i + 1 + e2.len()) == e2) by {
            assert(s.subrange(i + 1, i + 1 + e2.len()) =~= s.subrange(i, i + e.len()).subrange(1, e.len() as int));
            assert(e.subrange(1, e.len() as int) =~= e2);
        }
        lemma_varint_from_encoding(v, (shift + 7) as u64, low_bits(v, (shift + 7) as u64), s, i + 1);
    }
}

/// A varint decodes to the value it encodes, whatever bytes follow it; the
/// encoding is between 1 and 10 bytes long.
pub proof fn lemma_varint_roundtrip(v: u64, rest: Seq<u8>)
    ensures
        spec_decode_varint(spec_encode_varint(v) + rest)
            == Ok::<(u64, int), DecodeError>((v, spec_encode_varint(v).len() as int)),
{
    let s = spec_encode_varint(v) + rest;
    assert(v >> 0u64 == v) by (bit_vector);
    assert(low_bits(v, 0) == 0) by (bit_vector);
    assert(s.subrange(0, spec_encode_varint(v).len() as int) =~= spec_encode_varint(v));
    lemma_varint_from_encoding(v, 0, 0, s, 0);
}

/// Encode `value` as an unsigned LEB128 varint, appending to `w`.
pub fn encode_varint(value: u64, w: &mut Vec<u8>)
    ensures
        final(w)@ == old(w)@ + spec_encode_varint(value),
{
    let mut v = value;
    let ghost start = w@;
    while v >= 0x80
        invariant
            start + spec_encode_varint(value) == w@ + spec_encode_varint(v),
        decreases v,
    {
        proof { lemma_shr7_decreases(v); }
        let ghost w0 = w@;
        w.push((v as u8) | 0x80);
        assert(spec_encode_varint(v) == seq![(v as u8) | 0x80u8].add(spec_encode_varint(v >> 7)));
        assert(w0 + spec_encode_varint(v) == w@ + spec_encode_varint(v >> 7));
        v = v >> 7;
    }
    w.push(v as u8);
    assert(spec_encode_varint(v) == seq![v as u8]);
}

/// How many bytes a failed varint read consumes: every byte there is, up
/// to the ten a 64-bit varint can take.
pub open spec fn varint_error_len(s: Seq<u8>) -> int {
    if s.len() < 10 {
        s.len() as int
    } else {
        10
    }
}

/// Decode an unsigned LEB128 varint. A failed read has consumed every
/// byte it looked at: all of a truncated varint, or the ten bytes of one
/// that runs past 64 bits.
pub fn decode_varint(r: &mut Cursor) -> (res: Result<u64, DecodeError>)
    ensures
        final(r).data() == old(r).data(),
        match spec_decode_varint(old(r).rest()) {
            Ok((v, n)) => res == Ok::<u64, DecodeError>(v) && final(r).pos() == old(r).pos() + n
                && final(r).rest() == old(r).rest().skip(n),
            Err(e) => res == Err::<u64, DecodeError>(e)
                && final(r).pos() == old(r).pos() + varint_error_len(old(r).rest()),
        },
{
    proof { use_type_invariant(&*r); }
    let ghost s = r.rest();
    let ghost p0 = r.pos();
    assert(s.skip(0) =~= s);
    let mut result: u64 = 0;
    let mut shift: u64 = 0;
    loop
        invariant_except_break
            shift <= 63,
            shift == 7 * (r.pos() - p0),
            varint_from(s, 0, 0, 0) == varint_from(s, r.pos() - p0, shift, result),
        invariant
            r.data() == old(r).data(),
            p0 == old(r).pos(),
            s == old(r).rest(),
            p0 <= r.pos() <= r.data().len(),
            r.rest() == s.skip(r.pos() - p0),
        ensures
            varint_from(s, 0, 0, 0) == Ok::<(u64, int), DecodeError>((result, r.pos() - p0)),
            r.rest() == s.skip(r.pos() - p0),
        decreases 64 - shift,
    {
        proof { use_type_invariant(&*r); }
        let ghost i = r.pos() - p0;
        let ghost acc = result;
        let byte = match r.read_byte() {
            Ok(b) => b,
            Err(e) => {
                return Err(e);
            }
        };
        assert(byte == s[i]);
        assert(s.skip(i).skip(1) =~= s.skip(i + 1));
        result = result | (((byte & 0x7f) as u64) << shift);
        if byte & 0x80 == 0 {
            break;
        }
        if shift >= 57 {
            return Err(DecodeError::UnexpectedEof);
        }
        shift = shift + 7;
    }
    Ok(result)
}

} // verus!

verus! {

// ---------------------------------------------------------------------------
// Fixed-width little-endian integers.

pub open spec fn le_u16(s: Seq<u8>) -> u16 {
    (s[0] as u16) | ((s[1] as u16) << 8u16)
}

pub open spec fn le_u32(s: Seq<u8>) -> u32 {
    (s[0] as u32) | ((s[1] as u32) << 8u32) | ((s[2] as u32) << 16u32) | ((s[3] as u32) << 24u32)
}

pub open spec fn le_u64(s: Seq<u8>) -> u64 {
    (s[0] as u64) | ((s[1] as u64) << 8u64) | ((s[2] as u64) << 16u64) | ((s[3] as u64) << 24u64)
        | ((s[4] as u64) << 32u64) | ((s[5] as u64) << 40u64) | ((s[6] as u64) << 48u64)
        | ((s[7] as u64) << 56u64)
}

pub open spec fn le_bytes_u16(v: u16) -> Seq<u8> {
    seq![v as u8, (v >> 8u16) as u8]
}

pub open spec fn le_bytes_u32(v: u32) -> Seq<u8> {
    seq![v as u8, (v >> 8u32) as u8, (v >> 16u32) as u8, (v >> 24u32) as u8]
}

pub open spec fn le_bytes_u64(v: u64) -> Seq<u8> {
    seq![
        v as u8,
        (v >> 8u64) as u8,
        (v >> 16u64) as u8,
        (v >> 24u64) as u8,
        (v >> 32u64) as u8,
        (v >> 40u64) as u8,
        (v >> 48u64) as u8,
        (v >> 56u64) as u8,
    ]
}

pub open spec fn spec_read_u8(s: Seq<u8>) -> Result<(u8, int), DecodeError> {
    if s.len() >= 1 { Ok((s[0], 1)) } else { Err(DecodeError::UnexpectedEof) }
}

pub open spec fn spec_read_u16(s: Seq<u8>) -> Result<(u16, int), DecodeError> {
    if s.len() >= 2 { Ok((le_u16(s), 2)) } else { Err(DecodeError::UnexpectedEof) }
}

pub open spec fn spec_read_u32(s: Seq<u8>) -> Result<(u32, int), DecodeError> {
    if s.len() >= 4 { Ok((le_u32(s), 4)) } else { Err(DecodeError::UnexpectedEof) }
}

pub open spec fn spec_read_u64(s: Seq<u8>) -> Result<(u64, int), DecodeError> {
    if s.len() >= 8 { Ok((le_u64(s), 8)) } else { Err(DecodeError::UnexpectedEof) }
}

/// Append `b` to `w`.
fn append_bytes(b: &[u8], w: &mut Vec<u8>)
    ensures
        final(w)@ == old(w)@ + b@,
{
    let mut i: usize = 0;
    while i < b.len()
        invariant
            i <= b@.len(),
            w@ == old(w)@ + b@.subrange(0, i as int),
        decreases b@.len() - i,
    {
        w.push(b[i]);
        i = i + 1;
        assert(w@ =~= old(w)@ + b@.subrange(0, i as int));
    }
    assert(b@.subrange(0, b@.len() as int) =~= b@);
}

/// Write a little-endian `u16`.
fn write_u16(v: u16, w: &mut Vec<u8>)
    ensures
        final(w)@ == old(w)@ + le_bytes_u16(v),
{
    w.push(v as u8);
    w.push((v >> 8) as u8);
    assert(w@ =~= old(w)@ + le_bytes_u16(v));
}

/// Write a little-endian `u32`.
fn write_u32(v: u32, w: &mut Vec<u8>)
    ensures
        final(w)@ == old(w)@ + le_bytes_u32(v),
{
    w.push(v as u8);
    w.push((v >> 8) as u8);
    w.push((v >> 16) as u8);
    w.push((v >> 24) as u8);
    assert(w@ =~= old(w)@ + le_bytes_u32(v));
}

/// Write a little-endian `u64`.
fn write_u64(v: u64, w: &mut Vec<u8>)
    ensures
        final(w)@ == old(w)@ + le_bytes_u64(v),
{
    w.push(v as u8);
    w.push((v >> 8) as u8);
    w.push((v >> 16) as u8);
    w.push((v >> 24) as u8);
    w.push((v >> 32) as u8);
    w.push((v >> 40) as u8);
    w.push((v >> 48) as u8);
    w.push((v >> 56) as u8);
    assert(w@ =~= old(w)@ + le_bytes_u64(v));
}

/// Write a `u8`.
fn write_u8(v: u8, w: &mut Vec<u8>)
    ensures
        final(w)@ == old(w)@.push(v),
{
    w.push(v);
}

/// Read a `u8`.
fn read_u8(r: &mut Cursor) -> (res: Result<u8, DecodeError>)
    ensures
        final(r).data() == old(r).data(),
        match spec_read_u8(old(r).rest()) {
            Ok((v, n)) => res == Ok::<u8, DecodeError>(v) && final(r).pos() == old(r).pos() + n
                && final(r).rest() == old(r).rest().skip(n),
            Err(e) => res == Err::<u8, DecodeError>(e),
        },
{
    r.read_byte()
}

/// Read a little-endian `u16`.
fn read_u16(r: &mut Cursor) -> (res: Result<u16, DecodeError>)
    ensures
        final(r).data() == old(r).data(),
        match spec_read_u16(old(r).rest()) {
            Ok((v, n)) => res == Ok::<u16, DecodeError>(v) && final(r).pos() == old(r).pos() + n
                && final(r).rest() == old(r).rest().skip(n),
            Err(e) => res == Err::<u16, DecodeError>(e),
        },
{
    let b = r.read_bytes(2)?;
    Ok((b[0] as u16) | ((b[1] as u16) << 8))
}

/// Read a little-endian `u32`.
fn read_u32(r: &mut Cursor) -> (res: Result<u32, DecodeError>)
    ensures
        final(r).data() == old(r).data(),
        match spec_read_u32(old(r).rest()) {
            Ok((v, n)) => res == Ok::<u32, DecodeError>(v) && final(r).pos() == old(r).pos() + n
                && final(r).rest() == old(r).rest().skip(n),
            Err(e) => res == Err::<u32, DecodeError>(e),
        },
{
    let b = r.read_bytes(4)?;
    Ok((b[0] as u32) | ((b[1] as u32) << 8) | ((b[2] as u32) << 16) | ((b[3] as u32) << 24))
}

/// Read a little-endian `u64`.
fn read_u64(r: &mut Cursor) -> (res: Result<u64, DecodeError>)
    ensures
        final(r).data() == old(r).data(),
        match spec_read_u64(old(r).rest()) {
            Ok((v, n)) => res == Ok::<u64, DecodeError>(v) && final(r).pos() == old(r).pos() + n
                && final(r).rest() == old(r).rest().skip(n),
            Err(e) => res == Err::<u64, DecodeError>(e),
        },
{
    let b = r.read_bytes(8)?;
    Ok((b[0] as u64) | ((b[1] as u64) << 8) | ((b[2] as u64) << 16) | ((b[3] as u64) << 24)
        | ((b[4] as u64) << 32) | ((b[5] as u64) << 40) | ((b[6] as u64) << 48)
        | ((b[7] as u64) << 56))
}

} // verus!

verus! {

// ---------------------------------------------------------------------------
// Strings.

/// Longest string accepted on decode, in bytes.
pub const MAX_STRING_BYTES: u64 = 16384u64;

/// `std::str::from_utf8`, which returns `Ok` exactly when `v` is valid UTF-8,
/// and then a string whose UTF-8 encoding is `v` itself.
#[verifier::external_body]
fn str_from_utf8(v: &[u8]) -> (r: Option<&str>)
    ensures
        r is Some <==> valid_utf8(v@),
        r matches Some(s) ==> s.spec_bytes() == v@,
{
    match std::str::from_utf8(v) {
        Ok(s) => Some(s),
        Err(_) => None,
    }
}

/// The wire form of a string: `varint(byte length) || utf8 bytes`.
pub open spec fn spec_encode_string(c: Seq<char>) -> Seq<u8> {
    spec_encode_varint(encode_utf8(c).len() as u64) + encode_utf8(c)
}

/// Decoding of a string at the start of `s`.
pub open spec fn spec_read_string(s: Seq<u8>) -> Result<(Seq<char>, int), DecodeError> {
    match spec_decode_varint(s) {
        Err(e) => Err(e),
        Ok((len, n)) => {
            if len > MAX_STRING_BYTES {
                Err(DecodeError::StringTooLarge)
            } else if s.len() - n < len {
                Err(DecodeError::UnexpectedEof)
            } else {
                let b = s.subrange(n, n + len);
                if valid_utf8(b) {
                    Ok((decode_utf8(b), n + len))
                } else {
                    Err(DecodeError::InvalidUtf8)
                }
            }
        },
    }
}


/// A successful string decode consumes at most its input.
pub proof fn lemma_read_string_len(s: Seq<u8>)
    ensures
        spec_read_string(s) matches Ok((v, n)) ==> 1 <= n <= s.len(),
{
    lemma_decode_varint_len(s);
}

/// Write a string as `varint(len) || utf8 bytes`.
fn write_string(s: &str, w: &mut Vec<u8>)
    ensures
        final(w)@ == old(w)@ + spec_encode_string(s@),
{
    let bytes = s.as_bytes();
    encode_varint(bytes.len() as u64, w);
    append_bytes(bytes, w);
    assert(w@ =~= old(w)@ + spec_encode_string(s@));
}

/// Read a string encoded as `varint(len) || utf8 bytes`, enforcing the
/// 16 KiB length cap.
fn read_string(r: &mut Cursor) -> (res: Result<String, DecodeError>)
    ensures
        final(r).data() == old(r).data(),
        match spec_read_string(old(r).rest()) {
            Ok((v, n)) => (res matches Ok(x) && x@ == v) && final(r).pos() == old(r).pos() + n
                && final(r).rest() == old(r).rest().skip(n),
            Err(e) => res == Err::<String, DecodeError>(e),
        },
{
    let ghost s = r.rest();
    let len = decode_varint(r)?;
    if len > MAX_STRING_BYTES {
        return Err(DecodeError::StringTooLarge);
    }
    let ghost n = spec_decode_varint(s)->Ok_0.1;
    proof { lemma_decode_varint_len(s); }
    assert(r.rest() == s.skip(n));
    assert(r.rest().len() == s.len() - n);
    let b = r.read_bytes(len)?;
    proof {
        assert(b@ =~= s.subrange(n, n + len));
        assert(s.skip(n).skip(len as int) =~= s.skip(n + len));
    }
    match str_from_utf8(b) {
        Some(text) => {
            proof {
                broadcast use vstd::utf8::encode_utf8_decode_utf8;
                assert(decode_utf8(encode_utf8(text@)) == text@);
            }
            Ok(text.to_owned())
        },
        None => Err(DecodeError::InvalidUtf8),
    }
}

} // verus!

verus! {

// ---------------------------------------------------------------------------
// Input events.

pub open spec fn button_state_byte(st: ButtonState) -> u8 {
    match st {
        ButtonState::Pressed => 0,
        ButtonState::Released => 1,
    }
}

/// The wire form of an input event: `tag || fields`.
pub open spec fn spec_encode_input_event(e: InputEvent) -> Seq<u8> {
    match e {
        InputEvent::KeyDown { scancode } => spec_encode_varint(1) + le_bytes_u16(scancode),
        InputEvent::KeyUp { scancode } => spec_encode_varint(2) + le_bytes_u16(scancode),
        InputEvent::PointerMove { x, y } => spec_encode_varint(3) + le_bytes_u64(x) + le_bytes_u64(y),
        InputEvent::PointerButton { button, state } => spec_encode_varint(4) + le_bytes_u32(button)
            + seq![button_state_byte(state)],
        InputEvent::Axis { dx, dy } => spec_encode_varint(5) + le_bytes_u64(dx) + le_bytes_u64(dy),
    }
}

/// Decoding of two consecutive `u64` fields.
pub open spec fn spec_read_u64_pair(s: Seq<u8>) -> Result<((u64, u64), int), DecodeError> {
    match spec_read_u64(s) {
        Err(e) => Err(e),
        Ok((a, n)) => match spec_read_u64(s.skip(n)) {
            Err(e) => Err(e),
            Ok((b, m)) => Ok(((a, b), n + m)),
        },
    }
}

/// Decoding of an input event at the start of `s`.
pub open spec fn spec_decode_input_event(s: Seq<u8>) -> Result<(InputEvent, int), DecodeError> {
    match spec_decode_varint(s) {
        Err(e) => Err(e),
        Ok((tag, n)) => {
            let t = s.skip(n);
            if tag == 1 {
                match spec_read_u16(t) {
                    Err(e) => Err(e),
                    Ok((sc, m)) => Ok((InputEvent::KeyDown { scancode: sc }, n + m)),
                }
            } else if tag == 2 {
                match spec_read_u16(t) {
                    Err(e) => Err(e),
                    Ok((sc, m)) => Ok((InputEvent::KeyUp { scancode: sc }, n + m)),
                }
            } else if tag == 3 {
                match spec_read_u64_pair(t) {
                    Err(e) => Err(e),
                    Ok(((x, y), m)) => Ok((InputEvent::PointerMove { x, y }, n + m)),
                }
            } else if tag == 4 {
                match spec_read_u32(t) {
                    Err(e) => Err(e),
                    Ok((button, m)) => match spec_read_u8(t.skip(m)) {
                        Err(e) => Err(e),
                        Ok((st, k)) => if st == 0 {
                            Ok((InputEvent::PointerButton { button, state: ButtonState::Pressed }, n + m + k))
                        } else if st == 1 {
                            Ok((InputEvent::PointerButton { button, state: ButtonState::Released }, n + m + k))
                        } else {
                            Err(DecodeError::UnknownInputTag(st as u64))
                        },
                    },
                }
            } else if tag == 5 {
                match spec_read_u64_pair(t) {
                    Err(e) => Err(e),
                    Ok(((dx, dy), m)) => Ok((InputEvent::Axis { dx, dy }, n + m)),
                }
            } else {
                Err(DecodeError::UnknownInputTag(tag))
            }
        },
    }
}

/// Encode an [`InputEvent`] as `tag || fields`.
pub fn encode_input_event(event: &InputEvent, w: &mut Vec<u8>)
    ensures
        final(w)@ == old(w)@ + spec_encode_input_event(*event),
{
    match event {
        InputEvent::KeyDown { scancode } => {
            encode_varint(1, w);
            write_u16(*scancode, w);
        },
        InputEvent::KeyUp { scancode } => {
            encode_varint(2, w);
            write_u16(*scancode, w);
        },
        InputEvent::PointerMove { x, y } => {
            encode_varint(3, w);
            write_u64(*x, w);
            write_u64(*y, w);
        },
        InputEvent::PointerButton { button, state } => {
            encode_varint(4, w);
            write_u32(*button, w);
            write_u8(
                match state {
                    ButtonState::Pressed => 0,
                    ButtonState::Released => 1,
                },
                w,
            );
        },
        InputEvent::Axis { dx, dy } => {
            encode_varint(5, w);
            write_u64(*dx, w);
            write_u64(*dy, w);
        },
    }
    assert(w@ =~= old(w)@ + spec_encode_input_event(*event));
}

fn read_u64_pair(r: &mut Cursor) -> (res: Result<(u64, u64), DecodeError>)
    ensures
        final(r).data() == old(r).data(),
        match spec_read_u64_pair(old(r).rest()) {
            Ok((v, n)) => res == Ok::<(u64, u64), DecodeError>(v) && final(r).pos() == old(r).pos() + n
                && final(r).rest() == old(r).rest().skip(n),
            Err(e) => res == Err::<(u64, u64), DecodeError>(e),
        },
{
    let ghost s = r.rest();
    let a = read_u64(r)?;
    let b = read_u64(r)?;
    assert(s.skip(8).skip(8) =~= s.skip(16));
    Ok((a, b))
}

/// Decode an [`InputEvent`] encoded as `tag || fields`.
pub fn decode_input_event(r: &mut Cursor) -> (res: Result<InputEvent, DecodeError>)
    ensures
        final(r).data() == old(r).data(),
        match spec_decode_input_event(old(r).rest()) {
            Ok((v, n)) => res == Ok::<InputEvent, DecodeError>(v) && final(r).pos() == old(r).pos() + n
                && final(r).rest() == old(r).rest().skip(n),
            Err(e) => res == Err::<InputEvent, DecodeError>(e),
        },
{
    let ghost s = r.rest();
    let tag = decode_varint(r)?;
    let ghost n = spec_decode_varint(s)->Ok_0.1;
    proof { lemma_decode_varint_len(s); }
    let ghost t = s.skip(n);
    assert(r.rest() == t);
    if tag == 1 {
        let sc = read_u16(r)?;
        assert(t.skip(2) =~= s.skip(n + 2));
        Ok(InputEvent::KeyDown { scancode: sc })
    } else if tag == 2 {
        let sc = read_u16(r)?;
        assert(t.skip(2) =~= s.skip(n + 2));
        Ok(InputEvent::KeyUp { scancode: sc })
    } else if tag == 3 {
        let (x, y) = read_u64_pair(r)?;
        assert(t.skip(16) =~= s.skip(n + 16));
        Ok(InputEvent::PointerMove { x, y })
    } else if tag == 4 {
        let button = read_u32(r)?;
        let st = read_u8(r)?;
        assert(t.skip(4).skip(1) =~= s.skip(n + 5));
        let state = if st == 0 {
            ButtonState::Pressed
        } else if st == 1 {
            ButtonState::Released
        } else {
            return Err(DecodeError::UnknownInputTag(st as u64));
        };
        Ok(InputEvent::PointerButton { button, state })
    } else if tag == 5 {
        let (dx, dy) = read_u64_pair(r)?;
        assert(t.skip(16) =~= s.skip(n + 16));
        Ok(InputEvent::Axis { dx, dy })
    } else {
        Err(DecodeError::UnknownInputTag(tag))
    }
}

} // verus!

verus! {

// ---------------------------------------------------------------------------
// Window events.

/// The wire form of a window event: `tag || fields`.
pub open spec fn spec_encode_window_event_kind(e: WindowEventKindV) -> Seq<u8> {
    match e {
        WindowEventKindV::Created { width, height, title } => spec_encode_varint(1) + le_bytes_u32(width)
            + le_bytes_u32(height) + spec_encode_string(title),
        WindowEventKindV::Destroyed => spec_encode_varint(2),
        WindowEventKindV::Resized { width, height } => spec_encode_varint(3) + le_bytes_u32(width)
            + le_bytes_u32(height),
        WindowEventKindV::Focused => spec_encode_varint(4),
        WindowEventKindV::Unfocused => spec_encode_varint(5),
    }
}

/// Decoding of two consecutive `u32` fields.
pub open spec fn spec_read_u32_pair(s: Seq<u8>) -> Result<((u32, u32), int), DecodeError> {
    match spec_read_u32(s) {
        Err(e) => Err(e),
        Ok((a, n)) => match spec_read_u32(s.skip(n)) {
            Err(e) => Err(e),
            Ok((b, m)) => Ok(((a, b), n + m)),
        },
    }
}

/// Decoding of a window event at the start of `s`.
pub open spec fn spec_decode_window_event_kind(s: Seq<u8>) -> Result<(WindowEventKindV, int), DecodeError> {
    match spec_decode_varint(s) {
        Err(e) => Err(e),
        Ok((tag, n)) => {
            let t = s.skip(n);
            if tag == 1 {
                match spec_read_u32_pair(t) {
                    Err(e) => Err(e),
                    Ok(((width, height), m)) => match spec_read_string(t.skip(m)) {
                        Err(e) => Err(e),
                        Ok((title, k)) => Ok((WindowEventKindV::Created { width, height, title }, n + m + k)),
                    },
                }
            } else if tag == 2 {
                Ok((WindowEventKindV::Destroyed, n))
            } else if tag == 3 {
                match spec_read_u32_pair(t) {
                    Err(e) => Err(e),
                    Ok(((width, height), m)) => Ok((WindowEventKindV::Resized { width, height }, n + m)),
                }
            } else if tag == 4 {
                Ok((WindowEventKindV::Focused, n))
            } else if tag == 5 {
                Ok((WindowEventKindV::Unfocused, n))
            } else {
                Err(DecodeError::UnknownWindowTag(tag))
            }
        },
    }
}

fn read_u32_pair(r: &mut Cursor) -> (res: Result<(u32, u32), DecodeError>)
    ensures
        final(r).data() == old(r).data(),
        match spec_read_u32_pair(old(r).rest()) {
            Ok((v, n)) => res == Ok::<(u32, u32), DecodeError>(v) && final(r).pos() == old(r).pos() + n
                && final(r).rest() == old(r).rest().skip(n),
            Err(e) => res == Err::<(u32, u32), DecodeError>(e),
        },
{
    let ghost s = r.rest();
    let a = read_u32(r)?;
    let b = read_u32(r)?;
    assert(s.skip(4).skip(4) =~= s.skip(8));
    Ok((a, b))
}

/// Encode a [`WindowEventKind`] as `tag || fields`.
pub fn encode_window_event_kind(event: &WindowEventKind, w: &mut Vec<u8>)
    ensures
        final(w)@ == old(w)@ + spec_encode_window_event_kind(event@),
{
    match event {
        WindowEventKind::Created { width, height, title } => {
            encode_varint(1, w);
            write_u32(*width, w);
            write_u32(*height, w);
            write_string(title.as_str(), w);
        },
        WindowEventKind::Destroyed => encode_varint(2, w),
        WindowEventKind::Resized { width, height } => {
            encode_varint(3, w);
            write_u32(*width, w);
            write_u32(*height, w);
        },
        WindowEventKind::Focused => encode_varint(4, w),
        WindowEventKind::Unfocused => encode_varint(5, w),
    }
    assert(w@ =~= old(w)@ + spec_encode_window_event_kind(event@));
}

/// Decode a [`WindowEventKind`] encoded as `tag || fields`.
pub fn decode_window_event_kind(r: &mut Cursor) -> (res: Result<WindowEventKind, DecodeError>)
    ensures
        final(r).data() == old(r).data(),
        match spec_decode_window_event_kind(old(r).rest()) {
            Ok((v, n)) => (res matches Ok(x) && x@ == v) && final(r).pos() == old(r).pos() + n
                && final(r).rest() == old(r).rest().skip(n),
            Err(e) => res == Err::<WindowEventKind, DecodeError>(e),
        },
        match spec_decode_varint(old(r).rest()) {
            Err(_) => final(r).pos() == old(r).pos() + varint_error_len(old(r).rest()),
            Ok((tag, n)) => (tag == 0 || tag > 5) ==> final(r).pos() == old(r).pos() + n,
        },
{
    let ghost s = r.rest();
    let tag = decode_varint(r)?;
    let ghost n = spec_decode_varint(s)->Ok_0.1;
    proof { lemma_decode_varint_len(s); }
    let ghost t = s.skip(n);
    assert(r.rest() == t);
    if tag == 1 {
        let (width, height) = read_u32_pair(r)?;
        let ghost u = t.skip(8);
        assert(r.rest() == u);
        let title = read_string(r)?;
        proof {
            let k = spec_read_string(u)->Ok_0.1;
            lemma_read_string_len(u);
            assert(u.skip(k) =~= s.skip(n + 8 + k));
        }
        Ok(WindowEventKind::Created { width, height, title })
    } else if tag == 2 {
        Ok(WindowEventKind::Destroyed)
    } else if tag == 3 {
        let (width, height) = read_u32_pair(r)?;
        assert(t.skip(8) =~= s.skip(n + 8));
        Ok(WindowEventKind::Resized { width, height })
    } else if tag == 4 {
        Ok(WindowEventKind::Focused)
    } else if tag == 5 {
        Ok(WindowEventKind::Unfocused)
    } else {
        Err(DecodeError::UnknownWindowTag(tag))
    }
}

} // verus!

verus! {

// ---------------------------------------------------------------------------
// Control-stream messages.

/// The payload of a message: `tag || fields`.
pub open spec fn spec_message_payload(m: MessageV) -> Seq<u8> {
    match m {
        MessageV::Hello { version, client_name } => spec_encode_varint(1) + le_bytes_u16(version)
            + spec_encode_string(client_name),
        MessageV::Input { window_id, event } => spec_encode_varint(2) + le_bytes_u64(window_id)
            + spec_encode_input_event(event),
        MessageV::Welcome { version, width, height } => spec_encode_varint(3) + le_bytes_u16(version)
            + le_bytes_u32(width) + le_bytes_u32(height),
        MessageV::WindowEvent { window_id, event } => spec_encode_varint(4) + le_bytes_u64(window_id)
            + spec_encode_window_event_kind(event),
        MessageV::Ping { timestamp_ns } => spec_encode_varint(5) + le_bytes_u64(timestamp_ns),
        MessageV::Pong { timestamp_ns } => spec_encode_varint(6) + le_bytes_u64(timestamp_ns),
        MessageV::SetFocus { window_id } => spec_encode_varint(7) + le_bytes_u64(window_id),
        MessageV::ConfigureWindow { window_id, width, height } => spec_encode_varint(8) + le_bytes_u64(
            window_id,
        ) + le_bytes_u32(width) + le_bytes_u32(height),
        MessageV::CloseWindow { window_id } => spec_encode_varint(9) + le_bytes_u64(window_id),
    }
}

/// The framed wire form of a message: `varint(len) || payload`.
pub open spec fn spec_encode_message(m: MessageV) -> Seq<u8> {
    spec_encode_varint(spec_message_payload(m).len() as u64) + spec_message_payload(m)
}

/// Decoding of a message payload (`tag || fields`); trailing bytes are ignored.
pub open spec fn spec_decode_payload(p: Seq<u8>) -> Result<MessageV, DecodeError> {
    match spec_decode_varint(p) {
        Err(e) => Err(e),
        Ok((tag, n)) => {
            let t = p.skip(n);
            if tag == 1 {
                match spec_read_u16(t) {
                    Err(e) => Err(e),
                    Ok((version, m)) => match spec_read_string(t.skip(m)) {
                        Err(e) => Err(e),
                        Ok((client_name, _)) => Ok(MessageV::Hello { version, client_name }),
                    },
                }
            } else if tag == 2 {
                match spec_read_u64(t) {
                    Err(e) => Err(e),
                    Ok((window_id, m)) => match spec_decode_input_event(t.skip(m)) {
                        Err(e) => Err(e),
                        Ok((event, _)) => Ok(MessageV::Input { window_id, event }),
                    },
                }
            } else if tag == 3 {
                match spec_read_u16(t) {
                    Err(e) => Err(e),
                    Ok((version, m)) => match spec_read_u32_pair(t.skip(m)) {
                        Err(e) => Err(e),
                        Ok(((width, height), _)) => Ok(MessageV::Welcome { version, width, height }),
                    },
                }
            } else if tag == 4 {
                match spec_read_u64(t) {
                    Err(e) => Err(e),
                    Ok((window_id, m)) => match spec_decode_window_event_kind(t.skip(m)) {
                        Err(e) => Err(e),
                        Ok((event, _)) => Ok(MessageV::WindowEvent { window_id, event }),
                    },
                }
            } else if tag == 5 {
                match spec_read_u64(t) {
                    Err(e) => Err(e),
                    Ok((timestamp_ns, _)) => Ok(MessageV::Ping { timestamp_ns }),
                }
            } else if tag == 6 {
                match spec_read_u64(t) {
                    Err(e) => Err(e),
                    Ok((timestamp_ns, _)) => Ok(MessageV::Pong { timestamp_ns }),
                }
            } else if tag == 7 {
                match spec_read_u64(t) {
                    Err(e) => Err(e),
                    Ok((window_id, _)) => Ok(MessageV::SetFocus { window_id }),
                }
            } else if tag == 8 {
                match spec_read_u64(t) {
                    Err(e) => Err(e),
                    Ok((window_id, m)) => match spec_read_u32_pair(t.skip(m)) {
                        Err(e) => Err(e),
                        Ok(((width, height), _)) => Ok(MessageV::ConfigureWindow { window_id, width, height }),
                    },
                }
            } else if tag == 9 {
                match spec_read_u64(t) {
                    Err(e) => Err(e),
                    Ok((window_id, _)) => Ok(MessageV::CloseWindow { window_id }),
                }
            } else {
                Err(DecodeError::UnknownMessageTag(tag))
            }
        },
    }
}

/// Decoding of a framed message at the start of `s`: the message and the
/// number of bytes the frame occupies.
pub open spec fn spec_decode_message(s: Seq<u8>) -> Result<(MessageV, int), DecodeError> {
    match spec_decode_varint(s) {
        Err(e) => Err(e),
        Ok((len, n)) => if s.len() - n < len {
            Err(DecodeError::UnexpectedEof)
        } else {
            match spec_decode_payload(s.subrange(n, n + len)) {
                Err(e) => Err(e),
                Ok(m) => Ok((m, n + len)),
            }
        },
    }
}

/// How many bytes a message read consumes, whether it succeeds or not: a
/// failed length prefix as [`varint_error_len`] says; a length prefix
/// whose payload is not all there and nothing more; otherwise the prefix
/// and the whole payload it announces, even when that payload does not
/// decode.
pub open spec fn message_consumed(s: Seq<u8>) -> int {
    match spec_decode_varint(s) {
        Err(_) => varint_error_len(s),
        Ok((len, n)) => if s.len() - n < len {
            n
        } else {
            n + len
        },
    }
}

/// Encode a [`Message`] as `varint(len) || tag || fields`.
///
/// The payload (tag + fields) is first encoded into a temporary buffer so
/// the frame length can be written as a leading varint.
pub fn encode_message(msg: &Message, w: &mut Vec<u8>)
    ensures
        final(w)@ == old(w)@ + spec_encode_message(msg@),
{
    let mut buf: Vec<u8> = Vec::new();
    match msg {
        Message::Hello { version, client_name } => {
            encode_varint(1, &mut buf);
            write_u16(*version, &mut buf);
            write_string(client_name.as_str(), &mut buf);
        },
        Message::Input { window_id, event } => {
            encode_varint(2, &mut buf);
            write_u64(*window_id, &mut buf);
            encode_input_event(event, &mut buf);
        },
        Message::Welcome { version, width, height } => {
            encode_varint(3, &mut buf);
            write_u16(*version, &mut buf);
            write_u32(*width, &mut buf);
            write_u32(*height, &mut buf);
        },
        Message::WindowEvent { window_id, event } => {
            encode_varint(4, &mut buf);
            write_u64(*window_id, &mut buf);
            encode_window_event_kind(event, &mut buf);
        },
        Message::Ping { timestamp_ns } => {
            encode_varint(5, &mut buf);
            write_u64(*timestamp_ns, &mut buf);
        },
        Message::Pong { timestamp_ns } => {
            encode_varint(6, &mut buf);
            write_u64(*timestamp_ns, &mut buf);
        },
        Message::SetFocus { window_id } => {
            encode_varint(7, &mut buf);
            write_u64(*window_id, &mut buf);
        },
        Message::ConfigureWindow { window_id, width, height } => {
            encode_varint(8, &mut buf);
            write_u64(*window_id, &mut buf);
            write_u32(*width, &mut buf);
            write_u32(*height, &mut buf);
        },
        Message::CloseWindow { window_id } => {
            encode_varint(9, &mut buf);
            write_u64(*window_id, &mut buf);
        },
    }
    assert(buf@ =~= spec_message_payload(msg@));
    encode_varint(buf.len() as u64, w);
    append_bytes(buf.as_slice(), w);
    assert(w@ =~= old(w)@ + spec_encode_message(msg@));
}

fn decode_payload(r: &mut Cursor) -> (res: Result<Message, DecodeError>)
    ensures
        match spec_decode_payload(old(r).rest()) {
            Ok(v) => res matches Ok(x) && x@ == v,
            Err(e) => res == Err::<Message, DecodeError>(e),
        },
{
    let ghost s = r.rest();
    let tag = decode_varint(r)?;
    let ghost n = spec_decode_varint(s)->Ok_0.1;
    proof { lemma_decode_varint_len(s); }
    let ghost t = s.skip(n);
    assert(r.rest() == t);
    if tag == 1 {
        let version = read_u16(r)?;
        assert(r.rest() == t.skip(2));
        let client_name = read_string(r)?;
        Ok(Message::Hello { version, client_name })
    } else if tag == 2 {
        let window_id = read_u64(r)?;
        assert(r.rest() == t.skip(8));
        let event = decode_input_event(r)?;
        Ok(Message::Input { window_id, event })
    } else if tag == 3 {
        let version = read_u16(r)?;
        assert(r.rest() == t.skip(2));
        let (width, height) = read_u32_pair(r)?;
        Ok(Message::Welcome { version, width, height })
    } else if tag == 4 {
        let window_id = read_u64(r)?;
        assert(r.rest() == t.skip(8));
        let event = decode_window_event_kind(r)?;
        Ok(Message::WindowEvent { window_id, event })
    } else if tag == 5 {
        let timestamp_ns = read_u64(r)?;
        Ok(Message::Ping { timestamp_ns })
    } else if tag == 6 {
        let timestamp_ns = read_u64(r)?;
        Ok(Message::Pong { timestamp_ns })
    } else if tag == 7 {
        let window_id = read_u64(r)?;
        Ok(Message::SetFocus { window_id })
    } else if tag == 8 {
        let window_id = read_u64(r)?;
        assert(r.rest() == t.skip(8));
        let (width, height) = read_u32_pair(r)?;
        Ok(Message::ConfigureWindow { window_id, width, height })
    } else if tag == 9 {
        let window_id = read_u64(r)?;
        Ok(Message::CloseWindow { window_id })
    } else {
        Err(DecodeError::UnknownMessageTag(tag))
    }
}

/// Decode a [`Message`] framed as `varint(len) || tag || fields`.
///
/// Exactly `len` payload bytes are consumed from the input and decoded on
/// their own, so any leftover input bytes are untouched.
pub fn decode_message(r: &mut Cursor) -> (res: Result<Message, DecodeError>)
    ensures
        final(r).data() == old(r).data(),
        match spec_decode_message(old(r).rest()) {
            Ok((v, n)) => (res matches Ok(x) && x@ == v) && final(r).pos() == old(r).pos() + n
                && final(r).rest() == old(r).rest().skip(n),
            Err(e) => res == Err::<Message, DecodeError>(e),
        },
        final(r).pos() == old(r).pos() + message_consumed(old(r).rest()),
{
    let ghost s = r.rest();
    let len = decode_varint(r)?;
    let ghost n = spec_decode_varint(s)->Ok_0.1;
    proof { lemma_decode_varint_len(s); }
    assert(r.rest() == s.skip(n));
    let payload = r.read_bytes(len)?;
    proof {
        assert(payload@ =~= s.subrange(n, n + len));
        assert(s.skip(n).skip(len as int) =~= s.skip(n + len));
    }
    let mut inner = Cursor::new(payload);
    assert(inner.rest() =~= payload@);
    decode_payload(&mut inner)
}

} // verus!

verus! {

// ---------------------------------------------------------------------------
// Frame headers.

/// Largest frame (`stride * height`) a header may declare: 64 MiB.
pub const MAX_FRAME_BYTES: u64 = 67108864u64;

/// The 54-byte wire form of a frame header, field by field, little-endian.
pub open spec fn spec_encode_frame_header(h: FrameHeader) -> Seq<u8> {
    le_bytes_u32(h.magic) + le_bytes_u64(h.frame_id) + le_bytes_u64(h.window_id) + le_bytes_u32(h.width)
        + le_bytes_u32(h.height) + le_bytes_u32(h.stride) + seq![h.format] + seq![h.compression]
        + le_bytes_u32(h._reserved) + le_bytes_u64(h.timestamp_ns) + le_bytes_u64(h.compressed_size)
}

/// Decoding of a frame header at the start of `s`, with validation in the
/// order the fields are read: magic, pixel format, compression, then stride
/// and frame size once every field is in.
pub open spec fn spec_decode_frame_header(s: Seq<u8>) -> Result<(FrameHeader, int), DecodeError> {
    if s.len() < 4 {
        Err(DecodeError::UnexpectedEof)
    } else if le_u32(s) != FRAME_MAGIC {
        Err(DecodeError::BadFrameMagic)
    } else if s.len() < 33 {
        Err(DecodeError::UnexpectedEof)
    } else if s[32] != FORMAT_BGRA8 {
        Err(DecodeError::UnknownFormat(s[32]))
    } else if s.len() < 34 {
        Err(DecodeError::UnexpectedEof)
    } else if s[33] > 1 {
        Err(DecodeError::UnknownCompression(s[33]))
    } else if s.len() < 54 {
        Err(DecodeError::UnexpectedEof)
    } else {
        let h = FrameHeader {
            magic: le_u32(s),
            frame_id: le_u64(s.skip(4)),
            window_id: le_u64(s.skip(12)),
            width: le_u32(s.skip(20)),
            height: le_u32(s.skip(24)),
            stride: le_u32(s.skip(28)),
            format: s[32],
            compression: s[33],
            _reserved: le_u32(s.skip(34)),
            timestamp_ns: le_u64(s.skip(38)),
            compressed_size: le_u64(s.skip(46)),
        };
        if (h.stride as int) < (h.width as int) * 4 {
            Err(DecodeError::InvalidStride)
        } else if (h.stride as int) * (h.height as int) > MAX_FRAME_BYTES {
            Err(DecodeError::FrameTooLarge)
        } else {
            Ok((h, 54))
        }
    }
}

/// The validation a decoder applies to a header, as the first error it
/// reports or `Ok`.
pub open spec fn frame_header_check(h: FrameHeader) -> Result<(), DecodeError> {
    if h.magic != FRAME_MAGIC {
        Err(DecodeError::BadFrameMagic)
    } else if h.format != FORMAT_BGRA8 {
        Err(DecodeError::UnknownFormat(h.format))
    } else if h.compression > 1 {
        Err(DecodeError::UnknownCompression(h.compression))
    } else if (h.stride as int) < (h.width as int) * 4 {
        Err(DecodeError::InvalidStride)
    } else if (h.stride as int) * (h.height as int) > MAX_FRAME_BYTES {
        Err(DecodeError::FrameTooLarge)
    } else {
        Ok(())
    }
}

/// Encode a [`FrameHeader`] field by field, little-endian.
pub fn encode_frame_header(h: &FrameHeader, w: &mut Vec<u8>)
    ensures
        final(w)@ == old(w)@ + spec_encode_frame_header(*h),
{
    write_u32(h.magic, w);
    write_u64(h.frame_id, w);
    write_u64(h.window_id, w);
    write_u32(h.width, w);
    write_u32(h.height, w);
    write_u32(h.stride, w);
    write_u8(h.format, w);
    write_u8(h.compression, w);
    write_u32(h._reserved, w);
    write_u64(h.timestamp_ns, w);
    write_u64(h.compressed_size, w);
    assert(w@ =~= old(w)@ + spec_encode_frame_header(*h));
}

/// Decode and validate a [`FrameHeader`].
///
/// Rejects a bad magic, an unknown pixel format, an unknown compression
/// value, `stride < width * 4`, and a declared frame larger than 64 MiB.
pub fn decode_frame_header(r: &mut Cursor) -> (res: Result<FrameHeader, DecodeError>)
    ensures
        final(r).data() == old(r).data(),
        match spec_decode_frame_header(old(r).rest()) {
            Ok((v, n)) => res == Ok::<FrameHeader, DecodeError>(v) && final(r).pos() == old(r).pos() + n
                && final(r).rest() == old(r).rest().skip(n),
            Err(e) => res == Err::<FrameHeader, DecodeError>(e),
        },
{
    let ghost s = r.rest();
    let magic = read_u32(r)?;
    if magic != FRAME_MAGIC {
        return Err(DecodeError::BadFrameMagic);
    }
    let frame_id = read_u64(r)?;
    assert(s.skip(4).skip(8) =~= s.skip(12));
    let window_id = read_u64(r)?;
    assert(s.skip(12).skip(8) =~= s.skip(20));
    let width = read_u32(r)?;
    assert(s.skip(20).skip(4) =~= s.skip(24));
    let height = read_u32(r)?;
    assert(s.skip(24).skip(4) =~= s.skip(28));
    let stride = read_u32(r)?;
    assert(s.skip(28).skip(4) =~= s.skip(32));
    let format = read_u8(r)?;
    assert(s.skip(32).skip(1) =~= s.skip(33));
    if format != FORMAT_BGRA8 {
        return Err(DecodeError::UnknownFormat(format));
    }
    let compression = read_u8(r)?;
    assert(s.skip(33).skip(1) =~= s.skip(34));
    if compression > 1 {
        return Err(DecodeError::UnknownCompression(compression));
    }
    let _reserved = read_u32(r)?;
    assert(s.skip(34).skip(4) =~= s.skip(38));
    let timestamp_ns = read_u64(r)?;
    assert(s.skip(38).skip(8) =~= s.skip(46));
    let compressed_size = read_u64(r)?;
    assert(s.skip(46).skip(8) =~= s.skip(54));
    if (stride as u64) < (width as u64) * 4 {
        return Err(DecodeError::InvalidStride);
    }
    assert((stride as u64) * (height as u64) <= 0xffff_ffffu64 * 0xffff_ffffu64) by (nonlinear_arith)
        requires stride <= 0xffff_ffffu32, height <= 0xffff_ffffu32;
    if (stride as u64) * (height as u64) > MAX_FRAME_BYTES {
        return Err(DecodeError::FrameTooLarge);
    }
    Ok(FrameHeader {
        magic,
        frame_id,
        window_id,
        width,
        height,
        stride,
        format,
        compression,
        _reserved,
        timestamp_ns,
        compressed_size,
    })
}

} // verus!

verus! {

// ---------------------------------------------------------------------------
// Round-trip laws.

proof fn lemma_skip_prefix(a: Seq<u8>, b: Seq<u8>)
    ensures
        (a + b).skip(a.len() as int) == b,
{
    assert((a + b).skip(a.len() as int) =~= b);
}

proof fn lemma_read_u16_roundtrip(v: u16, rest: Seq<u8>)
    ensures
        spec_read_u16(le_bytes_u16(v) + rest) == Ok::<(u16, int), DecodeError>((v, 2)),
        (le_bytes_u16(v) + rest).skip(2) == rest,
{
    let s = le_bytes_u16(v) + rest;
    assert(s[0] == v as u8 && s[1] == (v >> 8u16) as u8);
    assert(((v as u8) as u16) | ((((v >> 8u16) as u8) as u16) << 8u16) == v) by (bit_vector);
    lemma_skip_prefix(le_bytes_u16(v), rest);
}

proof fn lemma_read_u32_roundtrip(v: u32, rest: Seq<u8>)
    ensures
        spec_read_u32(le_bytes_u32(v) + rest) == Ok::<(u32, int), DecodeError>((v, 4)),
        (le_bytes_u32(v) + rest).skip(4) == rest,
{
    let s = le_bytes_u32(v) + rest;
    assert(s[0] == v as u8 && s[1] == (v >> 8u32) as u8 && s[2] == (v >> 16u32) as u8 && s[3] == (v
        >> 24u32) as u8);
    assert(((v as u8) as u32) | ((((v >> 8u32) as u8) as u32) << 8u32) | ((((v >> 16u32) as u8) as u32)
        << 16u32) | ((((v >> 24u32) as u8) as u32) << 24u32) == v) by (bit_vector);
    lemma_skip_prefix(le_bytes_u32(v), rest);
}

proof fn lemma_read_u64_roundtrip(v: u64, rest: Seq<u8>)
    ensures
        spec_read_u64(le_bytes_u64(v) + rest) == Ok::<(u64, int), DecodeError>((v, 8)),
        (le_bytes_u64(v) + rest).skip(8) == rest,
{
    let s = le_bytes_u64(v) + rest;
    assert(s[0] == v as u8 && s[1] == (v >> 8u64) as u8 && s[2] == (v >> 16u64) as u8 && s[3] == (v
        >> 24u64) as u8 && s[4] == (v >> 32u64) as u8 && s[5] == (v >> 40u64) as u8 && s[6] == (v
        >> 48u64) as u8 && s[7] == (v >> 56u64) as u8);
    assert(((v as u8) as u64) | ((((v >> 8u64) as u8) as u64) << 8u64) | ((((v >> 16u64) as u8) as u64)
        << 16u64) | ((((v >> 24u64) as u8) as u64) << 24u64) | ((((v >> 32u64) as u8) as u64) << 32u64)
        | ((((v >> 40u64) as u8) as u64) << 40u64) | ((((v >> 48u64) as u8) as u64) << 48u64)
        | ((((v >> 56u64) as u8) as u64) << 56u64) == v) by (bit_vector);
    lemma_skip_prefix(le_bytes_u64(v), rest);
}

proof fn lemma_tag_roundtrip(tag: u64, rest: Seq<u8>)
    requires
        tag < 0x80,
    ensures
        spec_encode_varint(tag) == seq![tag as u8],
        spec_decode_varint(spec_encode_varint(tag) + rest) == Ok::<(u64, int), DecodeError>((tag, 1)),
        (spec_encode_varint(tag) + rest).skip(1) == rest,
{
    lemma_varint_roundtrip(tag, rest);
    lemma_skip_prefix(spec_encode_varint(tag), rest);
}

/// A string of at most 16 KiB of UTF-8 decodes to itself, whatever follows.
pub proof fn lemma_string_roundtrip(c: Seq<char>, rest: Seq<u8>)
    requires
        encode_utf8(c).len() <= MAX_STRING_BYTES,
    ensures
        spec_read_string(spec_encode_string(c) + rest)
            == Ok::<(Seq<char>, int), DecodeError>((c, spec_encode_string(c).len() as int)),
        (spec_encode_string(c) + rest).skip(spec_encode_string(c).len() as int) == rest,
{
    broadcast use vstd::utf8::encode_utf8_decode_utf8, vstd::utf8::encode_utf8_valid_utf8;
    let b = encode_utf8(c);
    let v = spec_encode_varint(b.len() as u64);
    let s = spec_encode_string(c) + rest;
    assert(s =~= v + (b + rest));
    lemma_varint_roundtrip(b.len() as u64, b + rest);
    assert(s.subrange(v.len() as int, (v.len() + b.len()) as int) =~= b);
    assert(valid_utf8(b));
    assert(decode_utf8(b) == c);
    lemma_skip_prefix(spec_encode_string(c), rest);
}

/// Every input event decodes back to itself, consuming exactly its
/// encoding, whatever bytes follow it.
#[verifier::rlimit(30)]
pub proof fn lemma_input_event_roundtrip(e: InputEvent, rest: Seq<u8>)
    ensures
        spec_decode_input_event(spec_encode_input_event(e) + rest)
            == Ok::<(InputEvent, int), DecodeError>((e, spec_encode_input_event(e).len() as int)),
{
    let enc = spec_encode_input_event(e);
    let s = enc + rest;
    match e {
        InputEvent::KeyDown { scancode } | InputEvent::KeyUp { scancode } => {
            let tag: u64 = if e is KeyDown { 1 } else { 2 };
            assert(s =~= spec_encode_varint(tag) + (le_bytes_u16(scancode) + rest));
            lemma_tag_roundtrip(tag, le_bytes_u16(scancode) + rest);
            lemma_read_u16_roundtrip(scancode, rest);
        },
        InputEvent::PointerMove { x, y } | InputEvent::Axis { dx: x, dy: y } => {
            let tag: u64 = if e is PointerMove { 3 } else { 5 };
            assert(s =~= spec_encode_varint(tag) + (le_bytes_u64(x) + (le_bytes_u64(y) + rest)));
            lemma_tag_roundtrip(tag, le_bytes_u64(x) + (le_bytes_u64(y) + rest));
            lemma_read_u64_roundtrip(x, le_bytes_u64(y) + rest);
            lemma_read_u64_roundtrip(y, rest);
        },
        InputEvent::PointerButton { button, state } => {
            let sb = seq![button_state_byte(state)];
            assert(s =~= spec_encode_varint(4) + (le_bytes_u32(button) + (sb + rest)));
            lemma_tag_roundtrip(4, le_bytes_u32(button) + (sb + rest));
            lemma_read_u32_roundtrip(button, sb + rest);
            assert((sb + rest)[0] == button_state_byte(state));
        },
    }
}

/// The wire form of a pointer button event: tag 4, the button as a
/// little-endian `u32`, then one state byte, 0 for a press and 1 for a
/// release. A decoder reads a state byte of 0 as a press and 1 as a
/// release, whatever follows, and any other state byte is an error.
pub proof fn lemma_pointer_button_wire(button: u32, rest: Seq<u8>)
    ensures
        spec_encode_input_event(InputEvent::PointerButton { button, state: ButtonState::Pressed }) == seq![4u8]
            + le_bytes_u32(button) + seq![0u8],
        spec_encode_input_event(InputEvent::PointerButton { button, state: ButtonState::Released }) == seq![4u8]
            + le_bytes_u32(button) + seq![1u8],
        spec_decode_input_event(seq![4u8] + le_bytes_u32(button) + seq![0u8] + rest) == Ok::<
            (InputEvent, int),
            DecodeError,
        >((InputEvent::PointerButton { button, state: ButtonState::Pressed }, 6)),
        spec_decode_input_event(seq![4u8] + le_bytes_u32(button) + seq![1u8] + rest) == Ok::<
            (InputEvent, int),
            DecodeError,
        >((InputEvent::PointerButton { button, state: ButtonState::Released }, 6)),
        forall|st: u8|
            st > 1 ==> #[trigger] spec_decode_input_event(seq![4u8] + le_bytes_u32(button) + seq![st] + rest) is Err,
{
    assert(spec_encode_varint(4) == seq![4u8]);
    assert(spec_encode_input_event(InputEvent::PointerButton { button, state: ButtonState::Pressed })
        =~= seq![4u8] + le_bytes_u32(button) + seq![0u8]);
    assert(spec_encode_input_event(InputEvent::PointerButton { button, state: ButtonState::Released })
        =~= seq![4u8] + le_bytes_u32(button) + seq![1u8]);
    assert forall|st: u8| 0 <= st <= 255 implies #[trigger] spec_decode_input_event(
        seq![4u8] + le_bytes_u32(button) + seq![st] + rest,
    ) == (if st == 0 {
        Ok::<(InputEvent, int), DecodeError>((InputEvent::PointerButton { button, state: ButtonState::Pressed }, 6))
    } else if st == 1 {
        Ok::<(InputEvent, int), DecodeError>((InputEvent::PointerButton { button, state: ButtonState::Released }, 6))
    } else {
        Err::<(InputEvent, int), DecodeError>(DecodeError::UnknownInputTag(st as u64))
    }) by {
        let s = seq![4u8] + le_bytes_u32(button) + seq![st] + rest;
        let sb = seq![st];
        assert(s =~= spec_encode_varint(4) + (le_bytes_u32(button) + (sb + rest)));
        lemma_tag_roundtrip(4, le_bytes_u32(button) + (sb + rest));
        lemma_read_u32_roundtrip(button, sb + rest);
        assert((sb + rest)[0] == st);
    }
}

/// Every window event whose title is at most 16 KiB of UTF-8 decodes back
/// to itself, consuming exactly its encoding, whatever bytes follow it.
pub proof fn lemma_window_event_roundtrip(e: WindowEventKindV, rest: Seq<u8>)
    requires
        e matches WindowEventKindV::Created { title, .. } ==> encode_utf8(title).len() <= MAX_STRING_BYTES,
    ensures
        spec_decode_window_event_kind(spec_encode_window_event_kind(e) + rest)
            == Ok::<(WindowEventKindV, int), DecodeError>((e, spec_encode_window_event_kind(e).len() as int)),
{
    let enc = spec_encode_window_event_kind(e);
    let s = enc + rest;
    match e {
        WindowEventKindV::Created { width, height, title } => {
            let st = spec_encode_string(title);
            assert(s =~= spec_encode_varint(1) + (le_bytes_u32(width) + (le_bytes_u32(height) + (st + rest))));
            lemma_tag_roundtrip(1, le_bytes_u32(width) + (le_bytes_u32(height) + (st + rest)));
            lemma_read_u32_roundtrip(width, le_bytes_u32(height) + (st + rest));
            lemma_read_u32_roundtrip(height, st + rest);
            let t = s.skip(1);
            assert(t.skip(8) =~= st + rest);
            lemma_string_roundtrip(title, rest);
        },
        WindowEventKindV::Resized { width, height } => {
            assert(s =~= spec_encode_varint(3) + (le_bytes_u32(width) + (le_bytes_u32(height) + rest)));
            lemma_tag_roundtrip(3, le_bytes_u32(width) + (le_bytes_u32(height) + rest));
            lemma_read_u32_roundtrip(width, le_bytes_u32(height) + rest);
            lemma_read_u32_roundtrip(height, rest);
        },
        WindowEventKindV::Destroyed => {
            lemma_tag_roundtrip(2, rest);
        },
        WindowEventKindV::Focused => {
            lemma_tag_roundtrip(4, rest);
        },
        WindowEventKindV::Unfocused => {
            lemma_tag_roundtrip(5, rest);
        },
    }
}

} // verus!

verus! {

/// The strings a message carries are each at most 16 KiB of UTF-8.
pub open spec fn message_strings_fit(m: MessageV) -> bool {
    match m {
        MessageV::Hello { client_name, .. } => encode_utf8(client_name).len() <= MAX_STRING_BYTES,
        MessageV::WindowEvent { event: WindowEventKindV::Created { title, .. }, .. } => encode_utf8(
            title,
        ).len() <= MAX_STRING_BYTES,
        _ => true,
    }
}

proof fn lemma_payload_roundtrip(m: MessageV)
    requires
        message_strings_fit(m),
    ensures
        spec_decode_payload(spec_message_payload(m)) == Ok::<MessageV, DecodeError>(m),
{
    let p = spec_message_payload(m);
    let e = Seq::<u8>::empty();
    match m {
        MessageV::Hello { version, client_name } => {
            let st = spec_encode_string(client_name);
            assert(p =~= spec_encode_varint(1) + (le_bytes_u16(version) + (st + e)));
            lemma_tag_roundtrip(1, le_bytes_u16(version) + (st + e));
            lemma_read_u16_roundtrip(version, st + e);
            lemma_string_roundtrip(client_name, e);
        },
        MessageV::Input { window_id, event } => {
            let ev = spec_encode_input_event(event);
            assert(p =~= spec_encode_varint(2) + (le_bytes_u64(window_id) + (ev + e)));
            lemma_tag_roundtrip(2, le_bytes_u64(window_id) + (ev + e));
            lemma_read_u64_roundtrip(window_id, ev + e);
            lemma_input_event_roundtrip(event, e);
        },
        MessageV::Welcome { version, width, height } => {
            assert(p =~= spec_encode_varint(3) + (le_bytes_u16(version) + (le_bytes_u32(width) + (
            le_bytes_u32(height) + e))));
            lemma_tag_roundtrip(3, le_bytes_u16(version) + (le_bytes_u32(width) + (le_bytes_u32(height)
                + e)));
            lemma_read_u16_roundtrip(version, le_bytes_u32(width) + (le_bytes_u32(height) + e));
            lemma_read_u32_roundtrip(width, le_bytes_u32(height) + e);
            lemma_read_u32_roundtrip(height, e);
        },
        MessageV::WindowEvent { window_id, event } => {
            let ev = spec_encode_window_event_kind(event);
            assert(p =~= spec_encode_varint(4) + (le_bytes_u64(window_id) + (ev + e)));
            lemma_tag_roundtrip(4, le_bytes_u64(window_id) + (ev + e));
            lemma_read_u64_roundtrip(window_id, ev + e);
            lemma_window_event_roundtrip(event, e);
        },
        MessageV::Ping { timestamp_ns } => {
            assert(p =~= spec_encode_varint(5) + (le_bytes_u64(timestamp_ns) + e));
            lemma_tag_roundtrip(5, le_bytes_u64(timestamp_ns) + e);
            lemma_read_u64_roundtrip(timestamp_ns, e);
        },
        MessageV::Pong { timestamp_ns } => {
            assert(p =~= spec_encode_varint(6) + (le_bytes_u64(timestamp_ns) + e));
            lemma_tag_roundtrip(6, le_bytes_u64(timestamp_ns) + e);
            lemma_read_u64_roundtrip(timestamp_ns, e);
        },
        MessageV::SetFocus { window_id } => {
            assert(p =~= spec_encode_varint(7) + (le_bytes_u64(window_id) + e));
            lemma_tag_roundtrip(7, le_bytes_u64(window_id) + e);
            lemma_read_u64_roundtrip(window_id, e);
        },
        MessageV::ConfigureWindow { window_id, width, height } => {
            assert(p =~= spec_encode_varint(8) + (le_bytes_u64(window_id) + (le_bytes_u32(width) + (
            le_bytes_u32(height) + e))));
            lemma_tag_roundtrip(8, le_bytes_u64(window_id) + (le_bytes_u32(width) + (le_bytes_u32(height)
                + e)));
            lemma_read_u64_roundtrip(window_id, le_bytes_u32(width) + (le_bytes_u32(height) + e));
            lemma_read_u32_roundtrip(width, le_bytes_u32(height) + e);
            lemma_read_u32_roundtrip(height, e);
        },
        MessageV::CloseWindow { window_id } => {
            assert(p =~= spec_encode_varint(9) + (le_bytes_u64(window_id) + e));
            lemma_tag_roundtrip(9, le_bytes_u64(window_id) + e);
            lemma_read_u64_roundtrip(window_id, e);
        },
    }
}

/// Every message whose strings are at most 16 KiB of UTF-8 decodes back to
/// itself, consuming exactly its framed encoding and leaving whatever bytes
/// follow it untouched.
pub proof fn lemma_message_roundtrip(m: MessageV, rest: Seq<u8>)
    requires
        message_strings_fit(m),
        spec_message_payload(m).len() <= u64::MAX,
    ensures
        spec_decode_message(spec_encode_message(m) + rest)
            == Ok::<(MessageV, int), DecodeError>((m, spec_encode_message(m).len() as int)),
{
    let p = spec_message_payload(m);
    let v = spec_encode_varint(p.len() as u64);
    let s = spec_encode_message(m) + rest;
    assert(s =~= v + (p + rest));
    lemma_varint_roundtrip(p.len() as u64, p + rest);
    assert(s.subrange(v.len() as int, (v.len() + p.len()) as int) =~= p);
    lemma_payload_roundtrip(m);
}

/// Decoding a varint from bytes that stop inside its encoding fails.
proof fn lemma_varint_from_truncated(v: u64, shift: u64, s: Seq<u8>, i: int, acc: u64)
    requires
        shift <= 63,
        0 <= i,
        s.len() < i + spec_encode_varint(v >> shift).len(),
        forall|j: int| i <= j < s.len() ==> s[j] == spec_encode_varint(v >> shift)[j - i],
    ensures
        varint_from(s, i, shift, acc) == Err::<(u64, int), DecodeError>(DecodeError::UnexpectedEof),
    decreases 64 - shift,
{
    let w = v >> shift;
    let e = spec_encode_varint(w);
    if i < s.len() {
        assert(s[i] == e[0]);
        if w < 0x80 {
            assert(e == seq![w as u8]);
        } else {
            lemma_varint_step_more(v, shift, low_bits(v, shift));
            lemma_shr7_decreases(w);
            let e2 = spec_encode_varint(w >> 7);
            assert(e == seq![(w as u8) | 0x80u8].add(e2));
            let b = s[i];
            let acc2 = acc | (((b & 0x7f) as u64) << shift);
            assert forall|j: int| i + 1 <= j < s.len() implies s[j] == spec_encode_varint(v >> ((shift + 7) as u64))[j - (i + 1)] by {
                assert(e[j - i] == e2[j - i - 1]);
            }
            lemma_varint_from_truncated(v, (shift + 7) as u64, s, i + 1, acc2);
        }
    }
}

/// Truncation safety: every proper prefix of an encoded message fails to
/// decode, as an unexpected end of input.
pub proof fn lemma_message_prefix_fails(m: MessageV, k: int)
    requires
        message_strings_fit(m),
        spec_message_payload(m).len() <= u64::MAX,
        0 <= k < spec_encode_message(m).len(),
    ensures
        spec_decode_message(spec_encode_message(m).take(k)) == Err::<(MessageV, int), DecodeError>(
            DecodeError::UnexpectedEof,
        ),
        match spec_decode_varint(spec_encode_message(m).take(k)) {
            Err(e) => e == DecodeError::UnexpectedEof,
            Ok((len, n)) => len == spec_message_payload(m).len() && k - n < len,
        },
{
    let p = spec_message_payload(m);
    let v = spec_encode_varint(p.len() as u64);
    let q = spec_encode_message(m).take(k);
    if k < v.len() {
        let n = p.len() as u64;
        assert(n >> 0u64 == n) by (bit_vector);
        assert forall|j: int| 0 <= j < q.len() implies q[j] == spec_encode_varint((p.len() as u64) >> 0u64)[j - 0] by {
            assert(q[j] == v[j]);
        }
        lemma_varint_from_truncated(p.len() as u64, 0, q, 0, 0);
    } else {
        let tail = p.take(k - v.len());
        assert(q =~= v + tail);
        lemma_varint_roundtrip(p.len() as u64, tail);
    }
}

proof fn lemma_le_u32_of(v: u32, t: Seq<u8>)
    requires
        t.len() >= 4,
        t.subrange(0, 4) == le_bytes_u32(v),
    ensures
        le_u32(t) == v,
{
    lemma_read_u32_roundtrip(v, t.skip(4));
    assert(t =~= le_bytes_u32(v) + t.skip(4));
}

proof fn lemma_le_u64_of(v: u64, t: Seq<u8>)
    requires
        t.len() >= 8,
        t.subrange(0, 8) == le_bytes_u64(v),
    ensures
        le_u64(t) == v,
{
    lemma_read_u64_roundtrip(v, t.skip(8));
    assert(t =~= le_bytes_u64(v) + t.skip(8));
}

/// A frame header decodes back to itself when it passes validation, and
/// otherwise to the first validation error, whatever bytes follow it.
#[verifier::rlimit(80)]
pub proof fn lemma_frame_header_roundtrip(h: FrameHeader, rest: Seq<u8>)
    ensures
        spec_decode_frame_header(spec_encode_frame_header(h) + rest) == match frame_header_check(h) {
            Ok(_) => Ok::<(FrameHeader, int), DecodeError>((h, 54)),
            Err(e) => Err(e),
        },
{
    let enc = spec_encode_frame_header(h);
    let s = enc + rest;
    assert(enc.len() == 54);
    assert(s.len() == 54 + rest.len());
    assert(le_u32(s) == h.magic) by {
        assert(s.subrange(0, 4) =~= le_bytes_u32(h.magic));
        lemma_le_u32_of(h.magic, s);
    }
    assert(le_u64(s.skip(4)) == h.frame_id) by {
        assert(s.skip(4).subrange(0, 8) =~= le_bytes_u64(h.frame_id));
        lemma_le_u64_of(h.frame_id, s.skip(4));
    }
    assert(le_u64(s.skip(12)) == h.window_id) by {
        assert(s.skip(12).subrange(0, 8) =~= le_bytes_u64(h.window_id));
        lemma_le_u64_of(h.window_id, s.skip(12));
    }
    assert(le_u32(s.skip(20)) == h.width) by {
        assert(s.skip(20).subrange(0, 4) =~= le_bytes_u32(h.width));
        lemma_le_u32_of(h.width, s.skip(20));
    }
    assert(le_u32(s.skip(24)) == h.height) by {
        assert(s.skip(24).subrange(0, 4) =~= le_bytes_u32(h.height));
        lemma_le_u32_of(h.height, s.skip(24));
    }
    assert(le_u32(s.skip(28)) == h.stride) by {
        assert(s.skip(28).subrange(0, 4) =~= le_bytes_u32(h.stride));
        lemma_le_u32_of(h.stride, s.skip(28));
    }
    assert(s[32] == h.format);
    assert(s[33] == h.compression);
    assert(le_u32(s.skip(34)) == h._reserved) by {
        assert(s.skip(34).subrange(0, 4) =~= le_bytes_u32(h._reserved));
        lemma_le_u32_of(h._reserved, s.skip(34));
    }
    assert(le_u64(s.skip(38)) == h.timestamp_ns) by {
        assert(s.skip(38).subrange(0, 8) =~= le_bytes_u64(h.timestamp_ns));
        lemma_le_u64_of(h.timestamp_ns, s.skip(38));
    }
    assert(le_u64(s.skip(46)) == h.compressed_size) by {
        assert(s.skip(46).subrange(0, 8) =~= le_bytes_u64(h.compressed_size));
        lemma_le_u64_of(h.compressed_size, s.skip(46));
    }
}

} // verus!
