//! Big-endian integer layout shared by the raw TCP streaming formats
//! (frame headers and input events).

use vstd::prelude::*;

verus! {

/// The big-endian `u32` held in the first four bytes of `s`.
pub open spec fn be_u32(s: Seq<u8>) -> u32 {
    ((s[0] as u32) << 24u32) | ((s[1] as u32) << 16u32) | ((s[2] as u32) << 8u32) | (s[3] as u32)
}

/// The big-endian `u64` held in the first eight bytes of `s`.
pub open spec fn be_u64(s: Seq<u8>) -> u64 {
    ((s[0] as u64) << 56u64) | ((s[1] as u64) << 48u64) | ((s[2] as u64) << 40u64) | ((s[3] as u64)
        << 32u64) | ((s[4] as u64) << 24u64) | ((s[5] as u64) << 16u64) | ((s[6] as u64) << 8u64)
        | (s[7] as u64)
}

/// The four big-endian bytes of `v` (`u32::to_be_bytes`).
pub open spec fn be_bytes_u32(v: u32) -> Seq<u8> {
    seq![(v >> 24u32) as u8, (v >> 16u32) as u8, (v >> 8u32) as u8, v as u8]
}

/// The eight big-endian bytes of `v` (`u64::to_be_bytes`).
pub open spec fn be_bytes_u64(v: u64) -> Seq<u8> {
    seq![
        (v >> 56u64) as u8,
        (v >> 48u64) as u8,
        (v >> 40u64) as u8,
        (v >> 32u64) as u8,
        (v >> 24u64) as u8,
        (v >> 16u64) as u8,
        (v >> 8u64) as u8,
        v as u8,
    ]
}

/// Reading back the big-endian bytes of a `u32` gives the value, whatever follows.
pub proof fn lemma_be_u32_roundtrip(v: u32, rest: Seq<u8>)
    ensures
        be_u32(be_bytes_u32(v) + rest) == v,
        (be_bytes_u32(v) + rest).len() == rest.len() + 4,
        (be_bytes_u32(v) + rest).skip(4) == rest,
{
    let s = be_bytes_u32(v) + rest;
    assert(s[0] == (v >> 24u32) as u8 && s[1] == (v >> 16u32) as u8 && s[2] == (v >> 8u32) as u8
        && s[3] == v as u8);
    assert((((((v >> 24u32) as u8) as u32) << 24u32) | ((((v >> 16u32) as u8) as u32) << 16u32)
        | ((((v >> 8u32) as u8) as u32) << 8u32) | ((v as u8) as u32)) == v) by (bit_vector);
    assert(s.skip(4) =~= rest);
}

/// Reading back the big-endian bytes of a `u64` gives the value, whatever follows.
pub proof fn lemma_be_u64_roundtrip(v: u64, rest: Seq<u8>)
    ensures
        be_u64(be_bytes_u64(v) + rest) == v,
        (be_bytes_u64(v) + rest).len() == rest.len() + 8,
        (be_bytes_u64(v) + rest).skip(8) == rest,
{
    let s = be_bytes_u64(v) + rest;
    assert(s[0] == (v >> 56u64) as u8 && s[1] == (v >> 48u64) as u8 && s[2] == (v >> 40u64) as u8
        && s[3] == (v >> 32u64) as u8 && s[4] == (v >> 24u64) as u8 && s[5] == (v >> 16u64) as u8
        && s[6] == (v >> 8u64) as u8 && s[7] == v as u8);
    assert((((((v >> 56u64) as u8) as u64) << 56u64) | ((((v >> 48u64) as u8) as u64) << 48u64)
        | ((((v >> 40u64) as u8) as u64) << 40u64) | ((((v >> 32u64) as u8) as u64) << 32u64)
        | ((((v >> 24u64) as u8) as u64) << 24u64) | ((((v >> 16u64) as u8) as u64) << 16u64)
        | ((((v >> 8u64) as u8) as u64) << 8u64) | ((v as u8) as u64)) == v) by (bit_vector);
    assert(s.skip(8) =~= rest);
}

/// A two's-complement round trip through `u32`.
pub proof fn lemma_i32_bits(v: i32)
    ensures
        ((v as u32) as i32) == v,
{
    assert(((v as u32) as i32) == v) by (bit_vector);
}

/// Read the big-endian `u32` at `at`.
pub fn read_be_u32(s: &[u8], at: usize) -> (r: u32)
    requires
        at + 4 <= s@.len(),
    ensures
        r == be_u32(s@.skip(at as int)),
{
    ((s[at] as u32) << 24) | ((s[at + 1] as u32) << 16) | ((s[at + 2] as u32) << 8) | (s[at + 3] as u32)
}

/// Read the big-endian `u64` at `at`.
pub fn read_be_u64(s: &[u8], at: usize) -> (r: u64)
    requires
        at + 8 <= s@.len(),
    ensures
        r == be_u64(s@.skip(at as int)),
{
    ((s[at] as u64) << 56) | ((s[at + 1] as u64) << 48) | ((s[at + 2] as u64) << 40) | ((s[at
        + 3] as u64) << 32) | ((s[at + 4] as u64) << 24) | ((s[at + 5] as u64) << 16) | ((s[at
        + 6] as u64) << 8) | (s[at + 7] as u64)
}

/// Append the big-endian bytes of `v`.
pub fn push_be_u32(v: u32, w: &mut Vec<u8>)
    ensures
        final(w)@ == old(w)@ + be_bytes_u32(v),
{
    w.push((v >> 24) as u8);
    w.push((v >> 16) as u8);
    w.push((v >> 8) as u8);
    w.push(v as u8);
    assert(w@ =~= old(w)@ + be_bytes_u32(v));
}

/// Append the big-endian bytes of `v`.
pub fn push_be_u64(v: u64, w: &mut Vec<u8>)
    ensures
        final(w)@ == old(w)@ + be_bytes_u64(v),
{
    w.push((v >> 56) as u8);
    w.push((v >> 48) as u8);
    w.push((v >> 40) as u8);
    w.push((v >> 32) as u8);
    w.push((v >> 24) as u8);
    w.push((v >> 16) as u8);
    w.push((v >> 8) as u8);
    w.push(v as u8);
    assert(w@ =~= old(w)@ + be_bytes_u64(v));
}

} // verus!
