//! The `bytes::BytesMut` buffer used by the raw TCP streaming formats, with
//! the operations the codecs make on it.

use vstd::prelude::*;

use bytes::{Buf, BufMut, BytesMut};

use crate::wire::{be_bytes_u32, be_bytes_u64, be_u32};

verus! {

#[verifier::external_type_specification]
#[verifier::external_body]
pub struct ExBytesMut(bytes::BytesMut);

/// The bytes a `BytesMut` currently holds, from its read position to its end.
pub uninterp spec fn bytes_of(b: BytesMut) -> Seq<u8>;

/// Largest length a `BytesMut` can grow to without its allocation panicking.
pub open spec fn fits_in_buffer(n: nat) -> bool {
    n <= isize::MAX
}

/// `BytesMut::with_capacity`: an empty buffer. `Vec::with_capacity` panics
/// above `isize::MAX` bytes, hence the bound.
#[verifier::external_body]
pub(crate) fn buf_with_capacity(capacity: usize) -> (b: BytesMut)
    requires
        fits_in_buffer(capacity as nat),
    ensures
        bytes_of(b) == Seq::<u8>::empty(),
{
    BytesMut::with_capacity(capacity)
}

/// `BytesMut::from(&[u8])`: a buffer holding a copy of `s`.
#[verifier::external_body]
pub(crate) fn buf_from_slice(s: &[u8]) -> (b: BytesMut)
    ensures
        bytes_of(b) == s@,
{
    BytesMut::from(s)
}

/// `BytesMut::len`: the number of bytes held.
#[verifier::external_body]
pub(crate) fn buf_len(b: &BytesMut) -> (n: usize)
    ensures
        n == bytes_of(*b).len(),
{
    b.len()
}

/// `BufMut::put_u8`: appends one byte. Growing past `isize::MAX` bytes
/// panics, hence the bound.
#[verifier::external_body]
pub(crate) fn buf_put_u8(b: &mut BytesMut, v: u8)
    requires
        fits_in_buffer(bytes_of(*old(b)).len() + 1),
    ensures
        bytes_of(*final(b)) == bytes_of(*old(b)).push(v),
{
    b.put_u8(v)
}

/// `BufMut::put_u32`: appends `v` in big-endian order.
#[verifier::external_body]
pub(crate) fn buf_put_u32(b: &mut BytesMut, v: u32)
    requires
        fits_in_buffer(bytes_of(*old(b)).len() + 4),
    ensures
        bytes_of(*final(b)) == bytes_of(*old(b)) + be_bytes_u32(v),
{
    b.put_u32(v)
}

/// `BufMut::put_i32`: appends the two's-complement bits of `v` in
/// big-endian order.
#[verifier::external_body]
pub(crate) fn buf_put_i32(b: &mut BytesMut, v: i32)
    requires
        fits_in_buffer(bytes_of(*old(b)).len() + 4),
    ensures
        bytes_of(*final(b)) == bytes_of(*old(b)) + be_bytes_u32(v as u32),
{
    b.put_i32(v)
}

/// `BufMut::put_u64`: appends `v` in big-endian order.
#[verifier::external_body]
pub(crate) fn buf_put_u64(b: &mut BytesMut, v: u64)
    requires
        fits_in_buffer(bytes_of(*old(b)).len() + 8),
    ensures
        bytes_of(*final(b)) == bytes_of(*old(b)) + be_bytes_u64(v),
{
    b.put_u64(v)
}

/// `BufMut::put_slice`: appends the bytes of `s`.
#[verifier::external_body]
pub(crate) fn buf_put_slice(b: &mut BytesMut, s: &[u8])
    requires
        fits_in_buffer(bytes_of(*old(b)).len() + s@.len()),
    ensures
        bytes_of(*final(b)) == bytes_of(*old(b)) + s@,
{
    b.put_slice(s)
}

/// `Buf::get_u8`: takes the first byte. Panics on an empty buffer, hence
/// the bound.
#[verifier::external_body]
pub(crate) fn buf_get_u8(b: &mut BytesMut) -> (v: u8)
    requires
        bytes_of(*old(b)).len() >= 1,
    ensures
        v == bytes_of(*old(b))[0],
        bytes_of(*final(b)) == bytes_of(*old(b)).skip(1),
{
    b.get_u8()
}

/// `Buf::get_u32`: takes the first four bytes as a big-endian `u32`.
/// Panics on fewer than four bytes, hence the bound.
#[verifier::external_body]
pub(crate) fn buf_get_u32(b: &mut BytesMut) -> (v: u32)
    requires
        bytes_of(*old(b)).len() >= 4,
    ensures
        v == be_u32(bytes_of(*old(b))),
        bytes_of(*final(b)) == bytes_of(*old(b)).skip(4),
{
    b.get_u32()
}

/// `Buf::get_i32`: takes the first four bytes as a big-endian
/// two's-complement `i32`. Panics on fewer than four bytes, hence the bound.
#[verifier::external_body]
pub(crate) fn buf_get_i32(b: &mut BytesMut) -> (v: i32)
    requires
        bytes_of(*old(b)).len() >= 4,
    ensures
        v == be_u32(bytes_of(*old(b))) as i32,
        bytes_of(*final(b)) == bytes_of(*old(b)).skip(4),
{
    b.get_i32()
}

} // verus!
