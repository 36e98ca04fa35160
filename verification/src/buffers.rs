//! Byte buffers of the `bytes` crate, as the protocol code sees them.
//!
//! `Bytes` and `BytesMut` are opaque to Verus; their contents are named by
//! `bytes_view` and `bytes_mut_view`, and every method the protocol code calls
//! goes through one of the functions below, whose contract states what the
//! method does to those contents.
use bytes::{Buf, BufMut, Bytes, BytesMut};
use vstd::prelude::*;

verus! {

#[verifier::external_type_specification]
#[verifier::external_body]
pub struct ExBytes(bytes::Bytes);

#[verifier::external_type_specification]
#[verifier::external_body]
pub struct ExBytesMut(bytes::BytesMut);

/// The bytes held by a `Bytes` handle, from its read position to its end.
pub uninterp spec fn bytes_view(b: Bytes) -> Seq<u8>;

/// The bytes held by a `BytesMut` buffer.
pub uninterp spec fn bytes_mut_view(b: BytesMut) -> Seq<u8>;

/// The big-endian value of the two bytes at `i` and `i + 1`.
pub open spec fn be_u16_at(s: Seq<u8>, i: int) -> int {
    s[i] * 256 + s[i + 1]
}

/// The two bytes of `x` in big-endian order.
pub open spec fn be_u16_bytes(x: u16) -> Seq<u8> {
    seq![(x / 256) as u8, (x % 256) as u8]
}

/// `Bytes::clone`: another handle on the same bytes.
pub assume_specification[ <bytes::Bytes as Clone>::clone ](b: &Bytes) -> (r: Bytes)
    ensures
        bytes_view(r) == bytes_view(*b),
;

/// `Bytes::len`: the number of bytes the handle holds.
#[verifier::external_body]
pub(crate) fn bytes_len(b: &Bytes) -> (r: usize)
    ensures
        r == bytes_view(*b).len(),
{
    b.len()
}

/// `Bytes` as a slice (its `Deref` impl): the slice holds exactly the bytes of the handle.
#[verifier::external_body]
pub(crate) fn bytes_as_slice(b: &Bytes) -> (r: &[u8])
    ensures
        r@ == bytes_view(*b),
{
    b
}

/// `Buf::get_u8` on `Bytes`: returns the first byte and advances past it.
/// The method panics on an empty handle, which `requires` leaves out.
#[verifier::external_body]
pub(crate) fn bytes_get_u8(b: &mut Bytes) -> (r: u8)
    requires
        bytes_view(*old(b)).len() >= 1,
    ensures
        r == bytes_view(*old(b))[0],
        bytes_view(*final(b)) == bytes_view(*old(b)).skip(1),
{
    b.get_u8()
}

/// `Buf::get_u16` on `Bytes`: reads the first two bytes as a big-endian `u16`
/// and advances past them. It panics with fewer than two bytes, which `requires`
/// leaves out.
#[verifier::external_body]
pub(crate) fn bytes_get_u16(b: &mut Bytes) -> (r: u16)
    requires
        bytes_view(*old(b)).len() >= 2,
    ensures
        r == be_u16_at(bytes_view(*old(b)), 0),
        bytes_view(*final(b)) == bytes_view(*old(b)).skip(2),
{
    b.get_u16()
}

/// `Buf::copy_to_bytes` on `Bytes` (which is `Bytes::split_to`): returns the first
/// `len` bytes and advances past them. It panics when `len` exceeds the length,
/// which `requires` leaves out.
#[verifier::external_body]
pub(crate) fn bytes_copy_to_bytes(b: &mut Bytes, len: usize) -> (r: Bytes)
    requires
        len <= bytes_view(*old(b)).len(),
    ensures
        bytes_view(r) == bytes_view(*old(b)).take(len as int),
        bytes_view(*final(b)) == bytes_view(*old(b)).skip(len as int),
{
    b.copy_to_bytes(len)
}

/// `Buf::copy_to_slice` on `Bytes` into a six-byte array: fills the array with the
/// first six bytes and advances past them. It panics with fewer than six bytes,
/// which `requires` leaves out.
#[verifier::external_body]
pub(crate) fn bytes_copy_to_slice(b: &mut Bytes, dst: &mut [u8; 6])
    requires
        bytes_view(*old(b)).len() >= 6,
    ensures
        final(dst)@ == bytes_view(*old(b)).take(6),
        bytes_view(*final(b)) == bytes_view(*old(b)).skip(6),
{
    b.copy_to_slice(dst)
}

/// `BytesMut::with_capacity`: an empty buffer. The underlying `Vec::with_capacity`
/// panics above `isize::MAX` bytes, which `requires` leaves out.
#[verifier::external_body]
pub(crate) fn bytes_mut_with_capacity(capacity: usize) -> (r: BytesMut)
    requires
        capacity <= isize::MAX,
    ensures
        bytes_mut_view(r) == Seq::<u8>::empty(),
{
    BytesMut::with_capacity(capacity)
}

/// `BufMut::put_u8` on `BytesMut`: appends one byte. The buffer accepts at most
/// `isize::MAX` bytes (`remaining_mut`); past that it panics, which `requires` leaves out.
#[verifier::external_body]
pub(crate) fn bytes_mut_put_u8(b: &mut BytesMut, n: u8)
    requires
        bytes_mut_view(*old(b)).len() + 1 <= isize::MAX,
    ensures
        bytes_mut_view(*final(b)) == bytes_mut_view(*old(b)).push(n),
{
    b.put_u8(n)
}

/// `BufMut::put_u16` on `BytesMut`: appends the two bytes of `n` in big-endian
/// order. Past `isize::MAX` bytes it panics, which `requires` leaves out.
#[verifier::external_body]
pub(crate) fn bytes_mut_put_u16(b: &mut BytesMut, n: u16)
    requires
        bytes_mut_view(*old(b)).len() + 2 <= isize::MAX,
    ensures
        bytes_mut_view(*final(b)) == bytes_mut_view(*old(b)) + be_u16_bytes(n),
{
    b.put_u16(n)
}

/// `BufMut::put_slice` on `BytesMut`: appends the bytes of `src`. Past `isize::MAX`
/// bytes it panics, which `requires` leaves out.
#[verifier::external_body]
pub(crate) fn bytes_mut_put_slice(b: &mut BytesMut, src: &[u8])
    requires
        bytes_mut_view(*old(b)).len() + src@.len() <= isize::MAX,
    ensures
        bytes_mut_view(*final(b)) == bytes_mut_view(*old(b)) + src@,
{
    b.put_slice(src)
}

/// `BytesMut::freeze`: a `Bytes` handle holding the same bytes.
#[verifier::external_body]
pub(crate) fn bytes_mut_freeze(b: BytesMut) -> (r: Bytes)
    ensures
        bytes_view(r) == bytes_mut_view(b),
{
    b.freeze()
}

/// `BytesMut::split_to`: returns the first `at` bytes and keeps the rest. It
/// panics when `at` exceeds the length, which `requires` leaves out.
#[verifier::external_body]
pub(crate) fn bytes_mut_split_to(b: &mut BytesMut, at: usize) -> (r: BytesMut)
    requires
        at <= bytes_mut_view(*old(b)).len(),
    ensures
        bytes_mut_view(r) == bytes_mut_view(*old(b)).take(at as int),
        bytes_mut_view(*final(b)) == bytes_mut_view(*old(b)).skip(at as int),
{
    b.split_to(at)
}

/// `BytesMut` as a slice (its `Deref` impl): the slice holds exactly the bytes of the buffer.
#[verifier::external_body]
pub(crate) fn bytes_mut_as_slice(b: &BytesMut) -> (r: &[u8])
    ensures
        r@ == bytes_mut_view(*b),
{
    b
}

} // verus!
