//! Byte buffers of the `bytes` crate, seen as sequences of bytes.
use bytes::{Buf, BufMut, Bytes, BytesMut};
use vstd::prelude::*;

verus! {

/// The immutable, cheaply cloned buffer of the `bytes` crate.
#[verifier::external_type_specification]
#[verifier::external_body]
pub struct ExBytes(Bytes);

/// The growable buffer of the `bytes` crate.
#[verifier::external_type_specification]
#[verifier::external_body]
pub struct ExBytesMut(BytesMut);

/// The bytes that a [`Bytes`] still holds, in order.
pub uninterp spec fn bytes_seq(b: Bytes) -> Seq<u8>;

/// The bytes that a [`BytesMut`] holds, in order.
pub uninterp spec fn bytes_mut_seq(b: BytesMut) -> Seq<u8>;

/// The number whose big-endian bytes are `hi` and `lo`.
pub open spec fn be16(hi: u8, lo: u8) -> int {
    hi * 256 + lo
}

/// The two big-endian bytes of a port or a length.
pub open spec fn be16_bytes(n: u16) -> Seq<u8> {
    seq![(n / 256) as u8, (n % 256) as u8]
}

/// `Bytes::len`: the number of bytes held.
pub assume_specification[ Bytes::len ](b: &Bytes) -> (n: usize)
    ensures
        n == bytes_seq(*b).len(),
;

/// `Bytes::new`: a buffer that holds nothing.
pub assume_specification[ Bytes::new ]() -> (b: Bytes)
    ensures
        bytes_seq(b) == Seq::<u8>::empty(),
;

/// `Bytes::copy_from_slice`: a buffer that holds a copy of `data`.
pub assume_specification[ Bytes::copy_from_slice ](data: &[u8]) -> (b: Bytes)
    ensures
        bytes_seq(b) == data@,
;

/// `Bytes::clone`: a second handle on the same bytes.
pub assume_specification[ <Bytes as Clone>::clone ](b: &Bytes) -> (r: Bytes)
    ensures
        bytes_seq(r) == bytes_seq(*b),
;

/// `Bytes::split_to`, reached as `Buf::copy_to_bytes`: takes the first `n`
/// bytes out of the buffer and leaves the rest.
pub assume_specification[ Bytes::split_to ](b: &mut Bytes, n: usize) -> (head: Bytes)
    requires
        n <= bytes_seq(*old(b)).len(),
    ensures
        bytes_seq(head) == bytes_seq(*old(b)).subrange(0, n as int),
        bytes_seq(*final(b)) == bytes_seq(*old(b)).skip(n as int),
;

/// `Buf::get_u8` on a [`Bytes`]: takes the first byte off.
#[verifier::external_body]
pub(crate) fn get_u8(b: &mut Bytes) -> (v: u8)
    requires
        bytes_seq(*old(b)).len() >= 1,
    ensures
        v == bytes_seq(*old(b))[0],
        bytes_seq(*final(b)) == bytes_seq(*old(b)).skip(1),
{
    b.get_u8()
}

/// `Buf::get_u16` on a [`Bytes`]: takes two bytes off, the high one first.
#[verifier::external_body]
pub(crate) fn get_u16(b: &mut Bytes) -> (v: u16)
    requires
        bytes_seq(*old(b)).len() >= 2,
    ensures
        v == be16(bytes_seq(*old(b))[0], bytes_seq(*old(b))[1]),
        bytes_seq(*final(b)) == bytes_seq(*old(b)).skip(2),
{
    b.get_u16()
}

/// `Buf::copy_to_slice` on a [`Bytes`]: takes the first `N` bytes off into an
/// array.
#[verifier::external_body]
pub(crate) fn get_array<const N: usize>(b: &mut Bytes) -> (a: [u8; N])
    requires
        bytes_seq(*old(b)).len() >= N,
    ensures
        a@ == bytes_seq(*old(b)).subrange(0, N as int),
        bytes_seq(*final(b)) == bytes_seq(*old(b)).skip(N as int),
{
    let mut a = [0u8; N];
    b.copy_to_slice(&mut a);
    a
}

/// `Buf::advance` on a [`Bytes`]: drops the first `n` bytes.
#[verifier::external_body]
pub(crate) fn advance(b: &mut Bytes, n: usize)
    requires
        n <= bytes_seq(*old(b)).len(),
    ensures
        bytes_seq(*final(b)) == bytes_seq(*old(b)).skip(n as int),
{
    b.advance(n)
}

/// `Bytes::as_ref`: the bytes held, as a slice.
#[verifier::external_body]
pub(crate) fn as_slice(b: &Bytes) -> (s: &[u8])
    ensures
        s@ == bytes_seq(*b),
{
    b.as_ref()
}

/// `Bytes::slice`: a handle on the bytes from `start` up to `end`.
#[verifier::external_body]
pub(crate) fn slice(b: &Bytes, start: usize, end: usize) -> (r: Bytes)
    requires
        start <= end <= bytes_seq(*b).len(),
    ensures
        bytes_seq(r) == bytes_seq(*b).subrange(start as int, end as int),
{
    b.slice(start..end)
}

/// `Bytes::from` on a vector: takes the vector's bytes over.
#[verifier::external_body]
pub(crate) fn from_vec(v: Vec<u8>) -> (b: Bytes)
    ensures
        bytes_seq(b) == v@,
{
    Bytes::from(v)
}

/// `BytesMut::with_capacity`: an empty buffer. The capacity asked for must be
/// one that a vector can have.
pub assume_specification[ BytesMut::with_capacity ](capacity: usize) -> (b: BytesMut)
    requires
        capacity <= isize::MAX,
    ensures
        bytes_mut_seq(b) == Seq::<u8>::empty(),
;

/// `BytesMut::len`: the number of bytes held.
pub assume_specification[ BytesMut::len ](b: &BytesMut) -> (n: usize)
    ensures
        n == bytes_mut_seq(*b).len(),
;

/// `BytesMut::capacity`: how many bytes fit before the buffer grows. The
/// allocator decides it, so nothing is stated of it but that the bytes held fit.
pub assume_specification[ BytesMut::capacity ](b: &BytesMut) -> (n: usize)
    ensures
        bytes_mut_seq(*b).len() <= n,
;

/// `BytesMut::clear`: drops every byte.
pub assume_specification[ BytesMut::clear ](b: &mut BytesMut)
    ensures
        bytes_mut_seq(*final(b)) == Seq::<u8>::empty(),
;

/// `BytesMut::reserve`: makes room for `additional` more bytes and keeps those
/// that are there.
pub assume_specification[ BytesMut::reserve ](b: &mut BytesMut, additional: usize)
    requires
        bytes_mut_seq(*old(b)).len() + additional <= isize::MAX,
    ensures
        bytes_mut_seq(*final(b)) == bytes_mut_seq(*old(b)),
;

/// `BytesMut::split`: hands all bytes out and leaves the buffer empty.
pub assume_specification[ BytesMut::split ](b: &mut BytesMut) -> (r: BytesMut)
    ensures
        bytes_mut_seq(r) == bytes_mut_seq(*old(b)),
        bytes_mut_seq(*final(b)) == Seq::<u8>::empty(),
;

/// `BytesMut::freeze`: the same bytes, no longer growable.
pub assume_specification[ BytesMut::freeze ](b: BytesMut) -> (r: Bytes)
    ensures
        bytes_seq(r) == bytes_mut_seq(b),
;

/// `BytesMut::extend_from_slice`, reached as `BufMut::put_slice`: appends
/// `data`.
pub assume_specification[ BytesMut::extend_from_slice ](b: &mut BytesMut, data: &[u8])
    requires
        bytes_mut_seq(*old(b)).len() + data@.len() <= isize::MAX,
    ensures
        bytes_mut_seq(*final(b)) == bytes_mut_seq(*old(b)) + data@,
;

/// `BufMut::put_u8` on a [`BytesMut`]: appends one byte.
#[verifier::external_body]
pub(crate) fn put_u8(b: &mut BytesMut, v: u8)
    requires
        bytes_mut_seq(*old(b)).len() < isize::MAX,
    ensures
        bytes_mut_seq(*final(b)) == bytes_mut_seq(*old(b)).push(v),
{
    b.put_u8(v)
}

/// `BufMut::put_u16` on a [`BytesMut`]: appends two bytes, the high one first.
#[verifier::external_body]
pub(crate) fn put_u16(b: &mut BytesMut, v: u16)
    requires
        bytes_mut_seq(*old(b)).len() + 2 <= isize::MAX,
    ensures
        bytes_mut_seq(*final(b)) == bytes_mut_seq(*old(b)) + be16_bytes(v),
{
    b.put_u16(v)
}

} // verus!
