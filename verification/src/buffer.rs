//! The byte containers of the `bytes` crate, as far as this crate uses
//! them. Nothing here is proved: each contract restates what the source of
//! `bytes` shows of the function it names.
use bytes::{Buf, BufMut, Bytes, BytesMut};
use vstd::prelude::*;

verus! {

/// `bytes::Bytes`: an immutable byte string.
#[verifier::external_type_specification]
#[verifier::external_body]
pub struct ExBytes(bytes::Bytes);

/// `bytes::BytesMut`: a growable byte buffer that is read from the front.
#[verifier::external_type_specification]
#[verifier::external_body]
pub struct ExBytesMut(bytes::BytesMut);

/// The bytes that a `Bytes` holds, first to last.
pub uninterp spec fn bytes_contents(b: Bytes) -> Seq<u8>;

/// The bytes that a `BytesMut` holds and has not yet given out, first to
/// last.
pub uninterp spec fn bytes_mut_contents(b: BytesMut) -> Seq<u8>;

/// `Bytes::len` is the number of bytes held.
pub assume_specification[ Bytes::len ](b: &Bytes) -> (n: usize)
    ensures
        n == bytes_contents(*b).len(),
;

/// `Bytes::from(Vec<u8>)` takes over the vector's bytes unchanged.
#[verifier::external_body]
pub(crate) fn bytes_from_vec(v: Vec<u8>) -> (b: Bytes)
    ensures
        bytes_contents(b) == v@,
{
    Bytes::from(v)
}

/// `Bytes::as_ref` lends the bytes held as a slice.
#[verifier::external_body]
pub(crate) fn bytes_as_slice(b: &Bytes) -> (s: &[u8])
    ensures
        s@ == bytes_contents(*b),
{
    b.as_ref()
}

/// `Bytes::clone` gives a second handle on the same bytes.
#[verifier::external_body]
pub(crate) fn bytes_clone(b: &Bytes) -> (c: Bytes)
    ensures
        bytes_contents(c) == bytes_contents(*b),
{
    b.clone()
}

/// `BytesMut::new` is an empty buffer.
pub assume_specification[ BytesMut::new ]() -> (b: BytesMut)
    ensures
        bytes_mut_contents(b) == Seq::<u8>::empty(),
;

/// `BytesMut::clear` drops every byte held.
pub assume_specification[ BytesMut::clear ](b: &mut BytesMut)
    ensures
        bytes_mut_contents(*final(b)) == Seq::<u8>::empty(),
;

/// `Buf::remaining` on a `BytesMut` is the number of bytes held.
#[verifier::external_body]
pub(crate) fn bytes_mut_remaining(b: &BytesMut) -> (n: usize)
    ensures
        n == bytes_mut_contents(*b).len(),
{
    b.remaining()
}

/// `Buf::has_remaining` on a `BytesMut` tells whether any byte is held.
#[verifier::external_body]
pub(crate) fn bytes_mut_has_remaining(b: &BytesMut) -> (some: bool)
    ensures
        some == (bytes_mut_contents(*b).len() > 0),
{
    b.has_remaining()
}

/// `Buf::advance` on a `BytesMut` drops the first `cnt` bytes. It panics
/// when fewer are held, which the precondition rules out.
#[verifier::external_body]
pub(crate) fn bytes_mut_advance(b: &mut BytesMut, cnt: usize)
    requires
        cnt <= bytes_mut_contents(*old(b)).len(),
    ensures
        bytes_mut_contents(*final(b)) == bytes_mut_contents(*old(b)).skip(cnt as int),
{
    b.advance(cnt)
}

/// `BufMut::put_slice` on a `BytesMut` appends `src`. It panics when the
/// new length is more than an allocation can hold, which the precondition
/// rules out.
#[verifier::external_body]
pub(crate) fn bytes_mut_put_slice(b: &mut BytesMut, src: &[u8])
    requires
        bytes_mut_contents(*old(b)).len() + src@.len() <= isize::MAX,
    ensures
        bytes_mut_contents(*final(b)) == bytes_mut_contents(*old(b)) + src@,
{
    b.put_slice(src)
}

/// `BytesMut::as_ref` lends the bytes held as a slice.
#[verifier::external_body]
pub(crate) fn bytes_mut_as_slice(b: &BytesMut) -> (s: &[u8])
    ensures
        s@ == bytes_mut_contents(*b),
{
    b.as_ref()
}

/// `BufMut::put_u8` on a `Vec<u8>` appends one byte.
#[verifier::external_body]
pub(crate) fn put_u8(out: &mut Vec<u8>, n: u8)
    ensures
        final(out)@ == old(out)@.push(n),
{
    out.put_u8(n)
}

/// `BufMut::put_u16` on a `Vec<u8>` appends the two bytes of `n`, the high
/// byte first.
#[verifier::external_body]
pub(crate) fn put_u16(out: &mut Vec<u8>, n: u16)
    ensures
        final(out)@ == old(out)@ + seq![(n / 256) as u8, (n % 256) as u8],
{
    out.put_u16(n)
}

/// `BufMut::put_slice` on a `Vec<u8>` appends `src`.
#[verifier::external_body]
pub(crate) fn put_slice(out: &mut Vec<u8>, src: &[u8])
    ensures
        final(out)@ == old(out)@ + src@,
{
    out.put_slice(src)
}

} // verus!
