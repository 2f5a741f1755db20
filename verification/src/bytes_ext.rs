//! What this crate relies on of the `bytes` containers.

use bytes::{Buf, BufMut, Bytes, BytesMut};
use vstd::prelude::*;

use crate::stream_id::be32_bytes;

verus! {

/// `bytes::Bytes`: an immutable run of bytes.
#[verifier::external_type_specification]
#[verifier::external_body]
pub struct ExBytes(bytes::Bytes);

/// The bytes that a `Bytes` holds.
pub uninterp spec fn content(b: bytes::Bytes) -> Seq<u8>;

/// `Bytes::new` holds nothing.
pub assume_specification[ bytes::Bytes::new ]() -> (r: bytes::Bytes)
    ensures
        content(r) == Seq::<u8>::empty(),
;

/// `Bytes::len` counts the bytes held.
pub assume_specification[ bytes::Bytes::len ](b: &bytes::Bytes) -> (r: usize)
    ensures
        r == content(*b).len(),
;

/// `Bytes::is_empty` says whether nothing is held.
pub assume_specification[ bytes::Bytes::is_empty ](b: &bytes::Bytes) -> (r: bool)
    ensures
        r == (content(*b).len() == 0),
;

/// `Bytes::split_to` takes the first `at` bytes off the front and returns them;
/// it panics past the end.
pub assume_specification[ bytes::Bytes::split_to ](b: &mut bytes::Bytes, at: usize) -> (r:
    bytes::Bytes)
    requires
        at <= content(*old(b)).len(),
    ensures
        content(r) == content(*old(b)).subrange(0, at as int),
        content(*final(b)) == content(*old(b)).subrange(at as int, content(*old(b)).len() as int),
;

/// `Bytes::from` takes a vector over with what it holds.
#[verifier::external_body]
pub(crate) fn bytes_from_vec(v: Vec<u8>) -> (r: Bytes)
    ensures
        content(r) == v@,
{
    Bytes::from(v)
}

/// `Bytes::deref` lends the bytes held as a slice.
#[verifier::external_body]
pub(crate) fn bytes_as_slice(b: &Bytes) -> (r: &[u8])
    ensures
        r@ == content(*b),
{
    b
}

/// `bytes::BytesMut`: a growable run of bytes that is taken from the front.
#[verifier::external_type_specification]
#[verifier::external_body]
pub struct ExBytesMut(bytes::BytesMut);

/// The bytes that a `BytesMut` holds.
pub uninterp spec fn held(b: bytes::BytesMut) -> Seq<u8>;

/// The most that a growable buffer is ever made to hold.
///
/// An allocation is limited to `isize::MAX` bytes. One that has been taken from
/// at the front may keep as many bytes again in front of what it holds, and an
/// allocation doubles when it grows; a quarter of the limit leaves room for both.
pub open spec fn buffer_limit() -> int {
    isize::MAX as int / 4
}

/// `BytesMut::new` holds nothing.
pub assume_specification[ bytes::BytesMut::new ]() -> (r: bytes::BytesMut)
    ensures
        held(r) == Seq::<u8>::empty(),
;

/// `BytesMut::len` counts the bytes held.
pub assume_specification[ bytes::BytesMut::len ](b: &bytes::BytesMut) -> (r: usize)
    ensures
        r == held(*b).len(),
;

/// `BytesMut::is_empty` says whether nothing is held.
pub assume_specification[ bytes::BytesMut::is_empty ](b: &bytes::BytesMut) -> (r: bool)
    ensures
        r == (held(*b).len() == 0),
;

/// `BytesMut::clear` drops every byte held.
pub assume_specification[ bytes::BytesMut::clear ](b: &mut bytes::BytesMut)
    ensures
        held(*final(b)) == Seq::<u8>::empty(),
;

/// `BytesMut::reserve` makes room for more bytes and keeps what is held; it
/// panics where the allocation would grow past its limit.
pub assume_specification[ bytes::BytesMut::reserve ](b: &mut bytes::BytesMut, additional: usize)
    requires
        held(*old(b)).len() + additional <= buffer_limit(),
    ensures
        held(*final(b)) == held(*old(b)),
;

/// `BytesMut::extend_from_slice` appends the bytes of a slice; it panics where
/// the allocation would grow past its limit.
pub assume_specification[ bytes::BytesMut::extend_from_slice ](
    b: &mut bytes::BytesMut,
    extend: &[u8],
)
    requires
        held(*old(b)).len() + extend@.len() <= buffer_limit(),
    ensures
        held(*final(b)) == held(*old(b)) + extend@,
;

/// `BytesMut::deref` lends the bytes held as a slice.
#[verifier::external_body]
pub(crate) fn bytes_mut_as_slice(b: &BytesMut) -> (r: &[u8])
    ensures
        r@ == held(*b),
{
    b
}

/// `Buf::advance` on a `BytesMut` drops the first `count` bytes; it panics past
/// the end.
#[verifier::external_body]
pub(crate) fn bytes_mut_advance(b: &mut BytesMut, count: usize)
    requires
        count <= held(*old(b)).len(),
    ensures
        held(*final(b)) == held(*old(b)).skip(count as int),
{
    b.advance(count)
}

/// `BufMut::put_u8` on a `BytesMut` appends one byte.
#[verifier::external_body]
pub(crate) fn bytes_mut_put_u8(b: &mut BytesMut, value: u8)
    requires
        held(*old(b)).len() + 1 <= buffer_limit(),
    ensures
        held(*final(b)) == held(*old(b)).push(value),
{
    b.put_u8(value)
}

/// `BufMut::put_u32` on a `BytesMut` appends a number in big endian order.
#[verifier::external_body]
pub(crate) fn bytes_mut_put_u32(b: &mut BytesMut, value: u32)
    requires
        held(*old(b)).len() + 4 <= buffer_limit(),
    ensures
        held(*final(b)) == held(*old(b)) + be32_bytes(value as int),
{
    b.put_u32(value)
}

/// `BufMut::put_bytes` on a `BytesMut` appends the same byte `count` times.
#[verifier::external_body]
pub(crate) fn bytes_mut_put_bytes(b: &mut BytesMut, value: u8, count: usize)
    requires
        held(*old(b)).len() + count <= buffer_limit(),
    ensures
        held(*final(b)) == held(*old(b)) + Seq::new(count as nat, |i: int| value),
{
    b.put_bytes(value, count)
}

} // verus!
