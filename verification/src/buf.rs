//! The stream buffer that the codec reads from and writes to: a
//! `bytes::BytesMut` held behind trusted declarations.  Its contents are
//! modelled as a sequence of bytes; the codec's contracts are stated over
//! that model.

use bytes::Buf;
use vstd::prelude::*;

verus! {

/// Declares bytes::BytesMut so that it can stand in signatures; the value is
/// opaque, and everything known of it goes through `buf_contents`.
#[verifier::external_type_specification]
#[verifier::external_body]
pub struct ExBytesMut(bytes::BytesMut);

/// The bytes a `bytes::BytesMut` currently holds, front to back.
pub uninterp spec fn buf_contents(b: bytes::BytesMut) -> Seq<u8>;

/// Relies on bytes::BytesMut::len: the number of bytes the buffer holds.
#[verifier::external_body]
pub fn buf_len(b: &bytes::BytesMut) -> (n: usize)
    ensures
        n == buf_contents(*b).len(),
{
    b.len()
}

/// Relies on the slice view of bytes::BytesMut (its Deref impl) and on
/// slice::to_vec: copies the bytes between two positions out of the buffer.
#[verifier::external_body]
pub fn buf_copy_range(b: &bytes::BytesMut, i: usize, j: usize) -> (v: Vec<u8>)
    requires
        i <= j <= buf_contents(*b).len(),
    ensures
        v@ == buf_contents(*b).subrange(i as int, j as int),
{
    b[i..j].to_vec()
}

/// Relies on bytes::Buf::advance for BytesMut: discards the first `n` bytes
/// of the buffer and keeps the rest.
#[verifier::external_body]
pub fn buf_advance(b: &mut bytes::BytesMut, n: usize)
    requires
        n <= buf_contents(*old(b)).len(),
    ensures
        buf_contents(*final(b)) == buf_contents(*old(b)).skip(n as int),
{
    b.advance(n)
}

/// Relies on bytes::BytesMut::extend_from_slice: appends the given bytes to
/// the back of the buffer.
#[verifier::external_body]
pub fn buf_extend(b: &mut bytes::BytesMut, s: &[u8])
    ensures
        buf_contents(*final(b)) == buf_contents(*old(b)) + s@,
{
    b.extend_from_slice(s)
}

} // verus!
