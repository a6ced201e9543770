//! The receive buffer: trusted declarations around `bytes::BytesMut`.
//!
//! The buffer type itself belongs to the `bytes` crate and is opaque to the
//! verifier; [`buf_bytes`] names the bytes it holds, and each operation the
//! decoder needs is a small trusted wrapper whose contract speaks over that
//! name.

use vstd::prelude::*;

use bytes::Buf;

verus! {

/// `bytes::BytesMut`, declared so the receive buffer can stand in verified
/// signatures and fields.
#[verifier::external_type_specification]
#[verifier::external_body]
pub struct ExBytesMut(bytes::BytesMut);

/// The bytes a receive buffer holds, head first.
pub uninterp spec fn buf_bytes(b: bytes::BytesMut) -> Seq<u8>;

/// Relies on `bytes::BytesMut::new`: a fresh buffer holds no bytes.
#[verifier::external_body]
pub fn buf_new() -> (b: bytes::BytesMut)
    ensures
        buf_bytes(b) == Seq::<u8>::empty(),
{
    bytes::BytesMut::new()
}

/// Relies on `bytes::BytesMut::len`: how many bytes the buffer holds.
#[verifier::external_body]
pub fn buf_len(b: &bytes::BytesMut) -> (n: usize)
    ensures
        n == buf_bytes(*b).len(),
{
    b.len()
}

/// Relies on the slice access `bytes::BytesMut` offers through `Deref`:
/// the byte at position `i`.
#[verifier::external_body]
pub fn buf_byte_at(b: &bytes::BytesMut, i: usize) -> (r: u8)
    requires
        i < buf_bytes(*b).len(),
    ensures
        r == buf_bytes(*b)[i as int],
{
    b[i]
}

/// Relies on `bytes::Buf::advance` for `BytesMut`: discards the first `n`
/// bytes and keeps the rest at the head of the buffer, in order.
#[verifier::external_body]
pub fn buf_advance(b: &mut bytes::BytesMut, n: usize)
    requires
        n <= buf_bytes(*old(b)).len(),
    ensures
        buf_bytes(*final(b)) == buf_bytes(*old(b)).skip(n as int),
{
    b.advance(n)
}

/// Relies on `bytes::BytesMut::extend_from_slice`: appends the bytes at
/// the tail of the buffer.
#[verifier::external_body]
pub fn buf_extend(b: &mut bytes::BytesMut, s: &[u8])
    ensures
        buf_bytes(*final(b)) == buf_bytes(*old(b)) + s@,
{
    b.extend_from_slice(s)
}

} // verus!
