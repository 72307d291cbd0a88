//! The trusted surface over `bytes::BytesMut`, the byte buffer the codec
//! reads frames from and writes frames to.
//!
//! `buf_bytes` names the bytes a buffer currently holds; every wrapper
//! states over it what the one `bytes` method it calls does.

use bytes::Buf;
use bytes::BytesMut;
use vstd::prelude::*;

verus! {

/// The bytes a `BytesMut` currently holds, front to back.
pub uninterp spec fn buf_bytes(b: BytesMut) -> Seq<u8>;

#[verifier::external_type_specification]
#[verifier::external_body]
pub struct ExBytesMut(BytesMut);

/// Relies on `BytesMut::len`: the number of bytes the buffer holds.
#[verifier::external_body]
pub(crate) fn buf_len(b: &BytesMut) -> (n: usize)
    ensures
        n == buf_bytes(*b).len(),
{
    b.len()
}

/// Relies on `BytesMut`'s `Deref` to `[u8]` (with `slice::to_vec`): the
/// buffer's bytes at positions `start..end`, copied out.
#[verifier::external_body]
pub(crate) fn buf_copy_range(b: &BytesMut, start: usize, end: usize) -> (r: Vec<u8>)
    requires
        start <= end <= buf_bytes(*b).len(),
    ensures
        r@ == buf_bytes(*b).subrange(start as int, end as int),
{
    b[start..end].to_vec()
}

/// Relies on `bytes::Buf::advance` for `BytesMut`: discards exactly the
/// first `cnt` bytes and keeps the rest (it panics when `cnt` exceeds the
/// buffer's length, so that case is required away).
#[verifier::external_body]
pub(crate) fn buf_advance(b: &mut BytesMut, cnt: usize)
    requires
        cnt <= buf_bytes(*old(b)).len(),
    ensures
        buf_bytes(*final(b)) == buf_bytes(*old(b)).subrange(
            cnt as int,
            buf_bytes(*old(b)).len() as int,
        ),
{
    b.advance(cnt)
}

/// Relies on `BytesMut::reserve`: it grows capacity only and leaves the
/// contents as they are (it panics when the new capacity overflows `usize`,
/// so that case is required away).
#[verifier::external_body]
pub(crate) fn buf_reserve(b: &mut BytesMut, additional: usize)
    requires
        buf_bytes(*old(b)).len() + additional <= usize::MAX,
    ensures
        buf_bytes(*final(b)) == buf_bytes(*old(b)),
{
    b.reserve(additional)
}

/// Relies on `BytesMut::extend_from_slice`: appends the slice's bytes at
/// the back of the buffer (it reserves first, so capacity overflow is
/// required away as in `buf_reserve`).
#[verifier::external_body]
pub(crate) fn buf_extend(b: &mut BytesMut, s: &[u8])
    requires
        buf_bytes(*old(b)).len() + s@.len() <= usize::MAX,
    ensures
        buf_bytes(*final(b)) == buf_bytes(*old(b)) + s@,
{
    b.extend_from_slice(s)
}

} // verus!
