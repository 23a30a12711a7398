//! The read buffer, a `bytes::BytesMut`, seen as the sequence of bytes it holds.
use vstd::prelude::*;
use bytes::BytesMut;

verus! {

#[verifier::external_type_specification]
#[verifier::external_body]
pub struct ExBytesMut(BytesMut);

/// The bytes that a buffer holds, first to last.
pub uninterp spec fn buffer_bytes(b: BytesMut) -> Seq<u8>;

/// Relies on `BytesMut::len`: the number of bytes held.
#[verifier::external_body]
pub(crate) fn buffer_len(b: &BytesMut) -> (r: usize)
    ensures
        r == buffer_bytes(*b).len(),
{
    b.len()
}

/// Relies on `BytesMut::resize`: a longer buffer is filled up with `value`, a
/// shorter one keeps its first `new_len` bytes. Growing past `isize::MAX`
/// bytes would overflow the allocation, so that is left out.
#[verifier::external_body]
pub(crate) fn buffer_resize(b: &mut BytesMut, new_len: usize, value: u8)
    requires
        new_len <= isize::MAX,
    ensures
        buffer_bytes(*final(b)) == if new_len <= buffer_bytes(*old(b)).len() {
            buffer_bytes(*old(b)).take(new_len as int)
        } else {
            buffer_bytes(*old(b)) + Seq::new(
                (new_len - buffer_bytes(*old(b)).len()) as nat,
                |i: int| value,
            )
        },
{
    b.resize(new_len, value)
}

/// Relies on `BytesMut::truncate`: keeps the first `len` bytes, and has no
/// effect when the buffer is not longer than that.
#[verifier::external_body]
pub(crate) fn buffer_truncate(b: &mut BytesMut, len: usize)
    ensures
        buffer_bytes(*final(b)) == if len <= buffer_bytes(*old(b)).len() {
            buffer_bytes(*old(b)).take(len as int)
        } else {
            buffer_bytes(*old(b))
        },
{
    b.truncate(len)
}

/// Relies on `BytesMut::clear`: removes every byte.
#[verifier::external_body]
pub(crate) fn buffer_clear(b: &mut BytesMut)
    ensures
        buffer_bytes(*final(b)) == Seq::<u8>::empty(),
{
    b.clear()
}

/// Relies on `BytesMut::extend_from_slice`: appends the bytes of `data`.
/// Growing past `isize::MAX` bytes would overflow the allocation.
#[verifier::external_body]
pub(crate) fn buffer_extend(b: &mut BytesMut, data: &[u8])
    requires
        buffer_bytes(*old(b)).len() + data@.len() <= isize::MAX,
    ensures
        buffer_bytes(*final(b)) == buffer_bytes(*old(b)) + data@,
{
    b.extend_from_slice(data)
}

/// The number of bytes that a buffer holds.
pub fn buffer_length(b: &BytesMut) -> (r: usize)
    ensures
        r == buffer_bytes(*b).len(),
{
    buffer_len(b)
}

} // verus!
