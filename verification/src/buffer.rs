//! The byte buffer of the `bytes` crate, as far as the encoder uses it: made
//! for a number of bytes, appended to within that number, and turned into a
//! vector. Nothing here is proved; each contract says what the crate's
//! source shows.

use bytes::BufMut;
use bytes::BytesMut;
use vstd::prelude::*;

verus! {

/// `bytes::BytesMut`, carried through as an opaque value.
#[verifier::external_type_specification]
#[verifier::external_body]
pub struct ExBytesMut(BytesMut);

/// The bytes that `buffer` holds, in the order in which they were written.
pub uninterp spec fn buffer_bytes(buffer: BytesMut) -> Seq<u8>;

/// The number of bytes that `buffer` was made to hold. Up to this number it
/// takes bytes without growing.
pub uninterp spec fn buffer_limit(buffer: BytesMut) -> nat;

/// The byte that stands for `n` in two's complement.
pub open spec fn byte_of_i8(n: i8) -> u8 {
    if n >= 0 {
        n as u8
    } else {
        (n + 256) as u8
    }
}

/// Calls `BytesMut::with_capacity`: a buffer that holds no bytes and can take
/// `capacity` of them without growing. A capacity above `isize::MAX` is left
/// out, since the allocation behind it refuses it.
#[verifier::external_body]
pub(crate) fn buffer_with_capacity(capacity: usize) -> (buffer: BytesMut)
    requires
        capacity <= isize::MAX,
    ensures
        buffer_bytes(buffer) == Seq::<u8>::empty(),
        buffer_limit(buffer) == capacity,
{
    BytesMut::with_capacity(capacity)
}

/// Calls `BufMut::put_i8` on a `BytesMut`: the byte of `n` is appended.
/// Stated for a buffer that has room for it, where nothing is allocated.
#[verifier::external_body]
pub(crate) fn buffer_put_i8(buffer: &mut BytesMut, n: i8)
    requires
        buffer_bytes(*old(buffer)).len() < buffer_limit(*old(buffer)),
    ensures
        buffer_bytes(*final(buffer)) == buffer_bytes(*old(buffer)).push(byte_of_i8(n)),
        buffer_limit(*final(buffer)) == buffer_limit(*old(buffer)),
{
    buffer.put_i8(n);
}

/// Calls `BufMut::put` on a `BytesMut` with a byte slice as the source: the
/// bytes of `src` are appended in order. Stated for a buffer that has room
/// for them, where nothing is allocated.
#[verifier::external_body]
pub(crate) fn buffer_put(buffer: &mut BytesMut, src: &[u8])
    requires
        buffer_bytes(*old(buffer)).len() + src@.len() <= buffer_limit(*old(buffer)),
    ensures
        buffer_bytes(*final(buffer)) == buffer_bytes(*old(buffer)) + src@,
        buffer_limit(*final(buffer)) == buffer_limit(*old(buffer)),
{
    buffer.put(src);
}

/// Converts a `BytesMut` with `Vec::from`: the vector holds the bytes of the
/// buffer.
#[verifier::external_body]
pub(crate) fn buffer_into_vec(buffer: BytesMut) -> (bytes: Vec<u8>)
    ensures
        bytes@ == buffer_bytes(buffer),
{
    buffer.into()
}

} // verus!
