//! Byte buffers: the buffers of the `bytes` crate, and what they hold.

use vstd::prelude::*;

verus! {

/// An immutable buffer that is cheap to hand on.
#[verifier::external_type_specification]
#[verifier::external_body]
pub struct ExBytes(bytes::Bytes);

/// A buffer that can grow.
#[verifier::external_type_specification]
#[verifier::external_body]
pub struct ExBytesMut(bytes::BytesMut);

/// The bytes that a buffer holds.
pub uninterp spec fn held(b: bytes::Bytes) -> Seq<u8>;

/// The bytes that a growing buffer holds.
pub uninterp spec fn held_mut(b: bytes::BytesMut) -> Seq<u8>;

/// `bytes::Bytes::new`: an empty buffer.
pub assume_specification[ bytes::Bytes::new ]() -> (r: bytes::Bytes)
    ensures
        held(r) == Seq::<u8>::empty(),
;

/// `bytes::Bytes::len`: the number of bytes in the buffer.
pub assume_specification[ bytes::Bytes::len ](b: &bytes::Bytes) -> (r: usize)
    ensures
        r == held(*b).len(),
;

/// `bytes::Bytes::copy_from_slice`: a buffer with a copy of the bytes.
pub assume_specification[ bytes::Bytes::copy_from_slice ](data: &[u8]) -> (r: bytes::Bytes)
    ensures
        held(r) == data@,
;

/// `bytes::Bytes::split_to`: takes the first `at` bytes off the buffer. It
/// panics if there are fewer.
pub assume_specification[ bytes::Bytes::split_to ](b: &mut bytes::Bytes, at: usize) -> (r:
    bytes::Bytes)
    requires
        at <= held(*old(b)).len(),
    ensures
        held(r) == held(*old(b)).take(at as int),
        held(*final(b)) == held(*old(b)).skip(at as int),
;

/// `bytes::BytesMut::new`: an empty buffer.
pub assume_specification[ bytes::BytesMut::new ]() -> (r: bytes::BytesMut)
    ensures
        held_mut(r) == Seq::<u8>::empty(),
;

/// `bytes::BytesMut::freeze`: the same bytes, from now on immutable.
pub assume_specification[ bytes::BytesMut::freeze ](b: bytes::BytesMut) -> (r: bytes::Bytes)
    ensures
        held(r) == held_mut(b),
;

/// `bytes::BytesMut::extend_from_slice`, with the bytes of another buffer:
/// appends them.
#[verifier::external_body]
pub(crate) fn append(out: &mut bytes::BytesMut, more: &bytes::Bytes)
    ensures
        held_mut(*final(out)) == held_mut(*old(out)) + held(*more),
{
    out.extend_from_slice(more)
}

/// The `From<Vec<u8>>` of `bytes::Bytes`: a buffer with the bytes of the vector.
#[verifier::external_body]
pub(crate) fn bytes_from(data: Vec<u8>) -> (r: bytes::Bytes)
    ensures
        held(r) == data@,
{
    bytes::Bytes::from(data)
}

/// What the buffers hold, one behind the other.
pub open spec fn joined_buffers(parts: Seq<bytes::Bytes>) -> Seq<u8>
    decreases parts.len(),
{
    if parts.len() == 0 {
        Seq::empty()
    } else {
        joined_buffers(parts.drop_last()) + held(parts.last())
    }
}

/// One buffer with what the given ones hold, in order.
pub fn concat(parts: &Vec<bytes::Bytes>) -> (r: bytes::Bytes)
    ensures
        held(r) == joined_buffers(parts@),
{
    let mut out = bytes::BytesMut::new();
    let mut i: usize = 0;
    while i < parts.len()
        invariant
            i <= parts@.len(),
            held_mut(out) == joined_buffers(parts@.take(i as int)),
        decreases parts@.len() - i,
    {
        append(&mut out, &parts[i]);
        i = i + 1;
        proof {
            assert(parts@.take(i as int).drop_last() =~= parts@.take(i - 1));
        }
    }
    proof {
        assert(parts@.take(i as int) =~= parts@);
    }
    out.freeze()
}

} // verus!
