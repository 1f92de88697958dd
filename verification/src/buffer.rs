//! The growable byte buffer that fSpy files are written to and read from.
use tokio_util::bytes::{Buf, BytesMut};
use vstd::prelude::*;

verus! {

#[verifier::external_type_specification]
#[verifier::external_body]
pub struct ExBytesMut(BytesMut);

/// The bytes that a `BytesMut` holds, first to last.
pub uninterp spec fn bytes_contents(b: BytesMut) -> Seq<u8>;

/// `BytesMut::len`: the number of bytes the buffer holds.
#[verifier::external_body]
pub(crate) fn bytes_len(b: &BytesMut) -> (n: usize)
    ensures
        n == bytes_contents(*b).len(),
{
    b.len()
}

/// `BytesMut::extend_from_slice`: appends `extend` after the bytes already held.
/// It panics when the new length would not fit in `isize`, which `requires` rules out.
#[verifier::external_body]
pub(crate) fn bytes_extend_from_slice(b: &mut BytesMut, extend: &[u8])
    requires
        bytes_contents(*old(b)).len() + extend@.len() <= isize::MAX,
    ensures
        bytes_contents(*final(b)) == bytes_contents(*old(b)) + extend@,
{
    b.extend_from_slice(extend)
}

/// `Buf::copy_to_bytes` on a `BytesMut`: removes the first `len` bytes and hands
/// them out, here converted to a `Vec<u8>`. It panics when fewer than `len`
/// bytes are held, which `requires` rules out.
#[verifier::external_body]
pub(crate) fn bytes_copy_to_vec(b: &mut BytesMut, len: usize) -> (taken: Vec<u8>)
    requires
        len <= bytes_contents(*old(b)).len(),
    ensures
        taken@ == bytes_contents(*old(b)).take(len as int),
        bytes_contents(*final(b)) == bytes_contents(*old(b)).skip(len as int),
{
    b.copy_to_bytes(len).to_vec()
}

} // verus!
