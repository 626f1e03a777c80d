use vstd::prelude::*;

verus! {

#[verifier::external_type_specification]
#[verifier::external_body]
pub struct ExBytes(bytes::Bytes);

/// The bytes that a `bytes::Bytes` has left to read.
pub uninterp spec fn bytes_contents(b: bytes::Bytes) -> Seq<u8>;

/// Relies on `<bytes::Bytes as bytes::Buf>::remaining`, which returns the
/// number of bytes left in the buffer.
#[verifier::external_body]
pub(crate) fn bytes_remaining(b: &bytes::Bytes) -> (r: usize)
    ensures
        r == bytes_contents(*b).len(),
{
    bytes::Buf::remaining(b)
}

} // verus!
