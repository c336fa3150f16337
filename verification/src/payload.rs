//! Message payloads as shared byte buffers.

use bytes::Bytes;
use vstd::prelude::*;

verus! {

/// `bytes::Bytes`: a cheaply shared, immutable run of bytes.
#[verifier::external_type_specification]
#[verifier::external_body]
pub struct ExBytes(bytes::Bytes);

/// The bytes that a buffer holds.
pub uninterp spec fn bytes_content(b: Bytes) -> Seq<u8>;

/// `<Bytes as From<Vec<u8>>>::from`: takes the vector over without changing a byte,
/// so the buffer holds the vector's elements in their order.
#[verifier::external_body]
pub(crate) fn bytes_from(data: Vec<u8>) -> (b: Bytes)
    ensures
        bytes_content(b) == data@,
{
    Bytes::from(data)
}

} // verus!
