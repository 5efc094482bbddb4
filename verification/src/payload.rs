use bytes::Bytes;
use vstd::prelude::*;

verus! {

/// Byte buffers of the `bytes` crate carry job inputs, outputs and bodies
/// through the worker unchanged.
#[verifier::external_type_specification]
#[verifier::external_body]
pub struct ExBytes(bytes::Bytes);

/// The bytes that a buffer holds, in order.
pub uninterp spec fn bytes_view(b: Bytes) -> Seq<u8>;

/// `Bytes::from(Vec<u8>)`: the buffer takes over the vector's contents, so it
/// holds exactly the vector's bytes in the same order.
#[verifier::external_body]
pub fn bytes_from_vec(v: Vec<u8>) -> (b: Bytes)
    ensures
        bytes_view(b) == v@,
{
    Bytes::from(v)
}

} // verus!
