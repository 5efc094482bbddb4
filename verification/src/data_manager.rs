use crate::pleiades_type::Blob;
use bytes::Bytes;
use vstd::prelude::*;

verus! {

/// The blob that posting `data` yields: the id the store gave the uploaded
/// copy, with the data as it was posted.
pub fn posted_blob(stored: Blob, data: Bytes) -> (r: Blob)
    ensures
        r.id == stored.id,
        r.data == data,
{
    Blob { id: stored.id, data }
}

} // verus!
