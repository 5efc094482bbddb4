use crate::pleiades_type::Blob;
use bytes::Bytes;
use vstd::prelude::*;

verus! {

/// The blob that a download yields: the downloaded data under the requested
/// id, or `None` where the download failed.
pub fn downloaded_blob(blob_id: String, data: Option<Bytes>) -> (r: Option<Blob>)
    ensures
        match data {
            Some(d) => r == Some(Blob { id: blob_id, data: d }),
            None => r is None,
        },
{
    match data {
        Some(d) => Some(Blob { id: blob_id, data: d }),
        None => None,
    }
}

/// The blob that an upload yields: the uploaded data under the id the store
/// gave it.
pub fn uploaded_blob(data_id: String, data: Bytes) -> (r: Blob)
    ensures
        r.id == data_id,
        r.data == data,
{
    Blob { id: data_id, data }
}

} // verus!
