use crate::pleiades_type::Blob;
use bytes::Bytes;
use vstd::prelude::*;

verus! {

/// Blob requests: fetch a stored blob by id, or store new data.
#[derive(Debug, PartialEq, Eq)]
pub enum Request {
    Get(String),
    Post(Bytes),
}

/// `Get` carries the blob, or `None` when it was not found; `Post` carries
/// the stored blob with its new id.
#[derive(Debug, PartialEq, Eq)]
pub enum Response {
    Get(Option<Blob>),
    Post(Blob),
}

} // verus!
