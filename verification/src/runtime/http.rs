use bytes::Bytes;
use vstd::prelude::*;

verus! {

#[derive(Debug, PartialEq, Eq)]
pub enum Request {
    Get(String),
    Post { url: String, body: Bytes },
}

/// The response body, or `None` where the request failed.
#[derive(Debug, PartialEq, Eq)]
pub enum Response {
    Get(Option<Bytes>),
    Post(Option<Bytes>),
}

} // verus!
