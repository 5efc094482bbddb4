use bytes::Bytes;
use vstd::prelude::*;

verus! {

#[derive(Debug, PartialEq, Eq)]
pub struct Request {
    pub data: Bytes,
}

#[derive(Debug, PartialEq, Eq)]
pub struct Response {
    pub data: Bytes,
}

} // verus!
