use crate::time::Span;
use vstd::prelude::*;

verus! {

/// The record of one finished or cancelled job.
///
/// `start` and `end` are points in time, taken as spans since a fixed
/// reference point of the worker; `elapsed` is the wall time the job took and
/// `consumed` the CPU time it used.
pub struct Metric {
    pub id: String,
    pub runtime: String,
    pub status: String,
    pub start: Span,
    pub end: Span,
    pub elapsed: Span,
    pub consumed: Span,
}

} // verus!
