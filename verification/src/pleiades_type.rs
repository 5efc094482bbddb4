use crate::payload::{bytes_from_vec, bytes_view};
use crate::runtime::{RuntimeContext, RuntimeRequest, RuntimeResponse};
use crate::time::{span_saturating_sub, Span, MAX_NANOS};
use bytes::Bytes;
use std::time::Instant;
use vstd::prelude::*;

verus! {

/// A reading of the monotonic clock; only carried along with a job.
#[verifier::external_type_specification]
#[verifier::external_body]
pub struct ExInstant(std::time::Instant);

/// `Instant::now()`: a reading of the monotonic clock.  It depends on the
/// time of the call, so nothing is stated of it.
#[verifier::external_body]
pub fn instant_now() -> Instant {
    Instant::now()
}

/// A stored piece of data and its id.
#[derive(Debug, PartialEq, Eq)]
pub struct Blob {
    pub id: String,
    pub data: Bytes,
}

/// The bytes of the word `default`.
pub open spec fn default_bytes() -> Seq<u8> {
    seq![100u8, 101u8, 102u8, 97u8, 117u8, 108u8, 116u8]
}

impl Default for Blob {
    fn default() -> (r: Self)
        ensures
            r.id@ == "default"@,
            bytes_view(r.data) == default_bytes(),
    {
        let data = bytes_from_vec(vec![100u8, 101u8, 102u8, 97u8, 117u8, 108u8, 116u8]);
        Blob { id: String::from_str("default"), data }
    }
}

/// A function to run: its id, the runtime that runs it and its code.
#[derive(Debug, PartialEq, Eq)]
pub struct Lambda {
    pub id: String,
    pub runtime: String,
    pub code: Blob,
}

impl Default for Lambda {
    fn default() -> (r: Self)
        ensures
            r.id@ == "default"@,
            r.runtime@ == "default"@,
            r.code.id@ == "default"@,
            bytes_view(r.code.data) == default_bytes(),
    {
        Lambda {
            id: String::from_str("default"),
            runtime: String::from_str("default"),
            code: Blob::default(),
        }
    }
}

/// One invocation of a lambda as it moves through the worker.
///
/// `consumed` is the CPU time spent on it so far, `remaining` what is left
/// of its budget.  `context` holds the runtime's saved state while the job
/// waits on a request of its own.
#[derive(Debug)]
pub struct Job<C> {
    pub status: JobStatus,
    pub consumed: Span,
    pub remaining: Span,
    pub contracted_at: Instant,
    pub context: Option<RuntimeContext<C>>,
    pub id: String,
    pub lambda: Box<Lambda>,
    pub input: Box<Blob>,
}

impl<C> Default for Job<C> {
    fn default() -> (r: Self)
        ensures
            r.status is Assigned,
            r.consumed@ == 0,
            r.remaining@ == 0,
            r.context is None,
            r.id@ == "default"@,
            r.lambda.id@ == "default"@,
            r.lambda.runtime@ == "default"@,
            r.lambda.code.id@ == "default"@,
            bytes_view(r.lambda.code.data) == default_bytes(),
            r.input.id@ == "default"@,
            bytes_view(r.input.data) == default_bytes(),
    {
        Job {
            status: JobStatus::Assigned,
            consumed: Span::zero(),
            remaining: Span::zero(),
            context: None,
            id: String::from_str("default"),
            lambda: Box::new(Lambda::default()),
            input: Box::new(Blob::default()),
            contracted_at: instant_now(),
        }
    }
}

impl<C> Job<C> {
    /// Takes `duration` off the remaining budget, stopping at zero.
    pub fn sub_remaining(&mut self, duration: Span)
        ensures
            final(self).remaining@ == span_saturating_sub(old(self).remaining@, duration@),
            final(self).remaining@ <= MAX_NANOS,
            *final(self) == (Job { remaining: final(self).remaining, ..*old(self) }),
    {
        self.remaining = self.remaining.saturating_sub(duration);
    }

    /// Adds `duration` to the CPU time consumed.
    pub fn add_consumed(&mut self, duration: Span)
        requires
            old(self).consumed@ + duration@ <= MAX_NANOS,
        ensures
            final(self).consumed@ == old(self).consumed@ + duration@,
            *final(self) == (Job { consumed: final(self).consumed, ..*old(self) }),
    {
        match self.consumed.checked_add(duration) {
            Some(s) => {
                self.consumed = s;
            },
            None => {},
        }
    }

    /// Whether the budget is used up.
    pub fn is_timeout(&self) -> (r: bool)
        ensures
            r == (self.remaining@ == 0),
    {
        self.remaining.is_zero()
    }

    /// Marks the job cancelled; nothing else changes.
    pub fn cancel(&mut self)
        ensures
            *final(self) == (Job { status: JobStatus::Cancelled, ..*old(self) }),
    {
        self.status = JobStatus::Cancelled;
    }

    pub fn is_cancelled(&self) -> (r: bool)
        ensures
            r == (self.status is Cancelled),
    {
        match self.status {
            JobStatus::Cancelled => true,
            _ => false,
        }
    }
}

/// A cancelled job reports itself cancelled, and cancelling changes
/// nothing but the status.
pub proof fn lemma_cancel_then_is_cancelled<C>(job: Job<C>)
    ensures
        (Job { status: JobStatus::Cancelled, ..job }).status is Cancelled,
        (Job { status: JobStatus::Cancelled, ..job }).remaining == job.remaining,
        (Job { status: JobStatus::Cancelled, ..job }).consumed == job.consumed,
{
}

/// After the budget is charged with `d`, the job has timed out exactly when
/// `d` was at least what remained; charging never adds to the budget.
pub proof fn lemma_timeout_after_charge(remaining: nat, d: nat)
    ensures
        (span_saturating_sub(remaining, d) == 0) <==> d >= remaining,
        span_saturating_sub(remaining, d) <= remaining,
{
}

/// Where a job stands.
#[derive(Debug, Default, PartialEq, Eq)]
pub enum JobStatus {
    /// Handed to this worker, not yet started.
    #[default]
    Assigned,
    /// On an executor.
    Running,
    /// The answer to its last request has arrived; it can go on.
    Ready(RuntimeResponse),
    /// Suspended on a request, between executor and pending manager.
    Pending(RuntimeRequest),
    /// Done, with its output.
    Finished(Option<Bytes>),
    /// Its request is being carried out.
    Resolving,
    Cancelled,
}

} // verus!
