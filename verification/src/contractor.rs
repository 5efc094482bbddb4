use crate::pleiades_type::{instant_now, Blob, Job, JobStatus, Lambda};
use crate::time::Span;
use vstd::prelude::*;

verus! {

/// What a contractor does once the contract call answered.
#[derive(Debug, PartialEq, Eq)]
pub enum ContractNext {
    /// No job was contracted: answer that nothing was contracted.
    NoJob,
    /// The job with this id was contracted: fetch its information, code and
    /// input.
    Fetch(String),
}

/// Decides on the job id that the contract call answered with.
pub fn after_contract_id(job_id: Option<String>) -> (r: ContractNext)
    ensures
        match job_id {
            None => r == ContractNext::NoJob,
            Some(id) => r == ContractNext::Fetch(id),
        },
{
    match job_id {
        None => ContractNext::NoJob,
        Some(id) => ContractNext::Fetch(id),
    }
}

/// The job that a contract yields: assigned, with no CPU time consumed or
/// budgeted yet, no context, and the lambda and input that were fetched for
/// it.
pub fn contracted_job<C>(
    job_id: String,
    lambda_id: String,
    runtime: String,
    code: Blob,
    input: Blob,
) -> (r: Job<C>)
    ensures
        r.status is Assigned,
        r.consumed@ == 0,
        r.remaining@ == 0,
        r.context is None,
        r.id == job_id,
        *r.lambda == (Lambda { id: lambda_id, runtime, code }),
        *r.input == input,
{
    Job {
        id: job_id,
        status: JobStatus::Assigned,
        consumed: Span::zero(),
        remaining: Span::zero(),
        contracted_at: instant_now(),
        context: None,
        lambda: Box::new(Lambda { id: lambda_id, runtime, code }),
        input: Box::new(input),
    }
}

} // verus!
