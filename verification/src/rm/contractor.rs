use vstd::prelude::*;

verus! {

/// The ids that make up a contracted job.
#[derive(Debug, PartialEq, Eq)]
pub struct JobMetadata {
    pub id: String,
    pub lambda_id: String,
    pub input_id: String,
}

/// What to do after the contract call answered.
#[derive(Debug, PartialEq, Eq)]
pub enum ContractStep {
    /// Report this result; nothing more is to be fetched.
    Done(Result<Option<JobMetadata>, String>),
    /// A job was contracted: fetch the information of the job with this id.
    FetchInfo(String),
}

/// Decides on the answer of the contract call: its error message, or the id
/// of the contracted job if there is one.
pub fn after_contract(contract: Result<Option<String>, String>) -> (r: ContractStep)
    ensures
        match contract {
            Err(e) => r == ContractStep::Done(Err(e)),
            Ok(None) => r == ContractStep::Done(Ok(None)),
            Ok(Some(id)) => r == ContractStep::FetchInfo(id),
        },
{
    match contract {
        Err(e) => ContractStep::Done(Err(e)),
        Ok(None) => ContractStep::Done(Ok(None)),
        Ok(Some(id)) => ContractStep::FetchInfo(id),
    }
}

/// The result of a contract once the job information answered: its error
/// message, or the job's id, lambda id and input id.
pub fn after_info(info: Result<(String, String, String), String>) -> (r: Result<
    Option<JobMetadata>,
    String,
>)
    ensures
        match info {
            Err(e) => r == Err::<Option<JobMetadata>, String>(e),
            Ok((id, lambda_id, input_id)) => r == Ok::<Option<JobMetadata>, String>(
                Some(JobMetadata { id, lambda_id, input_id }),
            ),
        },
{
    match info {
        Err(e) => Err(e),
        Ok((id, lambda_id, input_id)) => Ok(Some(JobMetadata { id, lambda_id, input_id })),
    }
}

} // verus!
