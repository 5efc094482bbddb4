use crate::pleiades_type::{Blob, JobStatus, Lambda};
use crate::time::Span;
use vstd::prelude::*;

pub mod blob;
pub mod scripted;
pub mod gpu;
pub mod http;

verus! {

/// A call that the executor made on a runtime, with what came back.
pub enum RuntimeCall<C> {
    /// `set_context` with this context.
    SetContext(C),
    /// `set_runtime_response` with this answer, and its result.
    SetResponse(RuntimeResponse, Result<(), RuntimeError>),
    /// `execute`, and its result.
    Execute(Result<JobStatus, RuntimeError>),
    /// `get_context`, and the context it handed back.
    GetContext(Option<C>),
}

/// A language runtime that the executor drives.  Implementations live with
/// the embedding engine; the executor only sequences the calls.
///
/// Each implementation keeps, for its contract, the record of the calls
/// made on it that change it (`calls`), and says which contexts it creates
/// for which code and input (`creates`).  `ScriptedRuntime` is a verified
/// implementation.
pub trait Runtime: Sized {
    type Context: Context;

    /// The calls made on this runtime so far, oldest first.
    spec fn calls(&self) -> Seq<RuntimeCall<Self::Context>>;

    /// `r` is what `create_context` gives for `lambda` and `input`.
    spec fn creates(
        &self,
        lambda: Lambda,
        input: Blob,
        r: Result<Self::Context, RuntimeError>,
    ) -> bool;

    fn init() -> Self;

    fn create_context(&self, lambda: &Lambda, input: &Blob) -> (r: Result<Self::Context, RuntimeError>)
        ensures
            self.creates(*lambda, *input, r),
    ;

    fn set_context(&mut self, context: Self::Context)
        ensures
            final(self).calls() == old(self).calls().push(RuntimeCall::SetContext(context)),
    ;

    fn get_context(&mut self) -> (r: Option<Self::Context>)
        ensures
            final(self).calls() == old(self).calls().push(RuntimeCall::GetContext(r)),
    ;

    fn set_runtime_response(&mut self, runtime_response: RuntimeResponse) -> (r: Result<
        (),
        RuntimeError,
    >)
        ensures
            final(self).calls() == old(self).calls().push(
                RuntimeCall::SetResponse(runtime_response, r),
            ),
    ;

    fn execute(&mut self) -> (r: Result<JobStatus, RuntimeError>)
        ensures
            final(self).calls() == old(self).calls().push(RuntimeCall::Execute(r)),
    ;
}

/// The saved state of a suspended job inside a runtime.
pub trait Context: Sized {
    fn init() -> Self;
}

/// A suspended job's context, tagged with the runtime it belongs to.
#[derive(Debug)]
pub enum RuntimeContext<C> {
    JavaScript(C),
    Python,
}

/// What a running job asks the worker to do for it before it can go on.
#[derive(Debug, PartialEq, Eq)]
pub enum RuntimeRequest {
    Yield,
    Sleep(Span),
    Gpu(gpu::Request),
    Blob(blob::Request),
    Http(http::Request),
}

/// The answer handed back to a job that made a `RuntimeRequest`.
#[derive(Debug, PartialEq, Eq)]
pub enum RuntimeResponse {
    Yield,
    Sleep,
    Gpu(gpu::Response),
    Blob(blob::Response),
    Http(http::Response),
}

/// A failure reported by a runtime.
#[derive(Debug, PartialEq, Eq)]
pub struct RuntimeError {
    pub message: String,
}

} // verus!
