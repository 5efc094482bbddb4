use crate::pleiades_type::{Blob, JobStatus, Lambda};
use crate::runtime::{Context, Runtime, RuntimeCall, RuntimeError, RuntimeResponse};
use vstd::prelude::*;

verus! {

/// A runtime that runs no code but plays back set outcomes, for driving the
/// executor without a language engine.
///
/// `new_context` is the context that `create_context` makes for any code
/// (none: it fails); the statuses in `statuses` are returned by `execute`
/// from the last one backwards (none left: it fails); answers are taken in
/// where `accepts_responses` and kept in `responses`; the context last set
/// is `held`, and `get_context` hands it out where `keeps_context`.
pub struct ScriptedRuntime<C> {
    pub new_context: Option<C>,
    pub statuses: Vec<JobStatus>,
    pub accepts_responses: bool,
    pub responses: Vec<RuntimeResponse>,
    pub keeps_context: bool,
    pub held: Option<C>,
    log: Ghost<Seq<RuntimeCall<C>>>,
}

fn failure(message: &str) -> (r: RuntimeError)
    ensures
        r.message@ == message@,
{
    RuntimeError { message: String::from_str(message) }
}

impl<C: Context + Copy> Runtime for ScriptedRuntime<C> {
    type Context = C;

    closed spec fn calls(&self) -> Seq<RuntimeCall<C>> {
        self.log@
    }

    closed spec fn creates(&self, lambda: Lambda, input: Blob, r: Result<C, RuntimeError>) -> bool {
        match self.new_context {
            Some(c) => r == Ok::<C, RuntimeError>(c),
            None => r is Err,
        }
    }

    fn init() -> Self {
        ScriptedRuntime {
            new_context: None,
            statuses: Vec::new(),
            accepts_responses: true,
            responses: Vec::new(),
            keeps_context: true,
            held: None,
            log: Ghost(Seq::empty()),
        }
    }

    fn create_context(&self, lambda: &Lambda, input: &Blob) -> (r: Result<C, RuntimeError>) {
        match self.new_context {
            Some(c) => Ok(c),
            None => Err(failure("no context can be made")),
        }
    }

    fn set_context(&mut self, context: C) {
        self.log = Ghost(self.log@.push(RuntimeCall::SetContext(context)));
        self.held = Some(context);
    }

    fn get_context(&mut self) -> (r: Option<C>) {
        let r = if self.keeps_context {
            self.held.take()
        } else {
            None
        };
        self.log = Ghost(self.log@.push(RuntimeCall::GetContext(r)));
        r
    }

    fn set_runtime_response(&mut self, runtime_response: RuntimeResponse) -> (r: Result<
        (),
        RuntimeError,
    >) {
        let ghost answer = runtime_response;
        let r = if self.accepts_responses {
            self.responses.push(runtime_response);
            Ok(())
        } else {
            Err(failure("the answer is refused"))
        };
        self.log = Ghost(self.log@.push(RuntimeCall::SetResponse(answer, r)));
        r
    }

    fn execute(&mut self) -> (r: Result<JobStatus, RuntimeError>) {
        let r = match self.statuses.pop() {
            Some(s) => Ok(s),
            None => Err(failure("nothing left to run")),
        };
        self.log = Ghost(self.log@.push(RuntimeCall::Execute(r)));
        r
    }
}

} // verus!
