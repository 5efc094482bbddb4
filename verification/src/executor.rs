use crate::pleiades_type::{Job, JobStatus};
use crate::runtime::{
    Runtime, RuntimeCall, RuntimeContext, RuntimeError, RuntimeRequest, RuntimeResponse,
};
use bytes::Bytes;
use crate::time::{lemma_span_eq, lemma_span_of, span_of, span_saturating_sub, Span, MAX_NANOS};
use cpu_time::ThreadTime;
use vstd::pervasive::unreached;
use vstd::prelude::*;

verus! {

/// A reading of the CPU time of the calling thread, from the `cpu_time`
/// crate; only carried from one call to the next.
#[verifier::external_type_specification]
#[verifier::external_body]
pub struct ExThreadTime(cpu_time::ThreadTime);

/// `ThreadTime::try_now()`: the CPU time the calling thread has used so far,
/// or `None` where the clock cannot be read.  It depends on the moment and
/// the machine, so nothing is stated of it.
#[verifier::external_body]
fn thread_time_now() -> Option<ThreadTime> {
    ThreadTime::try_now().ok()
}

/// `ThreadTime::try_elapsed()`: the CPU time the calling thread has used
/// since `start`, in nanoseconds, or `None` where the clock cannot be read.
/// How much it is depends on the moment; what is stated is only that it is a
/// standard duration, which never exceeds `MAX_NANOS` nanoseconds.
#[verifier::external_body]
fn thread_time_elapsed_nanos(start: &ThreadTime) -> (r: Option<u128>)
    ensures
        r matches Some(n) ==> n <= MAX_NANOS,
{
    match start.try_elapsed() {
        Ok(d) => Some(d.as_nanos()),
        Err(_) => None,
    }
}

/// Why a run of a job could not be completed.
#[derive(Debug)]
pub enum ExecError {
    /// The runtime refused the answer to the job's last request.
    ResponseRejected(RuntimeError),
    /// The runtime failed while executing the job.
    ExecutionFailed(RuntimeError),
    /// The job suspended, but the runtime had no context to save.
    ContextMissing,
    /// The thread's CPU clock could not be read.
    ClockUnavailable,
    /// The CPU time consumed by the job no longer fits in a span.
    ConsumedOverflow,
}

/// The job as it is handed to the runtime: running, its context taken out.
pub open spec fn running<C>(job: Job<C>) -> Job<C> {
    Job { status: JobStatus::Running, context: None, ..job }
}

/// `after` is `before` charged with `e` nanoseconds of CPU time: the budget
/// shrinks by `e` (not below zero) and the consumed time grows by `e`.
pub open spec fn charged<C>(before: Job<C>, after: Job<C>, e: nat) -> bool {
    &&& after.remaining@ == span_saturating_sub(before.remaining@, e)
    &&& after.consumed@ == before.consumed@ + e
    &&& after == (Job { remaining: after.remaining, consumed: after.consumed, ..before })
}

/// What becomes of a charged job after the runtime returned `status`, where
/// `context` is what the runtime handed back when asked for it.
///
/// A finished job keeps its output; a job that suspended on a request with
/// budget left keeps the runtime's context; every other job is cancelled.
pub open spec fn conclusion<C>(job: Job<C>, status: JobStatus, context: Option<C>) -> Result<
    Job<C>,
    ExecError,
> {
    match status {
        JobStatus::Finished(_) => Ok(Job { status: status, context: None, ..job }),
        JobStatus::Pending(_) => {
            if job.remaining@ > 0 {
                match context {
                    Some(c) => Ok(
                        Job { status: status, context: Some(RuntimeContext::JavaScript(c)), ..job },
                    ),
                    None => Err(ExecError::ContextMissing),
                }
            } else {
                Ok(Job { status: JobStatus::Cancelled, ..job })
            }
        },
        _ => Ok(Job { status: JobStatus::Cancelled, ..job }),
    }
}

/// `r` is a possible result of running `job` once: it was charged with some
/// amount of CPU time and then concluded with what the runtime returned.
pub open spec fn ran_to<C>(job: Job<C>, r: Job<C>) -> bool {
    exists|k: Job<C>, e: nat, s: JobStatus, c: Option<C>|
        #![trigger charged(running(job), k, e), conclusion(k, s, c)]
        charged(running(job), k, e) && conclusion(k, s, c) == Ok::<Job<C>, ExecError>(r)
}

/// Every run of a job ends in one of three ways: the job finished (no
/// context kept), it waits on a request with budget left and its context
/// kept, or it was cancelled.  It keeps its id, lambda, input and contract
/// time, its consumed time grows by the CPU time of the run and its budget
/// shrinks by it, never below zero.
pub proof fn lemma_run_outcomes<C>(job: Job<C>, r: Job<C>)
    requires
        ran_to(job, r),
    ensures
        (r.status is Finished && r.context is None) || (r.status is Pending && r.remaining@ > 0
            && (r.context matches Some(RuntimeContext::JavaScript(_)))) || r.status is Cancelled,
        r.id == job.id,
        r.lambda == job.lambda,
        r.input == job.input,
        r.contracted_at == job.contracted_at,
        exists|e: nat|
            r.consumed@ == job.consumed@ + e && r.remaining@ == span_saturating_sub(
                job.remaining@,
                e,
            ),
{
    let (k, e, s, c) = choose|k: Job<C>, e: nat, s: JobStatus, c: Option<C>|
        #![trigger charged(running(job), k, e), conclusion(k, s, c)]
        charged(running(job), k, e) && conclusion(k, s, c) == Ok::<Job<C>, ExecError>(r);
    assert(r.consumed@ == job.consumed@ + e);
}

/// Settles a job after a run: see `conclusion`.
pub fn conclude<C>(job: Job<C>, status: JobStatus, context: Option<C>) -> (r: Result<
    Job<C>,
    ExecError,
>)
    ensures
        r == conclusion(job, status, context),
        status is Finished ==> r == Ok::<Job<C>, ExecError>(
            Job { status: status, context: None, ..job },
        ),
        status is Pending && job.remaining@ > 0 && context is Some ==> r == Ok::<Job<C>, ExecError>(
            Job {
                status: status,
                context: Some(RuntimeContext::JavaScript(context->Some_0)),
                ..job
            },
        ),
        status is Pending && job.remaining@ > 0 && context is None ==> r == Err::<Job<C>, ExecError>(
            ExecError::ContextMissing,
        ),
        status is Pending && job.remaining@ == 0 ==> r == Ok::<Job<C>, ExecError>(
            Job { status: JobStatus::Cancelled, ..job },
        ),
        !(status is Pending) && !(status is Finished) ==> r == Ok::<Job<C>, ExecError>(
            Job { status: JobStatus::Cancelled, ..job },
        ),
{
    match status {
        JobStatus::Finished(output) => Ok(
            Job { status: JobStatus::Finished(output), context: None, ..job },
        ),
        JobStatus::Pending(request) => {
            if !job.is_timeout() {
                match context {
                    Some(c) => Ok(
                        Job {
                            status: JobStatus::Pending(request),
                            context: Some(RuntimeContext::JavaScript(c)),
                            ..job
                        },
                    ),
                    None => Err(ExecError::ContextMissing),
                }
            } else {
                let mut job = job;
                job.cancel();
                Ok(job)
            }
        },
        _ => {
            let mut job = job;
            job.cancel();
            Ok(job)
        },
    }
}

/// `job` charged with `e` nanoseconds of CPU time.
pub open spec fn charge_of<C>(job: Job<C>, e: nat) -> Job<C> {
    Job {
        remaining: span_of(span_saturating_sub(job.remaining@, e)),
        consumed: span_of(job.consumed@ + e),
        ..job
    }
}

/// What a run that took `e` nanoseconds of CPU time and returned `status`
/// makes of `job`: the consumed time no longer fits, or the charged job
/// concluded with `context`.
pub open spec fn settlement<C>(job: Job<C>, e: nat, status: JobStatus, context: Option<C>) -> Result<
    Job<C>,
    ExecError,
> {
    if job.consumed@ + e > MAX_NANOS {
        Err(ExecError::ConsumedOverflow)
    } else {
        conclusion(charge_of(job, e), status, context)
    }
}

/// Whether the runtime is asked for its context after a run of `job` that
/// took `e` nanoseconds and returned `status`: the job suspended, its time
/// could be charged, and budget is left.
pub open spec fn keeps<C>(job: Job<C>, e: nat, status: JobStatus) -> bool {
    &&& status is Pending
    &&& job.consumed@ + e <= MAX_NANOS
    &&& span_saturating_sub(job.remaining@, e) > 0
}

/// After a run that took `e` nanoseconds and returned `status`, the calls
/// that follow (`rest`) and the result `r`: the context is asked for exactly
/// when `keeps` says so, and the result is the settlement.
pub open spec fn settled_after<C>(
    job: Job<C>,
    e: nat,
    status: JobStatus,
    rest: Seq<RuntimeCall<C>>,
    r: Result<Job<C>, ExecError>,
) -> bool {
    if keeps(job, e, status) {
        rest.len() == 1 && (rest[0] matches RuntimeCall::GetContext(o) && r == settlement(
            job,
            e,
            status,
            o,
        ))
    } else {
        rest.len() == 0 && r == settlement(job, e, status, None)
    }
}

/// From the point where the runtime holds the job's context, the calls made
/// (`log`) and the result `r` of running the (running) `job`: the thread's
/// clock could not be read, or the runtime executed the job and then either
/// failed, or the clock could not be read again, or the job was settled
/// with the CPU time the run took.
pub open spec fn after_run<C>(job: Job<C>, log: Seq<RuntimeCall<C>>, r: Result<Job<C>, ExecError>) -> bool {
    ||| (log.len() == 0 && r == Err::<Job<C>, ExecError>(ExecError::ClockUnavailable))
    ||| (log.len() >= 1 && match log[0] {
        RuntimeCall::Execute(Err(e)) => log.len() == 1 && r == Err::<Job<C>, ExecError>(
            ExecError::ExecutionFailed(e),
        ),
        RuntimeCall::Execute(Ok(s)) => (log.len() == 1 && r == Err::<Job<C>, ExecError>(
            ExecError::ClockUnavailable,
        )) || exists|e: nat|
            e <= MAX_NANOS && #[trigger] settled_after(job, e, s, log.drop_first(), r),
        _ => false,
    })
}

/// Charges a job with the CPU time of a run and concludes it: see
/// `settlement`.
pub fn settle<C>(job: Job<C>, elapsed: Span, status: JobStatus, context: Option<C>) -> (r: Result<
    Job<C>,
    ExecError,
>)
    ensures
        r == settlement(job, elapsed@, status, context),
        (r == Err::<Job<C>, ExecError>(ExecError::ConsumedOverflow)) <== job.consumed@ + elapsed@
            > MAX_NANOS,
        r matches Ok(j) ==> j.consumed@ == job.consumed@ + elapsed@ && j.remaining@ == (if job.remaining@
            >= elapsed@ {
            job.remaining@ - elapsed@
        } else {
            0
        }),
        job.consumed@ + elapsed@ <= MAX_NANOS ==> exists|k: Job<C>|
            charged(job, k, elapsed@) && #[trigger] conclusion(k, status, context) == r,
{
    let ghost before = job;
    if job.consumed.checked_add(elapsed).is_none() {
        return Err(ExecError::ConsumedOverflow);
    }
    let mut job = job;
    job.sub_remaining(elapsed);
    job.add_consumed(elapsed);
    proof {
        let rem = span_saturating_sub(before.remaining@, elapsed@);
        let con = before.consumed@ + elapsed@;
        lemma_span_of(rem);
        lemma_span_of(con);
        lemma_span_eq(job.remaining, span_of(rem));
        lemma_span_eq(job.consumed, span_of(con));
        assert(job == charge_of(before, elapsed@));
        assert(charged(before, job, elapsed@));
    }
    let ghost k = job;
    let r = conclude(job, status, context);
    assert(conclusion(k, status, context) == r);
    r
}

/// Tests `keeps`.
pub fn needs_context<C>(job: &Job<C>, elapsed: Span, status: &JobStatus) -> (r: bool)
    ensures
        r == keeps(*job, elapsed@, *status),
        *status is Pending && job.consumed@ + elapsed@ <= MAX_NANOS && job.remaining@ > elapsed@
            ==> r,
        !(*status is Pending) || job.consumed@ + elapsed@ > MAX_NANOS || job.remaining@
            <= elapsed@ ==> !r,
{
    match status {
        JobStatus::Pending(_) => match job.consumed.checked_add(elapsed) {
            None => false,
            Some(_) => !job.remaining.saturating_sub(elapsed).is_zero(),
        },
        _ => false,
    }
}

/// Takes in what `create_context` gave for a new job: with a context, the
/// job is running and the context is to be handed to the runtime; without
/// one, the job is cancelled and otherwise left as it was.
pub fn begin_new<C>(job: Job<C>, created: Result<C, RuntimeError>) -> (r: Result<(Job<C>, C), Job<C>>)
    ensures
        match created {
            Ok(c) => r == Ok::<(Job<C>, C), Job<C>>((running(job), c)),
            Err(_) => r == Err::<(Job<C>, C), Job<C>>(
                Job { status: JobStatus::Cancelled, ..job },
            ),
        },
{
    match created {
        Ok(c) => {
            let Job { status, consumed, remaining, contracted_at, context, id, lambda, input } = job;
            Ok(
                (
                    Job {
                        status: JobStatus::Running,
                        consumed,
                        remaining,
                        contracted_at,
                        context: None,
                        id,
                        lambda,
                        input,
                    },
                    c,
                ),
            )
        },
        Err(_) => {
            let mut job = job;
            job.cancel();
            Err(job)
        },
    }
}

/// Takes a job whose request was answered apart: the running job, its saved
/// context and the answer.
pub fn resume<C>(job: Job<C>) -> (r: (Job<C>, C, RuntimeResponse))
    requires
        job.status is Ready,
        job.context matches Some(RuntimeContext::JavaScript(_)),
    ensures
        r.0 == running(job),
        job.context == Some(RuntimeContext::JavaScript(r.1)),
        job.status == JobStatus::Ready(r.2),
{
    let Job { status, consumed, remaining, contracted_at, context, id, lambda, input } = job;
    let c = match context {
        Some(RuntimeContext::JavaScript(c)) => c,
        _ => {
            unreached()
        },
    };
    let response = match status {
        JobStatus::Ready(response) => response,
        _ => {
            unreached()
        },
    };
    (
        Job {
            status: JobStatus::Running,
            consumed,
            remaining,
            contracted_at,
            context: None,
            id,
            lambda,
            input,
        },
        c,
        response,
    )
}

/// Runs `job` once on `runtime`.
///
/// A new job gets a fresh context made from its lambda and input; a job
/// whose request was answered gets its saved context back, then the answer.
/// If no context can be made for a new job, the job is cancelled untouched
/// and the runtime is not called again.  Otherwise the runtime executes the
/// job, the job is charged with the CPU time the run took, the runtime's
/// context is asked for where the job keeps it, and the job is settled as
/// `settlement` says.  The calls made on the runtime, their order and what
/// they were handed are stated over the runtime's record of calls.
pub fn execute_job<R: Runtime>(runtime: &mut R, job: Job<R::Context>) -> (r: Result<
    Job<R::Context>,
    ExecError,
>)
    requires
        job.status is Assigned || (job.status is Ready && job.context matches Some(
            RuntimeContext::JavaScript(_),
        )),
    ensures
        final(runtime).calls().len() >= old(runtime).calls().len(),
        final(runtime).calls().take(old(runtime).calls().len() as int) == old(runtime).calls(),
        job.status is Assigned ==> exists|cr: Result<R::Context, RuntimeError>|
            #[trigger] old(runtime).creates(*job.lambda, *job.input, cr) && match cr {
                Err(_) => final(runtime).calls() == old(runtime).calls() && r == Ok::<
                    Job<R::Context>,
                    ExecError,
                >(Job { status: JobStatus::Cancelled, ..job }),
                Ok(c) => {
                    let n = old(runtime).calls().len() as int;
                    &&& final(runtime).calls().len() > n
                    &&& final(runtime).calls()[n] == RuntimeCall::SetContext(c)
                    &&& after_run(running(job), final(runtime).calls().skip(n + 1), r)
                },
            },
        job.status is Ready ==> {
            let n = old(runtime).calls().len() as int;
            &&& final(runtime).calls().len() >= n + 2
            &&& final(runtime).calls()[n] == RuntimeCall::SetContext(
                job.context->Some_0->JavaScript_0,
            )
            &&& final(runtime).calls()[n + 1] matches RuntimeCall::SetResponse(resp, res)
                && job.status == JobStatus::Ready(resp) && match res {
                Err(e) => final(runtime).calls().len() == n + 2 && r == Err::<
                    Job<R::Context>,
                    ExecError,
                >(ExecError::ResponseRejected(e)),
                Ok(()) => after_run(running(job), final(runtime).calls().skip(n + 2), r),
            }
        },
        r matches Ok(j) ==> ((job.status is Assigned && j == (Job {
            status: JobStatus::Cancelled,
            ..job
        })) || ran_to(job, j)),
{
    let ghost before = job;
    let ghost l0 = runtime.calls();
    let ghost n = l0.len() as int;
    let is_new = match job.status {
        JobStatus::Assigned => true,
        _ => false,
    };
    let ghost mut prefix: Seq<RuntimeCall<R::Context>> = Seq::empty();
    let mut running_job;
    if is_new {
        let created = runtime.create_context(&*job.lambda, &*job.input);
        let ghost cr = created;
        match begin_new(job, created) {
            Ok((j, c)) => {
                runtime.set_context(c);
                proof {
                    prefix = seq![RuntimeCall::SetContext(c)];
                }
                running_job = j;
            },
            Err(cancelled) => {
                return Ok(cancelled);
            },
        }
    } else {
        let (j, c, resp) = resume(job);
        runtime.set_context(c);
        let answered = runtime.set_runtime_response(resp);
        proof {
            prefix = seq![RuntimeCall::SetContext(c), RuntimeCall::SetResponse(resp, answered)];
        }
        match answered {
            Ok(()) => {},
            Err(e) => {
                assert(runtime.calls() =~= l0 + prefix);
                return Err(ExecError::ResponseRejected(e));
            },
        }
        running_job = j;
    }
    assert(runtime.calls() =~= l0 + prefix);
    assert(running_job == running(before));

    let start = match thread_time_now() {
        Some(t) => t,
        None => {
            assert(runtime.calls().skip(n + prefix.len()) =~= Seq::<RuntimeCall<R::Context>>::empty());
            return Err(ExecError::ClockUnavailable);
        },
    };
    let executed = runtime.execute();
    let ghost ex = executed;
    let ghost ran = seq![RuntimeCall::Execute(ex)];
    assert(runtime.calls() =~= l0 + prefix + ran);
    assert(runtime.calls().skip(n + prefix.len()) =~= ran);
    let status = match executed {
        Ok(s) => s,
        Err(e) => {
            return Err(ExecError::ExecutionFailed(e));
        },
    };
    let elapsed = match thread_time_elapsed_nanos(&start) {
        Some(nanos) => Span::from_nanos(nanos),
        None => {
            return Err(ExecError::ClockUnavailable);
        },
    };
    let keep = needs_context(&running_job, elapsed, &status);
    let context = if keep {
        runtime.get_context()
    } else {
        None
    };
    let ghost c = context;
    let ghost s = status;
    let ghost k = running_job;
    let r = settle(running_job, elapsed, status, context);
    proof {
        let tail = runtime.calls().skip(n + prefix.len());
        if keep {
            assert(tail =~= ran.push(RuntimeCall::GetContext(c)));
            assert(tail.drop_first() =~= seq![RuntimeCall::GetContext(c)]);
        } else {
            assert(tail =~= ran);
            assert(tail.drop_first() =~= Seq::<RuntimeCall<R::Context>>::empty());
        }
        assert(settled_after(k, elapsed@, s, tail.drop_first(), r));
        assert(after_run(k, tail, r));
        if r is Ok {
            let kk = choose|kk: Job<R::Context>|
                charged(k, kk, elapsed@) && #[trigger] conclusion(kk, s, c) == r;
            assert(charged(running(before), kk, elapsed@) && conclusion(kk, s, c) == r);
        }
    }
    r
}


/// A job that suspended on a request with budget left keeps the runtime's
/// context and its request; one that suspended with no budget left is
/// cancelled; a finished job keeps its output and drops its context;
/// any other status cancels the job.  Stated over the job's remaining
/// budget itself.
pub proof fn lemma_conclusion_follows_the_budget<C>(job: Job<C>, req: RuntimeRequest, out: Option<Bytes>, other: JobStatus, c: C)
    requires
        !(other is Pending),
        !(other is Finished),
    ensures
        job.remaining@ > 0 ==> conclusion(job, JobStatus::Pending(req), Some(c)) == Ok::<Job<C>, ExecError>(
            Job {
                status: JobStatus::Pending(req),
                context: Some(RuntimeContext::JavaScript(c)),
                ..job
            },
        ),
        job.remaining@ > 0 ==> conclusion(job, JobStatus::Pending(req), None) == Err::<Job<C>, ExecError>(
            ExecError::ContextMissing,
        ),
        job.remaining@ == 0 ==> conclusion(job, JobStatus::Pending(req), Some(c)) == Ok::<Job<C>, ExecError>(
            Job { status: JobStatus::Cancelled, ..job },
        ),
        conclusion(job, JobStatus::Finished(out), Some(c)) == Ok::<Job<C>, ExecError>(
            Job { status: JobStatus::Finished(out), context: None, ..job },
        ),
        conclusion(job, other, Some(c)) == Ok::<Job<C>, ExecError>(
            Job { status: JobStatus::Cancelled, ..job },
        ),
{
}

/// Settling a run charges exactly the CPU time of the run: the consumed
/// time grows by it and the budget shrinks by it (not below zero), unless
/// the consumed time would no longer fit; and a job that suspended with
/// budget left after the charge keeps the context handed back.
pub proof fn lemma_settlement_charges_the_run<C>(job: Job<C>, e: nat, status: JobStatus, context: Option<C>, req: RuntimeRequest, c: C)
    requires
        e <= MAX_NANOS,
        job.remaining@ <= MAX_NANOS,
    ensures
        job.consumed@ + e > MAX_NANOS ==> settlement(job, e, status, context) == Err::<Job<C>, ExecError>(
            ExecError::ConsumedOverflow,
        ),
        settlement(job, e, status, context) matches Ok(j) ==> j.consumed@ == job.consumed@ + e
            && j.remaining@ == (if job.remaining@ >= e {
            job.remaining@ - e
        } else {
            0
        }) && j.id == job.id && j.lambda == job.lambda && j.input == job.input,
        job.consumed@ + e <= MAX_NANOS && job.remaining@ > e ==> (settlement(
            job,
            e,
            JobStatus::Pending(req),
            Some(c),
        ) matches Ok(j) && j.status == JobStatus::Pending(req) && j.context == Some(
            RuntimeContext::JavaScript(c),
        ) && j.remaining@ == job.remaining@ - e),
        job.consumed@ + e <= MAX_NANOS && job.remaining@ <= e ==> (settlement(
            job,
            e,
            JobStatus::Pending(req),
            Some(c),
        ) matches Ok(j) && j.status is Cancelled),
{
    if job.consumed@ + e <= MAX_NANOS {
        lemma_span_of(span_saturating_sub(job.remaining@, e));
        lemma_span_of(job.consumed@ + e);
    }
}

/// After a run that suspended on a request and left the job budget, the
/// executor asks the runtime for its context (one `get_context` call follows
/// the run), and when the runtime hands one back the job is suspended with
/// it, never failed as if the runtime had none; after a run that used up
/// the budget, or did not suspend, the runtime is not asked.
pub proof fn lemma_context_is_taken_back<C>(
    job: Job<C>,
    e: nat,
    req: RuntimeRequest,
    rest: Seq<RuntimeCall<C>>,
    r: Result<Job<C>, ExecError>,
    c: C,
)
    requires
        e <= MAX_NANOS,
        job.remaining@ <= MAX_NANOS,
        job.consumed@ + e <= MAX_NANOS,
    ensures
        job.remaining@ > e ==> keeps(job, e, JobStatus::Pending(req)),
        job.remaining@ <= e ==> !keeps(job, e, JobStatus::Pending(req)),
        job.remaining@ > e && settled_after(job, e, JobStatus::Pending(req), rest, r) ==> (
        rest.len() == 1 && rest[0] is GetContext),
        job.remaining@ > e && settled_after(job, e, JobStatus::Pending(req), rest, r) && rest[0]
            == RuntimeCall::<C>::GetContext(Some(c)) ==> (r matches Ok(j) && j.status
            == JobStatus::Pending(req) && j.context == Some(RuntimeContext::JavaScript(c))),
{
    lemma_settlement_charges_the_run(job, e, JobStatus::Pending(req), Some(c), req, c);
}

} // verus!
