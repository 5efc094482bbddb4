use pleiades_worker::executor::{begin_new, conclude, execute_job, needs_context, resume, settle, ExecError};
use pleiades_worker::pending_manager::{complete, dispatch, Dispatch, Outcome};
use pleiades_worker::pleiades_type::{Blob, Job, JobStatus, Lambda};
use pleiades_worker::runtime::scripted::ScriptedRuntime;
use pleiades_worker::runtime::{
    blob, http, Context, Runtime, RuntimeContext, RuntimeError, RuntimeRequest, RuntimeResponse,
};
use pleiades_worker::time::Span;

#[derive(Debug, PartialEq, Clone, Copy)]
struct Ctx(u32);

impl Context for Ctx {
    fn init() -> Self {
        Ctx(0)
    }
}

type Mock = ScriptedRuntime<Ctx>;

fn mock(execute: Option<JobStatus>) -> Mock {
    let mut rt = Mock::init();
    rt.new_context = Some(Ctx(1));
    if let Some(s) = execute {
        rt.statuses.push(s);
    }
    rt
}

fn job(remaining_ms: u64) -> Job<Ctx> {
    let mut j: Job<Ctx> = Job::default();
    j.remaining = Span::from_millis(remaining_ms);
    j
}

fn pending_get() -> JobStatus {
    JobStatus::Pending(RuntimeRequest::Blob(blob::Request::Get("b1".to_string())))
}

#[test]
fn finished_job_keeps_output_and_drops_context() {
    let mut rt = mock(Some(JobStatus::Finished(Some(bytes::Bytes::from("out")))));
    let j = execute_job(&mut rt, job(1000)).unwrap();
    assert_eq!(j.status, JobStatus::Finished(Some(bytes::Bytes::from("out"))));
    assert!(j.context.is_none());
    assert!(j.remaining.as_nanos() <= 1_000_000_000);
    assert_eq!(
        j.consumed.as_nanos() + j.remaining.as_nanos(),
        1_000_000_000u128.max(j.consumed.as_nanos())
    );
}

#[test]
fn pending_job_with_budget_keeps_context() {
    let mut rt = mock(Some(pending_get()));
    let j = execute_job(&mut rt, job(60_000)).unwrap();
    assert_eq!(j.status, pending_get());
    assert!(matches!(j.context, Some(RuntimeContext::JavaScript(Ctx(1)))));
}

#[test]
fn pending_job_without_budget_is_cancelled() {
    let mut rt = mock(Some(pending_get()));
    let j = execute_job(&mut rt, job(0)).unwrap();
    assert_eq!(j.status, JobStatus::Cancelled);
    assert!(j.context.is_none());
}

#[test]
fn other_status_is_cancelled() {
    let mut rt = mock(Some(JobStatus::Running));
    let j = execute_job(&mut rt, job(60_000)).unwrap();
    assert_eq!(j.status, JobStatus::Cancelled);
}

#[test]
fn context_failure_cancels_untouched_job() {
    let mut rt = mock(Some(JobStatus::Finished(None)));
    rt.new_context = None;
    let j = execute_job(&mut rt, job(500)).unwrap();
    assert_eq!(j.status, JobStatus::Cancelled);
    assert_eq!(j.remaining.as_millis(), 500);
    assert_eq!(j.consumed, Span::zero());
}

#[test]
fn ready_job_gets_context_and_response_back() {
    let mut rt = mock(Some(JobStatus::Finished(None)));
    let mut j = job(60_000);
    j.status = JobStatus::Ready(RuntimeResponse::Http(http::Response::Get(None)));
    j.context = Some(RuntimeContext::JavaScript(Ctx(7)));
    let j = execute_job(&mut rt, j).unwrap();
    assert_eq!(j.status, JobStatus::Finished(None));
    assert_eq!(rt.responses, vec![RuntimeResponse::Http(http::Response::Get(None))]);
    assert_eq!(rt.held, Some(Ctx(7)));
}

#[test]
fn errors_of_the_runtime_are_reported() {
    let mut rt = mock(Some(JobStatus::Finished(None)));
    rt.accepts_responses = false;
    let mut j = job(60_000);
    j.status = JobStatus::Ready(RuntimeResponse::Sleep);
    j.context = Some(RuntimeContext::JavaScript(Ctx(7)));
    assert!(matches!(execute_job(&mut rt, j), Err(ExecError::ResponseRejected(_))));

    let mut rt = mock(None);
    assert!(matches!(execute_job(&mut rt, job(60_000)), Err(ExecError::ExecutionFailed(_))));

    let mut rt = mock(Some(pending_get()));
    rt.keeps_context = false;
    assert!(matches!(execute_job(&mut rt, job(60_000)), Err(ExecError::ContextMissing)));
}

#[test]
fn conclude_follows_the_status() {
    let mut running = job(10);
    running.status = JobStatus::Running;
    let j = conclude(running, JobStatus::Finished(None), None).unwrap();
    assert_eq!(j.status, JobStatus::Finished(None));

    let j = conclude(job(10), pending_get(), Some(Ctx(3))).unwrap();
    assert_eq!(j.status, pending_get());
    assert!(matches!(j.context, Some(RuntimeContext::JavaScript(Ctx(3)))));

    assert!(matches!(conclude(job(10), pending_get(), None), Err(ExecError::ContextMissing)));

    let j = conclude(job(0), pending_get(), Some(Ctx(3))).unwrap();
    assert_eq!(j.status, JobStatus::Cancelled);

    let j = conclude(job(10), JobStatus::Resolving, None).unwrap();
    assert_eq!(j.status, JobStatus::Cancelled);
}

#[test]
fn resolved_job_can_run_again() {
    let mut rt = mock(Some(pending_get()));
    let j = execute_job(&mut rt, job(60_000)).unwrap();
    let j = match dispatch(j) {
        Dispatch::Resolve(j, _) => j,
        _ => panic!("expected a resolution"),
    };
    let j = complete(j, Outcome::BlobGot(None));
    assert!(matches!(j.status, JobStatus::Ready(_)));
    assert!(matches!(j.context, Some(RuntimeContext::JavaScript(_))));
    rt.statuses.push(JobStatus::Finished(None));
    let j = execute_job(&mut rt, j).unwrap();
    assert_eq!(j.status, JobStatus::Finished(None));
    assert_eq!(rt.responses, vec![RuntimeResponse::Blob(blob::Response::Get(None))]);
}

#[test]
fn settle_charges_then_concludes() {
    let mut j = job(100);
    j.status = JobStatus::Running;
    let done = settle(j, Span::from_millis(30), JobStatus::Finished(None), None).unwrap();
    assert_eq!(done.remaining.as_millis(), 70);
    assert_eq!(done.consumed.as_millis(), 30);
    assert_eq!(done.status, JobStatus::Finished(None));

    let j = settle(job(100), Span::from_millis(30), pending_get(), Some(Ctx(4))).unwrap();
    assert_eq!(j.status, pending_get());
    assert!(matches!(j.context, Some(RuntimeContext::JavaScript(Ctx(4)))));

    let j = settle(job(100), Span::from_millis(100), pending_get(), Some(Ctx(4))).unwrap();
    assert_eq!(j.status, JobStatus::Cancelled);
    assert_eq!(j.remaining, Span::zero());

    let j = settle(job(100), Span::zero(), JobStatus::Finished(None), None).unwrap();
    assert_eq!(j.consumed, Span::zero());

    let mut full = job(100);
    full.consumed = Span::from_nanos(pleiades_worker::time::MAX_NANOS);
    assert!(matches!(
        settle(full, Span::from_nanos(1), JobStatus::Finished(None), None),
        Err(ExecError::ConsumedOverflow)
    ));
}

#[test]
fn context_is_kept_only_for_suspended_jobs_with_budget() {
    assert!(needs_context(&job(100), Span::from_millis(30), &pending_get()));
    assert!(!needs_context(&job(100), Span::from_millis(100), &pending_get()));
    assert!(!needs_context(&job(100), Span::from_millis(30), &JobStatus::Finished(None)));
}

#[test]
fn new_and_resumed_jobs_are_taken_apart() {
    let (j, c) = begin_new(job(5), Ok(Ctx(2))).ok().unwrap();
    assert_eq!(j.status, JobStatus::Running);
    assert_eq!(c, Ctx(2));
    let j = begin_new(job(5), Err(RuntimeError { message: "x".to_string() })).err().unwrap();
    assert_eq!(j.status, JobStatus::Cancelled);
    assert_eq!(j.remaining.as_millis(), 5);

    let mut r = job(5);
    r.status = JobStatus::Ready(RuntimeResponse::Sleep);
    r.context = Some(RuntimeContext::JavaScript(Ctx(8)));
    let (j, c, resp) = resume(r);
    assert_eq!(j.status, JobStatus::Running);
    assert!(j.context.is_none());
    assert_eq!(c, Ctx(8));
    assert_eq!(resp, RuntimeResponse::Sleep);
}
