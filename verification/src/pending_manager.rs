use crate::executor::{lemma_run_outcomes, ran_to};
use crate::pleiades_type::{Blob, Job, JobStatus};
use crate::runtime::RuntimeContext;
use crate::runtime::{blob, gpu, http, RuntimeRequest, RuntimeResponse};
use bytes::Bytes;
use vstd::prelude::*;

verus! {

/// The outside work that the pending manager starts for a suspended job.
#[derive(Debug)]
pub enum Resolution {
    /// Fetch the blob with this id.
    BlobGet(String),
    /// Store this data as a new blob.
    BlobPost(Bytes),
    /// Run this data on the GPU.
    Gpu(Bytes),
    /// Send a GET request to this url.
    HttpGet(String),
    /// Send a POST request with this body to this url.
    HttpPost { url: String, body: Bytes },
}

/// What the pending manager does with a job it is handed.
#[derive(Debug)]
pub enum Dispatch<C> {
    /// The job did not wait on any request: it is not the manager's to take.
    NotPending(Job<C>),
    /// The job waits on a request that has no handler here; it is left as it was.
    Unhandled(Job<C>),
    /// The request is being resolved: the job, now marked resolving, and the
    /// work to do for it.
    Resolve(Job<C>, Resolution),
}

/// The resolution that carries out `request`, where there is one.
pub open spec fn resolution_of(request: RuntimeRequest) -> Option<Resolution> {
    match request {
        RuntimeRequest::Blob(blob::Request::Get(id)) => Some(Resolution::BlobGet(id)),
        RuntimeRequest::Blob(blob::Request::Post(data)) => Some(Resolution::BlobPost(data)),
        RuntimeRequest::Gpu(gpu::Request { data }) => Some(Resolution::Gpu(data)),
        RuntimeRequest::Http(http::Request::Get(url)) => Some(Resolution::HttpGet(url)),
        RuntimeRequest::Http(http::Request::Post { url, body }) => Some(
            Resolution::HttpPost { url, body },
        ),
        _ => None,
    }
}

/// The dispatch of `job`: see `Dispatch`.
pub open spec fn dispatch_of<C>(job: Job<C>) -> Dispatch<C> {
    match job.status {
        JobStatus::Pending(request) => match resolution_of(request) {
            Some(res) => Dispatch::Resolve(Job { status: JobStatus::Resolving, ..job }, res),
            None => Dispatch::Unhandled(job),
        },
        _ => Dispatch::NotPending(job),
    }
}

/// Decides what to do with a job handed to the pending manager.
pub fn dispatch<C>(job: Job<C>) -> (r: Dispatch<C>)
    ensures
        r == dispatch_of(job),
{
    let Job { status, consumed, remaining, contracted_at, context, id, lambda, input } = job;
    let request = match status {
        JobStatus::Pending(request) => request,
        other => {
            return Dispatch::NotPending(
                Job { status: other, consumed, remaining, contracted_at, context, id, lambda, input },
            );
        },
    };
    let res = match request {
        RuntimeRequest::Blob(blob::Request::Get(blob_id)) => Resolution::BlobGet(blob_id),
        RuntimeRequest::Blob(blob::Request::Post(data)) => Resolution::BlobPost(data),
        RuntimeRequest::Gpu(gpu::Request { data }) => Resolution::Gpu(data),
        RuntimeRequest::Http(http::Request::Get(url)) => Resolution::HttpGet(url),
        RuntimeRequest::Http(http::Request::Post { url, body }) => Resolution::HttpPost {
            url,
            body,
        },
        other => {
            return Dispatch::Unhandled(
                Job {
                    status: JobStatus::Pending(other),
                    consumed,
                    remaining,
                    contracted_at,
                    context,
                    id,
                    lambda,
                    input,
                },
            );
        },
    };
    Dispatch::Resolve(
        Job {
            status: JobStatus::Resolving,
            consumed,
            remaining,
            contracted_at,
            context,
            id,
            lambda,
            input,
        },
        res,
    )
}

/// What came back from the outside work of a resolution.
#[derive(Debug)]
pub enum Outcome {
    /// The fetched blob, or `None` where it was not found.
    BlobGot(Option<Blob>),
    /// The newly stored blob.
    BlobPosted(Blob),
    /// The body of the GET response, or `None` where the request failed.
    HttpGot(Option<Bytes>),
    /// The body of the POST response, or `None` where the request failed.
    HttpPosted(Option<Bytes>),
}

/// The answer that `outcome` makes for the job.
pub open spec fn response_of(outcome: Outcome) -> RuntimeResponse {
    match outcome {
        Outcome::BlobGot(b) => RuntimeResponse::Blob(blob::Response::Get(b)),
        Outcome::BlobPosted(b) => RuntimeResponse::Blob(blob::Response::Post(b)),
        Outcome::HttpGot(b) => RuntimeResponse::Http(http::Response::Get(b)),
        Outcome::HttpPosted(b) => RuntimeResponse::Http(http::Response::Post(b)),
    }
}

/// Hands the outcome of its request to a job: the job becomes ready with
/// the matching answer; nothing else about it changes.
pub fn complete<C>(job: Job<C>, outcome: Outcome) -> (r: Job<C>)
    ensures
        r == (Job { status: JobStatus::Ready(response_of(outcome)), ..job }),
        match outcome {
            Outcome::BlobGot(b) => r.status == JobStatus::Ready(
                RuntimeResponse::Blob(blob::Response::Get(b)),
            ),
            Outcome::BlobPosted(b) => r.status == JobStatus::Ready(
                RuntimeResponse::Blob(blob::Response::Post(b)),
            ),
            Outcome::HttpGot(b) => r.status == JobStatus::Ready(
                RuntimeResponse::Http(http::Response::Get(b)),
            ),
            Outcome::HttpPosted(b) => r.status == JobStatus::Ready(
                RuntimeResponse::Http(http::Response::Post(b)),
            ),
        },
{
    let response = match outcome {
        Outcome::BlobGot(b) => RuntimeResponse::Blob(blob::Response::Get(b)),
        Outcome::BlobPosted(b) => RuntimeResponse::Blob(blob::Response::Post(b)),
        Outcome::HttpGot(b) => RuntimeResponse::Http(http::Response::Get(b)),
        Outcome::HttpPosted(b) => RuntimeResponse::Http(http::Response::Post(b)),
    };
    let mut job = job;
    job.status = JobStatus::Ready(response);
    job
}

/// `outcome` is of the kind that `res` produces.
pub open spec fn answers(res: Resolution, outcome: Outcome) -> bool {
    match res {
        Resolution::BlobGet(_) => outcome is BlobGot,
        Resolution::BlobPost(_) => outcome is BlobPosted,
        Resolution::HttpGet(_) => outcome is HttpGot,
        Resolution::HttpPost { .. } => outcome is HttpPosted,
        Resolution::Gpu(_) => false,
    }
}

/// `response` is an answer of the kind that `request` asks for.
pub open spec fn responds_to(request: RuntimeRequest, response: RuntimeResponse) -> bool {
    match request {
        RuntimeRequest::Blob(blob::Request::Get(_)) => response matches RuntimeResponse::Blob(
            blob::Response::Get(_),
        ),
        RuntimeRequest::Blob(blob::Request::Post(_)) => response matches RuntimeResponse::Blob(
            blob::Response::Post(_),
        ),
        RuntimeRequest::Http(http::Request::Get(_)) => response matches RuntimeResponse::Http(
            http::Response::Get(_),
        ),
        RuntimeRequest::Http(http::Request::Post { .. }) => response matches RuntimeResponse::Http(
            http::Response::Post(_),
        ),
        _ => false,
    }
}

/// A job that waited on a request, was dispatched, and was completed with an
/// outcome of the kind its resolution produces, is ready again with an
/// answer of the kind its request asked for, and is otherwise the job it was.
pub proof fn lemma_resolved_job_answers_its_request<C>(job: Job<C>, outcome: Outcome)
    requires
        job.status is Pending,
        dispatch_of(job) matches Dispatch::Resolve(_, res) && answers(res, outcome),
    ensures
        dispatch_of(job) matches Dispatch::Resolve(j, _) && ({
            let done = (Job { status: JobStatus::Ready(response_of(outcome)), ..j });
            &&& done.status matches JobStatus::Ready(resp) && responds_to(
                job.status->Pending_0,
                resp,
            )
            &&& done == (Job { status: done.status, ..job })
        }),
{
}

/// The pipeline closes: a job that a run left waiting on a request, once
/// the pending manager has resolved that request and handed back the
/// outcome, is ready with its saved context, which is what the executor
/// accepts to run it again.
pub proof fn lemma_resolved_job_can_run_again<C>(job: Job<C>, r: Job<C>, outcome: Outcome)
    requires
        ran_to(job, r),
        r.status is Pending,
        dispatch_of(r) matches Dispatch::Resolve(_, res) && answers(res, outcome),
    ensures
        dispatch_of(r) matches Dispatch::Resolve(j, _) && ({
            let back = (Job { status: JobStatus::Ready(response_of(outcome)), ..j });
            &&& back.status is Ready
            &&& back.context matches Some(RuntimeContext::JavaScript(_))
            &&& back.id == job.id
            &&& back.consumed == r.consumed
            &&& back.remaining == r.remaining
        }),
{
    lemma_run_outcomes(job, r);
}


/// The answer handed back to a job carries what its outside work produced,
/// unchanged: the fetched or stored blob, or the HTTP response body (or its
/// absence), in the answer of the matching kind.
pub proof fn lemma_answer_carries_the_outcome(
    got: Option<Blob>,
    posted: Blob,
    get_body: Option<Bytes>,
    post_body: Option<Bytes>,
)
    ensures
        response_of(Outcome::BlobGot(got)) == RuntimeResponse::Blob(blob::Response::Get(got)),
        response_of(Outcome::BlobPosted(posted)) == RuntimeResponse::Blob(
            blob::Response::Post(posted),
        ),
        response_of(Outcome::HttpGot(get_body)) == RuntimeResponse::Http(
            http::Response::Get(get_body),
        ),
        response_of(Outcome::HttpPosted(post_body)) == RuntimeResponse::Http(
            http::Response::Post(post_body),
        ),
{
}

} // verus!
