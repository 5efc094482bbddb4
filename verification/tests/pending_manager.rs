use bytes::Bytes;
use pleiades_worker::pending_manager::{complete, dispatch, Dispatch, Outcome, Resolution};
use pleiades_worker::pleiades_type::{Blob, Job, JobStatus};
use pleiades_worker::runtime::{blob, gpu, http, RuntimeRequest, RuntimeResponse};
use pleiades_worker::time::Span;

fn pending(req: RuntimeRequest) -> Job<()> {
    let mut j: Job<()> = Job::default();
    j.id = "j1".to_string();
    j.remaining = Span::from_millis(40);
    j.status = JobStatus::Pending(req);
    j
}

#[test]
fn blob_get_is_resolved() {
    match dispatch(pending(RuntimeRequest::Blob(blob::Request::Get("b7".to_string())))) {
        Dispatch::Resolve(j, Resolution::BlobGet(id)) => {
            assert_eq!(id, "b7");
            assert_eq!(j.status, JobStatus::Resolving);
            assert_eq!(j.id, "j1");
            assert_eq!(j.remaining.as_millis(), 40);
        }
        _ => panic!("expected a blob get"),
    }
}

#[test]
fn every_request_kind_has_its_resolution() {
    assert!(matches!(
        dispatch(pending(RuntimeRequest::Blob(blob::Request::Post(Bytes::from("d"))))),
        Dispatch::Resolve(_, Resolution::BlobPost(d)) if d == Bytes::from("d")
    ));
    assert!(matches!(
        dispatch(pending(RuntimeRequest::Gpu(gpu::Request { data: Bytes::from("g") }))),
        Dispatch::Resolve(_, Resolution::Gpu(d)) if d == Bytes::from("g")
    ));
    assert!(matches!(
        dispatch(pending(RuntimeRequest::Http(http::Request::Get("http://a".to_string())))),
        Dispatch::Resolve(_, Resolution::HttpGet(u)) if u == "http://a"
    ));
    assert!(matches!(
        dispatch(pending(RuntimeRequest::Http(http::Request::Post {
            url: "http://b".to_string(),
            body: Bytes::from("x"),
        }))),
        Dispatch::Resolve(_, Resolution::HttpPost { url, body }) if url == "http://b" && body == Bytes::from("x")
    ));
}

#[test]
fn yield_and_sleep_are_left_alone() {
    match dispatch(pending(RuntimeRequest::Yield)) {
        Dispatch::Unhandled(j) => assert_eq!(j.status, JobStatus::Pending(RuntimeRequest::Yield)),
        _ => panic!("expected unhandled"),
    }
    assert!(matches!(
        dispatch(pending(RuntimeRequest::Sleep(Span::from_millis(3)))),
        Dispatch::Unhandled(_)
    ));
}

#[test]
fn job_not_pending_is_refused() {
    let j: Job<()> = Job::default();
    match dispatch(j) {
        Dispatch::NotPending(j) => assert_eq!(j.status, JobStatus::Assigned),
        _ => panic!("expected not pending"),
    }
}

#[test]
fn completion_makes_the_job_ready_with_the_answer() {
    let b = Blob { id: "b7".to_string(), data: Bytes::from("payload") };
    let j = complete(pending(RuntimeRequest::Yield), Outcome::BlobGot(Some(b)));
    assert_eq!(
        j.status,
        JobStatus::Ready(RuntimeResponse::Blob(blob::Response::Get(Some(Blob {
            id: "b7".to_string(),
            data: Bytes::from("payload"),
        }))))
    );
    assert_eq!(j.id, "j1");
    let j = complete(pending(RuntimeRequest::Yield), Outcome::HttpPosted(None));
    assert_eq!(j.status, JobStatus::Ready(RuntimeResponse::Http(http::Response::Post(None))));
    let j = complete(pending(RuntimeRequest::Yield), Outcome::HttpGot(Some(Bytes::from("ok"))));
    assert_eq!(
        j.status,
        JobStatus::Ready(RuntimeResponse::Http(http::Response::Get(Some(Bytes::from("ok")))))
    );
}

#[test]
fn resolved_job_answers_its_request() {
    let req = RuntimeRequest::Blob(blob::Request::Post(Bytes::from("up")));
    let j = match dispatch(pending(req)) {
        Dispatch::Resolve(j, Resolution::BlobPost(_)) => j,
        _ => panic!("expected a blob post"),
    };
    let stored = Blob { id: "new".to_string(), data: Bytes::from("up") };
    let j = complete(j, Outcome::BlobPosted(stored));
    assert!(matches!(
        j.status,
        JobStatus::Ready(RuntimeResponse::Blob(blob::Response::Post(ref b))) if b.id == "new"
    ));
    assert_eq!(j.remaining.as_millis(), 40);
}
