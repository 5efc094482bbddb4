use pleiades_worker::contractor::{after_contract_id, contracted_job, ContractNext};
use pleiades_worker::pleiades_type::{Blob, Job, JobStatus, Lambda};
use pleiades_worker::time::Span;

fn blob(id: &str, data: &'static str) -> Blob {
    Blob { id: id.to_string(), data: bytes::Bytes::from(data) }
}

#[test]
fn defaults_are_named_default() {
    let b = Blob::default();
    assert_eq!(b.id, "default");
    assert_eq!(&b.data[..], b"default");
    let l = Lambda::default();
    assert_eq!(l.id, "default");
    assert_eq!(l.runtime, "default");
    assert_eq!(l.code, Blob::default());
    let j: Job<()> = Job::default();
    assert_eq!(j.status, JobStatus::Assigned);
    assert_eq!(j.consumed, Span::zero());
    assert_eq!(j.remaining, Span::zero());
    assert!(j.context.is_none());
    assert_eq!(j.id, "default");
    assert_eq!(*j.input, Blob::default());
}

#[test]
fn sub_remaining_stops_at_zero() {
    let mut j: Job<()> = Job::default();
    j.remaining = Span::from_millis(100);
    j.sub_remaining(Span::from_millis(30));
    assert_eq!(j.remaining.as_millis(), 70);
    assert!(!j.is_timeout());
    j.sub_remaining(Span::from_millis(500));
    assert_eq!(j.remaining, Span::zero());
    assert!(j.is_timeout());
}

#[test]
fn budget_runs_out_exactly_at_remaining() {
    let mut j: Job<()> = Job::default();
    j.remaining = Span::from_millis(100);
    j.sub_remaining(Span::from_millis(100));
    assert!(j.is_timeout());
}

#[test]
fn add_consumed_accumulates() {
    let mut j: Job<()> = Job::default();
    j.add_consumed(Span::from_millis(5));
    j.add_consumed(Span::from_millis(7));
    assert_eq!(j.consumed.as_millis(), 12);
}

#[test]
fn cancel_then_is_cancelled() {
    let mut j: Job<()> = Job::default();
    assert!(!j.is_cancelled());
    j.remaining = Span::from_millis(9);
    j.cancel();
    assert!(j.is_cancelled());
    assert_eq!(j.status, JobStatus::Cancelled);
    assert_eq!(j.remaining.as_millis(), 9);
}

#[test]
fn contracted_job_is_assigned_with_fetched_parts() {
    let j: Job<()> = contracted_job(
        "job-1".to_string(),
        "lambda-1".to_string(),
        "pleiades+example".to_string(),
        blob("code", "console.log(1)"),
        blob("in", "input"),
    );
    assert_eq!(j.status, JobStatus::Assigned);
    assert_eq!(j.id, "job-1");
    assert_eq!(j.lambda.id, "lambda-1");
    assert_eq!(j.lambda.runtime, "pleiades+example");
    assert_eq!(j.lambda.code, blob("code", "console.log(1)"));
    assert_eq!(*j.input, blob("in", "input"));
    assert_eq!(j.consumed, Span::zero());
    assert_eq!(j.remaining, Span::zero());
    assert!(j.context.is_none());
}

#[test]
fn contract_answer_decides_the_next_step() {
    assert_eq!(after_contract_id(None), ContractNext::NoJob);
    assert_eq!(after_contract_id(Some("j2".to_string())), ContractNext::Fetch("j2".to_string()));
}
