use pleiades_worker::metric::Metric;
use pleiades_worker::request_metrics::{request_row, rps_row, RequestMetrics};
use pleiades_worker::runtime_metrics::{metric_row, RuntimeMetrics};
use pleiades_worker::system_metrics::{get_ctx_switch, SystemMetrics};
use pleiades_worker::time::Span;

fn metric(id: &str, runtime: &str, status: &str, start_ms: u64, end_ms: u64) -> Metric {
    Metric {
        id: id.to_string(),
        runtime: runtime.to_string(),
        status: status.to_string(),
        start: Span::from_millis(start_ms),
        end: Span::from_millis(end_ms),
        elapsed: Span::from_millis(end_ms - start_ms),
        consumed: Span::from_micros(1500),
    }
}

#[test]
fn request_row_format() {
    let m = metric("j1", "js", "Finished", 1_000, 1_250);
    assert_eq!(request_row(&m, Span::from_millis(500)).as_str(), "j1,750000,Finished,250000,1500\n");
    assert_eq!(rps_row(3, 17, 2040).as_str(), "3,17,2040\n");
}

#[test]
fn early_jobs_are_skipped() {
    let mut r = RequestMetrics::new(Span::from_secs(10), Span::from_secs(10));
    let m = metric("j0", "js", "Finished", 9_000, 11_000);
    let o = r.observe(&m, Span::from_secs(11));
    assert!(o.line.is_none() && o.rps_line.is_none() && !o.flush);
    assert_eq!(r.finished, 0);
    assert_eq!(r.summary(), (Span::zero(), 0, 0, 0));
}

#[test]
fn requests_are_counted_in_windows() {
    let mut r = RequestMetrics::new(Span::from_secs(10), Span::from_secs(10));
    let o = r.observe(&metric("a", "js", "Finished", 10_100, 10_300), Span::from_millis(10_300));
    assert_eq!(o.line.unwrap(), "a,300000,Finished,200000,1500\n");
    assert!(o.rps_line.is_none());
    let o = r.observe(&metric("b", "js", "Canceled", 10_200, 10_600), Span::from_millis(10_600));
    assert!(o.rps_line.is_none());
    let o = r.observe(&metric("c", "js", "Finished", 10_050, 10_900), Span::from_millis(11_000));
    // the window closes: 3 requests, (200 + 400 + 850) ms / 3 = 483333 us
    assert_eq!(o.rps_line.unwrap(), "1,3,483333\n");
    assert_eq!(r.current_rps, 0);
    assert_eq!(r.max_rps, 3);
    assert_eq!(r.current_instant, Span::from_millis(11_000));
    let (elapsed, finished, canceled, max_rps) = r.summary();
    assert_eq!(elapsed.as_millis(), 850);
    assert_eq!((finished, canceled, max_rps), (2, 1, 3));
}

#[test]
fn tables_are_flushed_every_thousand_requests() {
    let mut r = RequestMetrics::new(Span::zero(), Span::zero());
    let m = metric("x", "js", "Other", 0, 1);
    for i in 0..999 {
        assert!(!r.observe(&m, Span::zero()).flush, "at {i}");
    }
    assert!(r.observe(&m, Span::zero()).flush);
    assert_eq!(r.count, 0);
    assert_eq!((r.finished, r.canceled), (0, 0));
}

#[test]
fn can_observe_checks_the_totals() {
    let mut r = RequestMetrics::new(Span::zero(), Span::zero());
    let m = metric("x", "js", "Finished", 0, 1);
    assert!(r.can_observe(&m));
    r.finished = u64::MAX;
    assert!(!r.can_observe(&m));
}

#[test]
fn runtime_totals_accumulate() {
    let mut r = RuntimeMetrics::new();
    let line = r.observe(&metric("a", "js+fib", "Finished", 0, 120));
    assert_eq!(line, "a,js+fib,Finished,120,1\n");
    r.observe(&metric("b", "js+gpu", "Canceled", 50, 80));
    r.observe(&metric("c", "js+fib", "Finished", 10, 40));
    assert_eq!(r.totals.len(), 2);
    assert_eq!(r.totals[0].runtime, "js+fib");
    assert_eq!((r.totals[0].count, r.totals[0].elapsed_ms, r.totals[0].consumed_ms), (2, 150, 2));
    assert_eq!(r.totals[1].runtime, "js+gpu");
    assert_eq!((r.totals[1].count, r.totals[1].elapsed_ms), (1, 30));
    let (elapsed, finished, canceled) = r.summary();
    assert_eq!(elapsed.as_millis(), 120);
    assert_eq!((finished, canceled), (2, 1));
    assert_eq!(metric_row(&metric("d", "js", "x", 0, 0)), "d,js,x,0,1\n");
}

#[test]
fn runtime_totals_refuse_overflow() {
    let mut r = RuntimeMetrics::new();
    let m = metric("a", "js", "Finished", 0, 1);
    r.observe(&m);
    assert!(r.can_observe(&m));
    r.totals[0].count = u32::MAX;
    assert!(!r.can_observe(&m));
    assert!(r.can_observe(&metric("b", "py", "Finished", 0, 1)));
}

#[test]
fn context_switches_add_up() {
    assert_eq!(get_ctx_switch(&vec![(3, 4), (10, 1), (0, 0)]), (13, 5));
    assert_eq!(get_ctx_switch(&vec![]), (0, 0));
}

#[test]
fn system_samples_report_differences() {
    let mut s = SystemMetrics::new(100, 10);
    assert!(s.can_sample(130, 15, 2));
    let (line, flush) = s.sample(130, 15, 42, 2);
    assert_eq!(line, "0,42,35,30,5\n");
    assert!(!flush);
    let (line, _) = s.sample(131, 15, 7, 2);
    assert_eq!(line, "2,7,1,1,0\n");
    assert!(!s.can_sample(100, 15, 2));
}

#[test]
fn system_samples_start_over_after_five_hundred() {
    let mut s = SystemMetrics::new(0, 0);
    for _ in 0..499 {
        assert!(!s.sample(0, 0, 0, 1).1);
    }
    let (line, flush) = s.sample(0, 0, 0, 1);
    assert_eq!(line, "499,0,0,0,0\n");
    assert!(flush);
    assert_eq!(s.counter, 0);
}

#[test]
fn skipped_metrics_need_no_room() {
    let mut r = RequestMetrics::new(Span::from_secs(10), Span::from_secs(10));
    r.finished = u64::MAX;
    r.canceled = u64::MAX;
    let early = metric("e", "js", "Finished", 1_000, 2_000);
    assert!(r.can_observe(&early));
    assert!(r.observe(&early, Span::from_secs(11)).line.is_none());
    let late = metric("l", "js", "Finished", 10_500, 10_600);
    assert!(!r.can_observe(&late));
    r.finished = 0;
    assert!(r.can_observe(&late));
    let other = metric("o", "js", "Other", 10_500, 10_600);
    r.finished = u64::MAX;
    assert!(r.can_observe(&other));
}

#[test]
fn only_the_counter_that_grows_needs_room() {
    let mut r = RuntimeMetrics::new();
    r.canceled = u64::MAX;
    assert!(r.can_observe(&metric("a", "js", "Finished", 0, 1)));
    assert!(!r.can_observe(&metric("b", "js", "Canceled", 0, 1)));
    r.observe(&metric("a", "js", "Finished", 0, 1));
    assert_eq!(r.finished, 1);
}
