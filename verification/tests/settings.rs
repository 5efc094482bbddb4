use pleiades_worker::config::{parse_policy, ConfigMeasure, Policy, RunConfig};
use pleiades_worker::placement::{
    parse_affinity_mode, place_thread, place_thread_numbered, AffinityMode, Placement,
};
use pleiades_worker::time::Span;

#[test]
fn policies_by_name() {
    assert_eq!(parse_policy(&"cooperative".to_string()), Some(Policy::Cooperative));
    assert_eq!(parse_policy(&"blocking".to_string()), Some(Policy::Blocking));
    assert_eq!(parse_policy(&"cooperative_pipeline".to_string()), Some(Policy::Cooperative));
    assert_eq!(parse_policy(&"fifo".to_string()), None);
}

#[test]
fn run_config_defaults() {
    let c = RunConfig::default();
    assert_eq!((c.num_contractors, c.num_executors, c.num_cpus, c.affinity_mode), (1, 1, 1, 0));
    assert_eq!(c.policy, "cooperative");
    assert_eq!(c.exec_deadline.as_millis(), 300);
    assert_eq!(c.job_deadline.as_millis(), 100);
    assert_eq!(c.cpu_usage_freq.as_secs(), 1);
}

#[test]
fn measurement_length() {
    let m = ConfigMeasure { start_rps: 10, final_rps: 100, steps: 10, step_time: Span::from_secs(30) };
    assert_eq!(m.total_time().unwrap().as_secs(), 300);
    let m = ConfigMeasure { start_rps: 1, final_rps: 1, steps: 3, step_time: Span::from_secs(u64::MAX) };
    assert!(m.total_time().is_none());
}

#[test]
fn affinity_modes_by_name() {
    assert_eq!(parse_affinity_mode(&"none".to_string()), Some(AffinityMode::Unpinned));
    assert_eq!(parse_affinity_mode(&"unfixed".to_string()), Some(AffinityMode::Unfixed));
    assert_eq!(parse_affinity_mode(&"fixed".to_string()), Some(AffinityMode::Fixed));
    assert_eq!(parse_affinity_mode(&"pinned".to_string()), None);
}

#[test]
fn threads_are_placed_in_start_order() {
    // 4 runtime workers, then 3 executors on 2 executor cores
    assert_eq!(place_thread(AffinityMode::Fixed, 0, 4, 3, 2), Placement::Worker(vec![8, 9, 20, 21]));
    assert_eq!(place_thread(AffinityMode::Fixed, 4, 4, 3, 2), Placement::ExecutorOn(0));
    assert_eq!(place_thread(AffinityMode::Fixed, 5, 4, 3, 2), Placement::ExecutorOn(1));
    assert_eq!(place_thread(AffinityMode::Fixed, 6, 4, 3, 2), Placement::ExecutorOn(0));
    assert_eq!(place_thread(AffinityMode::Fixed, 7, 4, 3, 2), Placement::Stay);
    assert_eq!(place_thread(AffinityMode::Unfixed, 5, 4, 3, 2), Placement::Executor(vec![0, 1]));
    assert_eq!(place_thread(AffinityMode::Unpinned, 0, 4, 3, 2), Placement::Stay);
}

#[test]
fn numbered_modes_place_threads() {
    // 8 cores, 6 runtime workers, 2 executors on 2 cores
    assert_eq!(place_thread_numbered(0, 0, 8, 6, 2, 2), Some(Placement::Stay));
    assert_eq!(place_thread_numbered(1, 0, 8, 6, 2, 2), Some(Placement::Worker(vec![2, 3, 4, 5, 6, 7])));
    assert_eq!(place_thread_numbered(1, 6, 8, 6, 2, 2), Some(Placement::Executor(vec![0, 1])));
    assert_eq!(place_thread_numbered(1, 8, 8, 6, 2, 2), Some(Placement::Stay));
    assert_eq!(place_thread_numbered(2, 0, 8, 6, 2, 2), Some(Placement::WorkerOn(7)));
    assert_eq!(place_thread_numbered(2, 5, 8, 6, 2, 2), Some(Placement::WorkerOn(2)));
    assert_eq!(place_thread_numbered(2, 7, 8, 6, 2, 2), Some(Placement::ExecutorOn(1)));
    assert_eq!(place_thread_numbered(3, 0, 8, 6, 2, 2), None);
}
