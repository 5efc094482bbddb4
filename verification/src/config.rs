use crate::time::Span;
use vstd::prelude::*;

verus! {

/// The settings of a worker.
#[derive(Debug)]
pub struct WorkerConfig {
    pub num_executors: usize,
    pub num_executor_cores: usize,
    pub num_general_cores: usize,
    pub hyperthreads_executor: bool,
    pub affinity_mode: String,
    pub policy: String,
    pub sys_metrics_freq: Span,
    pub warmup: ConfigWarmup,
    pub measure: ConfigMeasure,
}

/// The warm-up phase: how long it lasts and at what request rate.
#[derive(Debug)]
pub struct ConfigWarmup {
    pub time: Span,
    pub rps: u32,
}

/// The measurement phase: request rates stepped from `start_rps` to
/// `final_rps` in `steps` steps of `step_time` each.
#[derive(Debug)]
pub struct ConfigMeasure {
    pub start_rps: u32,
    pub final_rps: u32,
    pub steps: u32,
    pub step_time: Span,
}

impl ConfigMeasure {
    /// How long the measurement lasts: `steps` times `step_time`, or `None`
    /// where that does not fit in a span.
    pub fn total_time(&self) -> (r: Option<Span>)
        ensures
            r matches Some(t) ==> t@ == self.step_time@ * self.steps,
            r is None <==> self.step_time@ * self.steps > crate::time::MAX_NANOS,
    {
        self.step_time.checked_mul(self.steps)
    }
}

/// How local schedulers hand jobs to their executors.
#[derive(Debug, Clone, Copy, PartialEq, Eq, Structural)]
pub enum Policy {
    Cooperative,
    Blocking,
}

/// The policy named `name`: `cooperative` (also written
/// `cooperative_pipeline`, as in the documented example configuration) or
/// `blocking`.
pub fn parse_policy(name: &String) -> (r: Option<Policy>)
    ensures
        name@ == "cooperative"@ ==> r == Some(Policy::Cooperative),
        name@ == "cooperative_pipeline"@ ==> r == Some(Policy::Cooperative),
        name@ == "blocking"@ ==> r == Some(Policy::Blocking),
        name@ != "cooperative"@ && name@ != "cooperative_pipeline"@ && name@ != "blocking"@
            ==> r is None,
{
    proof {
        reveal_strlit("cooperative");
        reveal_strlit("cooperative_pipeline");
        reveal_strlit("blocking");
        assert("blocking"@[0] != "cooperative"@[0]);
        assert("blocking"@[0] != "cooperative_pipeline"@[0]);
        assert("cooperative"@.len() != "cooperative_pipeline"@.len());
    }
    if *name == String::from_str("cooperative") || *name == String::from_str(
        "cooperative_pipeline",
    ) {
        Some(Policy::Cooperative)
    } else if *name == String::from_str("blocking") {
        Some(Policy::Blocking)
    } else {
        None
    }
}

/// The settings of the stand-alone worker program.
#[derive(Debug)]
pub struct RunConfig {
    pub num_contractors: usize,
    pub num_executors: usize,
    pub num_cpus: usize,
    pub affinity_mode: usize,
    pub policy: String,
    pub exec_deadline: Span,
    pub job_deadline: Span,
    pub cpu_usage_freq: Span,
}

impl Default for RunConfig {
    fn default() -> (r: Self)
        ensures
            r.num_contractors == 1,
            r.num_executors == 1,
            r.num_cpus == 1,
            r.affinity_mode == 0,
            r.policy@ == "cooperative"@,
            r.exec_deadline@ == 300_000_000,
            r.job_deadline@ == 100_000_000,
            r.cpu_usage_freq@ == 1_000_000_000,
    {
        RunConfig {
            num_contractors: 1,
            num_executors: 1,
            num_cpus: 1,
            affinity_mode: 0,
            policy: String::from_str("cooperative"),
            exec_deadline: Span::from_millis(300),
            job_deadline: Span::from_millis(100),
            cpu_usage_freq: Span::from_secs(1),
        }
    }
}

} // verus!
