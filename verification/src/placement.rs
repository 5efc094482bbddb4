use vstd::prelude::*;

verus! {

/// How worker threads are pinned to cores.
#[derive(Debug, Clone, Copy, PartialEq, Eq, Structural)]
pub enum AffinityMode {
    /// Threads are not pinned.
    Unpinned,
    /// Each executor may run on any executor core.
    Unfixed,
    /// Each executor is pinned to one executor core, in turn.
    Fixed,
}

/// The mode named `name`: `none`, `unfixed` or `fixed`.
pub fn parse_affinity_mode(name: &String) -> (r: Option<AffinityMode>)
    ensures
        name@ == "none"@ ==> r == Some(AffinityMode::Unpinned),
        name@ == "unfixed"@ ==> r == Some(AffinityMode::Unfixed),
        name@ == "fixed"@ ==> r == Some(AffinityMode::Fixed),
        name@ != "none"@ && name@ != "unfixed"@ && name@ != "fixed"@ ==> r is None,
{
    proof {
        reveal_strlit("none");
        reveal_strlit("unfixed");
        reveal_strlit("fixed");
        assert("none"@[0] != "unfixed"@[0]);
        assert("none"@[0] != "fixed"@[0]);
        assert("unfixed"@[0] != "fixed"@[0]);
    }
    if *name == String::from_str("none") {
        Some(AffinityMode::Unpinned)
    } else if *name == String::from_str("unfixed") {
        Some(AffinityMode::Unfixed)
    } else if *name == String::from_str("fixed") {
        Some(AffinityMode::Fixed)
    } else {
        None
    }
}

/// Where a newly started thread goes.
#[derive(Debug, PartialEq, Eq)]
pub enum Placement {
    /// Leave the thread where it is.
    Stay,
    /// A runtime worker thread, allowed on these cores.
    Worker(Vec<usize>),
    /// A runtime worker thread, pinned to this core.
    WorkerOn(usize),
    /// An executor thread, allowed on these cores.
    Executor(Vec<usize>),
    /// An executor thread, pinned to this core.
    ExecutorOn(usize),
}

/// The cores that runtime worker threads share.
pub open spec fn worker_cores() -> Seq<usize> {
    seq![8usize, 9usize, 20usize, 21usize]
}

/// The cores `0..n`.
pub open spec fn first_cores(n: nat) -> Seq<usize> {
    Seq::new(n, |i: int| i as usize)
}

fn core_range(lo: usize, hi: usize) -> (r: Vec<usize>)
    requires
        lo <= hi,
    ensures
        r@ == Seq::new((hi - lo) as nat, |i: int| (lo + i) as usize),
{
    let mut r: Vec<usize> = Vec::new();
    let mut k = lo;
    while k < hi
        invariant
            lo <= k <= hi,
            r@ == Seq::new((k - lo) as nat, |i: int| (lo + i) as usize),
        decreases hi - k,
    {
        r.push(k);
        k = k + 1;
        assert(r@ =~= Seq::new((k - lo) as nat, |i: int| (lo + i) as usize));
    }
    r
}

/// Where the `count`-th started thread goes, where the first
/// `num_tokio_workers` threads are runtime workers and the next
/// `num_executors` are executors; threads started later stay where they are.
pub fn place_thread(
    mode: AffinityMode,
    count: usize,
    num_tokio_workers: usize,
    num_executors: usize,
    num_executor_cores: usize,
) -> (r: Placement)
    requires
        mode is Fixed ==> num_executor_cores > 0,
    ensures
        mode is Unpinned || count >= num_tokio_workers + num_executors ==> r == Placement::Stay,
        !(mode is Unpinned) && count < num_tokio_workers ==> (r matches Placement::Worker(c) && c@
            == worker_cores()),
        mode is Unfixed && num_tokio_workers <= count < num_tokio_workers + num_executors ==> (r matches Placement::Executor(c)
            && c@ == first_cores(num_executor_cores as nat)),
        mode is Fixed && num_tokio_workers <= count < num_tokio_workers + num_executors ==> r
            == Placement::ExecutorOn(((count - num_tokio_workers) % (num_executor_cores as int)) as usize),
{
    if mode == AffinityMode::Unpinned {
        return Placement::Stay;
    }
    if count >= num_tokio_workers && count - num_tokio_workers >= num_executors {
        return Placement::Stay;
    }
    if count < num_tokio_workers {
        let cores = vec![8usize, 9usize, 20usize, 21usize];
        assert(cores@ =~= worker_cores());
        return Placement::Worker(cores);
    }
    if mode == AffinityMode::Unfixed {
        let cores = core_range(0, num_executor_cores);
        assert(cores@ =~= first_cores(num_executor_cores as nat));
        Placement::Executor(cores)
    } else {
        Placement::ExecutorOn((count - num_tokio_workers) % num_executor_cores)
    }
}

/// Where the `count`-th started thread goes under the numbered modes of the
/// stand-alone worker: mode 1 lets runtime workers share the last
/// `num_tokio_workers` cores and executors the first `num_use_cores`; mode 2
/// pins runtime workers to cores from the last one down and executors to the
/// first `num_use_cores` in turn.  Mode 0 pins nothing; other modes are
/// `None`.
pub fn place_thread_numbered(
    mode: usize,
    count: usize,
    num_cores: usize,
    num_tokio_workers: usize,
    num_executors: usize,
    num_use_cores: usize,
) -> (r: Option<Placement>)
    requires
        num_tokio_workers <= num_cores,
        mode == 2 ==> num_use_cores > 0,
    ensures
        mode > 2 <==> r is None,
        mode == 0 ==> r == Some(Placement::Stay),
        mode == 1 || mode == 2 ==> (count >= num_tokio_workers + num_executors ==> r == Some(
            Placement::Stay,
        )),
        mode == 1 && count < num_tokio_workers ==> (r matches Some(Placement::Worker(c)) && c@
            == Seq::new(
            num_tokio_workers as nat,
            |i: int| (num_cores - num_tokio_workers + i) as usize,
        )),
        mode == 1 && num_tokio_workers <= count < num_tokio_workers + num_executors ==> (r matches Some(
            Placement::Executor(c),
        ) && c@ == first_cores(num_use_cores as nat)),
        mode == 2 && count < num_tokio_workers ==> r == Some(
            Placement::WorkerOn((num_cores - count - 1) as usize),
        ),
        mode == 2 && num_tokio_workers <= count < num_tokio_workers + num_executors ==> r == Some(
            Placement::ExecutorOn(((count - num_tokio_workers) % (num_use_cores as int)) as usize),
        ),
{
    if mode == 0 {
        return Some(Placement::Stay);
    }
    if mode > 2 {
        return None;
    }
    if count >= num_tokio_workers && count - num_tokio_workers >= num_executors {
        return Some(Placement::Stay);
    }
    if mode == 1 {
        if count < num_tokio_workers {
            Some(Placement::Worker(core_range(num_cores - num_tokio_workers, num_cores)))
        } else {
            let cores = core_range(0, num_use_cores);
            assert(cores@ =~= first_cores(num_use_cores as nat));
            Some(Placement::Executor(cores))
        }
    } else {
        if count < num_tokio_workers {
            Some(Placement::WorkerOn(num_cores - count - 1))
        } else {
            Some(Placement::ExecutorOn((count - num_tokio_workers) % num_use_cores))
        }
    }
}

} // verus!
