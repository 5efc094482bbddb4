use crate::text::{decimal, push_comma, push_decimal, push_newline};
use vstd::prelude::*;

verus! {

/// The sum of the first and of the second counts over `counts`.
pub open spec fn ctx_total(counts: Seq<(u64, u64)>) -> (int, int)
    decreases counts.len(),
{
    if counts.len() == 0 {
        (0, 0)
    } else {
        let (v, n) = ctx_total(counts.drop_last());
        (v + counts.last().0, n + counts.last().1)
    }
}

proof fn lemma_ctx_total_prefix(counts: Seq<(u64, u64)>, k: int)
    requires
        0 <= k <= counts.len(),
    ensures
        ctx_total(counts.take(k)).0 <= ctx_total(counts).0,
        ctx_total(counts.take(k)).1 <= ctx_total(counts).1,
    decreases counts.len() - k,
{
    if k < counts.len() {
        lemma_ctx_total_prefix(counts, k + 1);
        assert(counts.take(k + 1).drop_last() =~= counts.take(k));
    } else {
        assert(counts.take(k) =~= counts);
    }
}

/// The voluntary and involuntary context switches of a set of threads:
/// `per_thread[i]` holds the two counts of the `i`-th thread.
pub fn get_ctx_switch(per_thread: &Vec<(u64, u64)>) -> (r: (u64, u64))
    requires
        ctx_total(per_thread@).0 <= u64::MAX,
        ctx_total(per_thread@).1 <= u64::MAX,
    ensures
        r.0 == ctx_total(per_thread@).0,
        r.1 == ctx_total(per_thread@).1,
{
    let mut voluntary: u64 = 0;
    let mut nonvoluntary: u64 = 0;
    let mut k: usize = 0;
    while k < per_thread.len()
        invariant
            k <= per_thread.len(),
            ctx_total(per_thread@).0 <= u64::MAX,
            ctx_total(per_thread@).1 <= u64::MAX,
            (voluntary as int, nonvoluntary as int) == ctx_total(per_thread@.take(k as int)),
        decreases per_thread.len() - k,
    {
        proof {
            assert(per_thread@.take(k + 1).drop_last() =~= per_thread@.take(k as int));
            lemma_ctx_total_prefix(per_thread@, k + 1);
        }
        let (v, n) = per_thread[k];
        voluntary = voluntary + v;
        nonvoluntary = nonvoluntary + n;
        k = k + 1;
    }
    assert(per_thread@.take(per_thread.len() as int) =~= per_thread@);
    (voluntary, nonvoluntary)
}

/// The row of the system table: seconds since the measurement started, CPU
/// usage in percent, context switches in all, voluntary and involuntary.
pub open spec fn system_line(
    timestamp: nat,
    cpu_usage: nat,
    switches: nat,
    voluntary: nat,
    nonvoluntary: nat,
) -> Seq<char> {
    decimal(timestamp) + seq![','] + decimal(cpu_usage) + seq![','] + decimal(switches) + seq![
        ',',
    ] + decimal(voluntary) + seq![','] + decimal(nonvoluntary) + seq!['\n']
}

/// The differences that successive samples report add up to the growth of
/// the counts since the first sample: nothing is lost or counted twice.
pub proof fn lemma_differences_add_up(c0: u64, c1: u64, c2: u64)
    requires
        c0 <= c1 <= c2,
    ensures
        (c1 - c0) + (c2 - c1) == c2 - c0,
{
}

/// The state of the periodic system sampling: the context switch counts of
/// the last sample and the number of samples since the last flush.
pub struct SystemMetrics {
    pub prev_voluntary: u64,
    pub prev_nonvoluntary: u64,
    pub counter: u64,
}

impl SystemMetrics {
    pub open spec fn wf(&self) -> bool {
        self.counter < 500
    }

    /// Sampling that starts from the given counts.
    pub fn new(voluntary: u64, nonvoluntary: u64) -> (r: SystemMetrics)
        ensures
            r.wf(),
            r.prev_voluntary == voluntary,
            r.prev_nonvoluntary == nonvoluntary,
            r.counter == 0,
    {
        SystemMetrics { prev_voluntary: voluntary, prev_nonvoluntary: nonvoluntary, counter: 0 }
    }

    /// Whether a sample with these counts can be taken without a difference
    /// going below zero or a number running over.
    pub open spec fn fits(&self, voluntary: u64, nonvoluntary: u64, freq_secs: u64) -> bool {
        &&& self.prev_voluntary <= voluntary
        &&& self.prev_nonvoluntary <= nonvoluntary
        &&& (voluntary - self.prev_voluntary) + (nonvoluntary - self.prev_nonvoluntary) <= u64::MAX
        &&& self.counter * freq_secs <= u64::MAX
    }

    /// Tests `fits`.
    pub fn can_sample(&self, voluntary: u64, nonvoluntary: u64, freq_secs: u64) -> (r: bool)
        ensures
            r == self.fits(voluntary, nonvoluntary, freq_secs),
    {
        if voluntary < self.prev_voluntary || nonvoluntary < self.prev_nonvoluntary {
            return false;
        }
        let dv = voluntary - self.prev_voluntary;
        let dn = nonvoluntary - self.prev_nonvoluntary;
        if dv > u64::MAX - dn {
            return false;
        }
        if freq_secs == 0 {
            return true;
        }
        let ok = self.counter <= u64::MAX / freq_secs;
        proof {
            if ok {
                assert(self.counter * freq_secs <= u64::MAX) by (nonlinear_arith)
                    requires
                        self.counter <= u64::MAX / freq_secs,
                        freq_secs > 0,
                ;
            } else {
                assert(self.counter * freq_secs > u64::MAX) by (nonlinear_arith)
                    requires
                        self.counter > u64::MAX / freq_secs,
                        freq_secs > 0,
                ;
            }
        }
        ok
    }

    /// Takes one sample with the current switch counts and CPU usage, every
    /// `freq_secs` seconds: returns its row and whether the table is to be
    /// flushed now (every 500 samples, when the sample count starts over).
    pub fn sample(&mut self, voluntary: u64, nonvoluntary: u64, cpu_usage: u8, freq_secs: u64) -> (r: (
        String,
        bool,
    ))
        requires
            old(self).wf(),
            old(self).fits(voluntary, nonvoluntary, freq_secs),
        ensures
            final(self).wf(),
            r.0@ == system_line(
                (old(self).counter * freq_secs) as nat,
                cpu_usage as nat,
                ((voluntary - old(self).prev_voluntary) + (nonvoluntary
                    - old(self).prev_nonvoluntary)) as nat,
                (voluntary - old(self).prev_voluntary) as nat,
                (nonvoluntary - old(self).prev_nonvoluntary) as nat,
            ),
            final(self).prev_voluntary == voluntary,
            final(self).prev_nonvoluntary == nonvoluntary,
            r.1 == (old(self).counter + 1 == 500),
            final(self).counter == if r.1 {
                0
            } else {
                old(self).counter + 1
            },
    {
        let dif_voluntary = voluntary - self.prev_voluntary;
        let dif_nonvoluntary = nonvoluntary - self.prev_nonvoluntary;
        let dif_context_switch = dif_voluntary + dif_nonvoluntary;
        self.prev_voluntary = voluntary;
        self.prev_nonvoluntary = nonvoluntary;
        let timestamp = self.counter * freq_secs;
        let mut line = String::new();
        push_decimal(&mut line, timestamp as u128);
        push_comma(&mut line);
        push_decimal(&mut line, cpu_usage as u128);
        push_comma(&mut line);
        push_decimal(&mut line, dif_context_switch as u128);
        push_comma(&mut line);
        push_decimal(&mut line, dif_voluntary as u128);
        push_comma(&mut line);
        push_decimal(&mut line, dif_nonvoluntary as u128);
        push_newline(&mut line);
        self.counter = self.counter + 1;
        let mut flush = false;
        if self.counter == 500 {
            self.counter = 0;
            flush = true;
        }
        (line, flush)
    }
}

} // verus!
