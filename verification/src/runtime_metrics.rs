use crate::metric::Metric;
use crate::request_metrics::{earliest, latest};
use crate::text::{decimal, push_comma, push_decimal, push_newline, push_text};
use crate::time::{span_saturating_sub, Span};
use vstd::prelude::*;

verus! {

/// Whole milliseconds in a span, cut to 64 bits.
pub open spec fn millis64(n: nat) -> u64 {
    (n / 1_000_000) as u64
}

/// The totals of one runtime: number of jobs, and the sums of their
/// elapsed and consumed milliseconds.
pub struct RuntimeTotal {
    pub runtime: String,
    pub count: u32,
    pub elapsed_ms: u64,
    pub consumed_ms: u64,
}

/// The row of the metrics table for `m`: id, runtime, status, elapsed and
/// consumed milliseconds.
pub open spec fn metric_line(m: Metric) -> Seq<char> {
    m.id@ + seq![','] + m.runtime@ + seq![','] + m.status@ + seq![','] + decimal(
        millis64(m.elapsed@) as nat,
    ) + seq![','] + decimal(millis64(m.consumed@) as nat) + seq!['\n']
}

/// No runtime has two entries.
pub open spec fn distinct_runtimes(totals: Seq<RuntimeTotal>) -> bool {
    forall|i: int, j: int|
        0 <= i < j < totals.len() ==> #[trigger] totals[i].runtime@ != #[trigger] totals[j].runtime@
}

/// The running totals of a measurement of jobs, per runtime and overall.
pub struct RuntimeMetrics {
    pub first: Option<Span>,
    pub last: Option<Span>,
    pub finished: u64,
    pub canceled: u64,
    /// One entry per runtime, in the order the runtimes were first seen.
    pub totals: Vec<RuntimeTotal>,
}

/// The row of the metrics table for `m`.
pub fn metric_row(m: &Metric) -> (r: String)
    ensures
        r@ == metric_line(*m),
{
    let mut line = String::new();
    push_text(&mut line, &m.id);
    push_comma(&mut line);
    push_text(&mut line, &m.runtime);
    push_comma(&mut line);
    push_text(&mut line, &m.status);
    push_comma(&mut line);
    push_decimal(&mut line, (m.elapsed.as_millis() as u64) as u128);
    push_comma(&mut line);
    push_decimal(&mut line, (m.consumed.as_millis() as u64) as u128);
    push_newline(&mut line);
    assert(line@ =~= metric_line(*m));
    line
}

impl RuntimeMetrics {
    pub open spec fn wf(&self) -> bool {
        &&& (self.first is Some <==> self.last is Some)
        &&& distinct_runtimes(self.totals@)
    }

    pub fn new() -> (r: RuntimeMetrics)
        ensures
            r.wf(),
            r.first is None,
            r.finished == 0,
            r.canceled == 0,
            r.totals@.len() == 0,
    {
        RuntimeMetrics { first: None, last: None, finished: 0, canceled: 0, totals: Vec::new() }
    }

    /// Whether `m` can be counted without a total running over.
    pub open spec fn fits(&self, m: &Metric) -> bool {
        &&& m.status@ == "Finished"@ ==> self.finished < u64::MAX
        &&& (m.status@ != "Finished"@ && m.status@ == "Canceled"@) ==> self.canceled < u64::MAX
        &&& forall|i: int|
            0 <= i < self.totals@.len() && #[trigger] self.totals@[i].runtime@ == m.runtime@ ==> {
                &&& self.totals@[i].count < u32::MAX
                &&& self.totals@[i].elapsed_ms + millis64(m.elapsed@) <= u64::MAX
                &&& self.totals@[i].consumed_ms + millis64(m.consumed@) <= u64::MAX
            }
    }

    /// The position of the entry of `runtime`, where there is one.
    fn position(&self, runtime: &String) -> (r: Option<usize>)
        ensures
            match r {
                Some(i) => i < self.totals@.len() && self.totals@[i as int].runtime@ == runtime@,
                None => forall|i: int|
                    0 <= i < self.totals@.len() ==> #[trigger] self.totals@[i].runtime@
                        != runtime@,
            },
    {
        let mut k: usize = 0;
        while k < self.totals.len()
            invariant
                k <= self.totals@.len(),
                forall|i: int| 0 <= i < k ==> #[trigger] self.totals@[i].runtime@ != runtime@,
            decreases self.totals.len() - k,
        {
            if self.totals[k].runtime == *runtime {
                return Some(k);
            }
            k = k + 1;
        }
        None
    }

    /// Tests `fits`.
    pub fn can_observe(&self, m: &Metric) -> (r: bool)
        requires
            self.wf(),
        ensures
            r == self.fits(m),
    {
        let finished = m.status == String::from_str("Finished");
        let canceled = !finished && m.status == String::from_str("Canceled");
        if (finished && self.finished == u64::MAX) || (canceled && self.canceled == u64::MAX) {
            return false;
        }
        match self.position(&m.runtime) {
            None => true,
            Some(i) => {
                let t = &self.totals[i];
                let ok = t.count < u32::MAX && t.elapsed_ms <= u64::MAX - (m.elapsed.as_millis()
                    as u64) && t.consumed_ms <= u64::MAX - (m.consumed.as_millis() as u64);
                proof {
                    assert forall|j: int|
                        0 <= j < self.totals@.len() && #[trigger] self.totals@[j].runtime@
                            == m.runtime@ implies j == i by {
                        if j != i {
                            assert(self.totals@[j].runtime@ != self.totals@[i as int].runtime@);
                        }
                    }
                }
                ok
            },
        }
    }

    /// Counts one metric and returns its row of the metrics table.
    pub fn observe(&mut self, m: &Metric) -> (r: String)
        requires
            old(self).wf(),
            old(self).fits(m),
        ensures
            final(self).wf(),
            r@ == metric_line(*m),
            final(self).finished == old(self).finished + (if m.status@ == "Finished"@ {
                1int
            } else {
                0int
            }),
            final(self).canceled == old(self).canceled + (if m.status@ != "Finished"@
                && m.status@ == "Canceled"@ {
                1int
            } else {
                0int
            }),
            final(self).first == earliest(old(self).first, m.start),
            final(self).last == latest(old(self).last, m.end),
            (exists|i: int|
                0 <= i < old(self).totals@.len() && #[trigger] old(self).totals@[i].runtime@
                    == m.runtime@) ==> exists|i: int|
                0 <= i < old(self).totals@.len() && #[trigger] old(self).totals@[i].runtime@
                    == m.runtime@ && final(self).totals@ == old(self).totals@.update(
                    i,
                    RuntimeTotal {
                        runtime: old(self).totals@[i].runtime,
                        count: (old(self).totals@[i].count + 1) as u32,
                        elapsed_ms: (old(self).totals@[i].elapsed_ms + millis64(
                            m.elapsed@,
                        )) as u64,
                        consumed_ms: (old(self).totals@[i].consumed_ms + millis64(
                            m.consumed@,
                        )) as u64,
                    },
                ),
            (forall|i: int|
                0 <= i < old(self).totals@.len() ==> #[trigger] old(self).totals@[i].runtime@
                    != m.runtime@) ==> final(self).totals@.len() == old(self).totals@.len() + 1
                && final(self).totals@.take(old(self).totals@.len() as int) == old(self).totals@
                && final(self).totals@.last().runtime@ == m.runtime@
                && final(self).totals@.last().count == 1 && final(self).totals@.last().elapsed_ms
                == millis64(m.elapsed@) && final(self).totals@.last().consumed_ms == millis64(
                m.consumed@,
            ),
    {
        if m.status == String::from_str("Finished") {
            self.finished = self.finished + 1;
        } else if m.status == String::from_str("Canceled") {
            self.canceled = self.canceled + 1;
        }
        match self.first {
            None => {
                self.first = Some(m.start);
            },
            Some(f) => {
                if m.start.lt(&f) {
                    self.first = Some(m.start);
                }
            },
        }
        match self.last {
            None => {
                self.last = Some(m.end);
            },
            Some(l) => {
                if l.lt(&m.end) {
                    self.last = Some(m.end);
                }
            },
        }
        let elapsed_ms = m.elapsed.as_millis() as u64;
        let consumed_ms = m.consumed.as_millis() as u64;
        match self.position(&m.runtime) {
            Some(i) => {
                let old_total = &self.totals[i];
                let updated = RuntimeTotal {
                    runtime: old_total.runtime.clone(),
                    count: old_total.count + 1,
                    elapsed_ms: old_total.elapsed_ms + elapsed_ms,
                    consumed_ms: old_total.consumed_ms + consumed_ms,
                };
                self.totals.set(i, updated);
                proof {
                    assert forall|a: int, b: int|
                        0 <= a < b < self.totals@.len() implies #[trigger] self.totals@[a].runtime@
                        != #[trigger] self.totals@[b].runtime@ by {
                        assert(old(self).totals@[a].runtime@ != old(self).totals@[b].runtime@);
                    }
                }
            },
            None => {
                let fresh = RuntimeTotal {
                    runtime: m.runtime.clone(),
                    count: 1,
                    elapsed_ms,
                    consumed_ms,
                };
                self.totals.push(fresh);
                proof {
                    assert(self.totals@.take(old(self).totals@.len() as int) =~= old(
                        self,
                    ).totals@);
                    assert forall|a: int, b: int|
                        0 <= a < b < self.totals@.len() implies #[trigger] self.totals@[a].runtime@
                        != #[trigger] self.totals@[b].runtime@ by {
                        if b < old(self).totals@.len() {
                            assert(old(self).totals@[a].runtime@ != old(self).totals@[b].runtime@);
                        } else {
                            assert(old(self).totals@[a].runtime@ != m.runtime@);
                        }
                    }
                }
            },
        }
        metric_row(m)
    }

    /// The time from the earliest start to the latest end, and the counts of
    /// finished and cancelled jobs.
    pub fn summary(&self) -> (r: (Span, u64, u64))
        requires
            self.wf(),
        ensures
            r.0@ == match (self.first, self.last) {
                (Some(f), Some(l)) => span_saturating_sub(l@, f@),
                _ => 0,
            },
            r.1 == self.finished,
            r.2 == self.canceled,
    {
        let elapsed = match (self.first, self.last) {
            (Some(f), Some(l)) => l.saturating_sub(f),
            _ => Span::zero(),
        };
        (elapsed, self.finished, self.canceled)
    }
}

} // verus!
