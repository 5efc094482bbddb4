use crate::metric::Metric;
use crate::text::{decimal, push_comma, push_decimal, push_newline, push_text};
use crate::time::{span_saturating_sub, Span, MAX_NANOS, NANOS_PER_SEC};
use vstd::prelude::*;

verus! {

/// The earliest of `first` and `t`.
pub open spec fn earliest(first: Option<Span>, t: Span) -> Option<Span> {
    match first {
        None => Some(t),
        Some(f) => if t@ < f@ {
            Some(t)
        } else {
            Some(f)
        },
    }
}

/// The latest of `last` and `t`.
pub open spec fn latest(last: Option<Span>, t: Span) -> Option<Span> {
    match last {
        None => Some(t),
        Some(l) => if l@ < t@ {
            Some(t)
        } else {
            Some(l)
        },
    }
}

/// The measured window always covers what it has seen: after a job is
/// counted, the earliest start is no later than the job's start or any
/// earlier earliest start, and the latest end no earlier than the job's end
/// or any earlier latest end.
pub proof fn lemma_window_covers_observed(first: Option<Span>, last: Option<Span>, m_start: Span, m_end: Span)
    ensures
        earliest(first, m_start) matches Some(f) && f@ <= m_start@,
        first matches Some(f0) ==> (earliest(first, m_start) matches Some(f) && f@ <= f0@),
        latest(last, m_end) matches Some(l) && m_end@ <= l@,
        last matches Some(l0) ==> (latest(last, m_end) matches Some(l) && l0@ <= l@),
{
}

/// Whole microseconds in a span.
pub open spec fn micros(n: nat) -> nat {
    n / 1000
}

/// The row of the request table for `m`: id, end time in microseconds since
/// the measurement started, status, elapsed and consumed microseconds.
pub open spec fn request_line(m: Metric, start_measurement: Span) -> Seq<char> {
    m.id@ + seq![','] + decimal(micros(span_saturating_sub(m.end@, start_measurement@))) + seq![
        ',',
    ] + m.status@ + seq![','] + decimal(micros(m.elapsed@)) + seq![','] + decimal(
        micros(m.consumed@),
    ) + seq!['\n']
}

/// The row of the throughput table: seconds since the measurement started,
/// requests in the window, mean latency in microseconds.
pub open spec fn rps_line(seconds: nat, rps: nat, latency: nat) -> Seq<char> {
    decimal(seconds) + seq![','] + decimal(rps) + seq![','] + decimal(latency) + seq!['\n']
}

/// The throughput row for the given numbers.
pub fn rps_row(seconds: u128, rps: u128, latency: u128) -> (r: String)
    ensures
        r@ == rps_line(seconds as nat, rps as nat, latency as nat),
{
    let mut line = String::new();
    push_decimal(&mut line, seconds);
    push_comma(&mut line);
    push_decimal(&mut line, rps);
    push_comma(&mut line);
    push_decimal(&mut line, latency);
    push_newline(&mut line);
    line
}

/// The request row of `m`.
pub fn request_row(m: &Metric, start_measurement: Span) -> (r: String)
    ensures
        r@ == request_line(*m, start_measurement),
{
    let mut line = String::new();
    push_text(&mut line, &m.id);
    push_comma(&mut line);
    push_decimal(&mut line, m.end.saturating_sub(start_measurement).as_micros());
    push_comma(&mut line);
    push_text(&mut line, &m.status);
    push_comma(&mut line);
    push_decimal(&mut line, m.elapsed.as_micros());
    push_comma(&mut line);
    push_decimal(&mut line, m.consumed.as_micros());
    push_newline(&mut line);
    assert(line@ =~= request_line(*m, start_measurement));
    line
}

/// What to write for one observed metric.
pub struct Observation {
    /// The row of the request table, or `None` where the metric was skipped.
    pub line: Option<String>,
    /// The row of the throughput table, where a window closed.
    pub rps_line: Option<String>,
    /// Whether both tables are to be flushed now.
    pub flush: bool,
}

/// The running totals of a measurement of requests.
///
/// Jobs that started before the measurement did are skipped.  Throughput is
/// counted in windows of at least a second: when a window closes, its count
/// and mean latency are reported and the highest count is kept.
pub struct RequestMetrics {
    pub start_measurement: Span,
    pub first: Option<Span>,
    pub last: Option<Span>,
    pub finished: u64,
    pub canceled: u64,
    pub current_instant: Span,
    pub current_rps: u32,
    pub max_rps: u32,
    pub total_elapsed: Span,
    pub count: u32,
}

impl RequestMetrics {
    /// The totals agree with each other.
    pub open spec fn wf(&self) -> bool {
        &&& (self.first is Some <==> self.last is Some)
        &&& self.count < 1000
    }

    /// Totals before any metric: `start_measurement` is when the measurement
    /// starts, `window_start` when the first throughput window opened.
    pub fn new(start_measurement: Span, window_start: Span) -> (r: RequestMetrics)
        ensures
            r.wf(),
            r.start_measurement == start_measurement,
            r.current_instant == window_start,
            r.first is None,
            r.finished == 0,
            r.canceled == 0,
            r.current_rps == 0,
            r.max_rps == 0,
            r.total_elapsed@ == 0,
            r.count == 0,
    {
        RequestMetrics {
            start_measurement,
            first: None,
            last: None,
            finished: 0,
            canceled: 0,
            current_instant: window_start,
            current_rps: 0,
            max_rps: 0,
            total_elapsed: Span::zero(),
            count: 0,
        }
    }

    /// Whether `m` can be taken in without a total running over: a metric
    /// that is skipped always can; otherwise the throughput count, the
    /// elapsed total and the counter that its status adds to must have room.
    pub open spec fn fits(&self, m: &Metric) -> bool {
        m.start@ < self.start_measurement@ || {
            &&& self.current_rps < u32::MAX
            &&& self.total_elapsed@ + m.elapsed@ <= MAX_NANOS
            &&& m.status@ == "Finished"@ ==> self.finished < u64::MAX
            &&& (m.status@ != "Finished"@ && m.status@ == "Canceled"@) ==> self.canceled < u64::MAX
        }
    }

    /// Tests `fits`.
    pub fn can_observe(&self, m: &Metric) -> (r: bool)
        ensures
            r == self.fits(m),
    {
        if m.start.lt(&self.start_measurement) {
            return true;
        }
        let finished = m.status == String::from_str("Finished");
        let canceled = !finished && m.status == String::from_str("Canceled");
        self.current_rps < u32::MAX && self.total_elapsed.checked_add(m.elapsed).is_some() && (
        !finished || self.finished < u64::MAX) && (!canceled || self.canceled < u64::MAX)
    }

    /// Counts one metric, read at time `now`.
    pub fn observe(&mut self, m: &Metric, now: Span) -> (r: Observation)
        requires
            old(self).wf(),
            old(self).fits(m),
        ensures
            final(self).wf(),
            m.start@ < old(self).start_measurement@ ==> {
                &&& *final(self) == *old(self)
                &&& r.line is None
                &&& r.rps_line is None
                &&& !r.flush
            },
            m.start@ >= old(self).start_measurement@ ==> {
                let closes = span_saturating_sub(now@, old(self).current_instant@) >= NANOS_PER_SEC;
                let rps = old(self).current_rps + 1;
                let total = old(self).total_elapsed@ + m.elapsed@;
                &&& final(self).start_measurement == old(self).start_measurement
                &&& final(self).finished == old(self).finished + (if m.status@ == "Finished"@ {
                    1int
                } else {
                    0int
                })
                &&& final(self).canceled == old(self).canceled + (if m.status@ != "Finished"@
                    && m.status@ == "Canceled"@ {
                    1int
                } else {
                    0int
                })
                &&& final(self).first == earliest(old(self).first, m.start)
                &&& final(self).last == latest(old(self).last, m.end)
                &&& r.line matches Some(l) && l@ == request_line(*m, old(self).start_measurement)
                &&& closes ==> {
                    &&& final(self).max_rps == if old(self).max_rps < rps {
                        rps
                    } else {
                        old(self).max_rps as int
                    }
                    &&& final(self).current_instant == now
                    &&& final(self).current_rps == 0
                    &&& final(self).total_elapsed@ == 0
                    &&& r.rps_line matches Some(l) && l@ == rps_line(
                        span_saturating_sub(now@, old(self).start_measurement@) / (
                        NANOS_PER_SEC as nat),
                        rps as nat,
                        micros(total) / (rps as nat),
                    )
                }
                &&& !closes ==> {
                    &&& final(self).max_rps == old(self).max_rps
                    &&& final(self).current_instant == old(self).current_instant
                    &&& final(self).current_rps == rps
                    &&& final(self).total_elapsed@ == total
                    &&& r.rps_line is None
                }
                &&& (old(self).count + 1 >= 1000) == r.flush
                &&& final(self).count == if r.flush {
                    0
                } else {
                    old(self).count + 1
                }
            },
    {
        if m.start.lt(&self.start_measurement) {
            return Observation { line: None, rps_line: None, flush: false };
        }
        if m.status == String::from_str("Finished") {
            self.finished = self.finished + 1;
        } else if m.status == String::from_str("Canceled") {
            self.canceled = self.canceled + 1;
        }
        match self.first {
            None => {
                self.first = Some(m.start);
            },
            Some(f) => {
                if m.start.lt(&f) {
                    self.first = Some(m.start);
                }
            },
        }
        match self.last {
            None => {
                self.last = Some(m.end);
            },
            Some(l) => {
                if l.lt(&m.end) {
                    self.last = Some(m.end);
                }
            },
        }
        self.current_rps = self.current_rps + 1;
        self.total_elapsed = match self.total_elapsed.checked_add(m.elapsed) {
            Some(t) => t,
            None => self.total_elapsed,
        };

        let mut rps_out: Option<String> = None;
        if 1 <= now.saturating_sub(self.current_instant).as_secs() {
            if self.max_rps < self.current_rps {
                self.max_rps = self.current_rps;
            }
            let latency = self.total_elapsed.as_micros() / (self.current_rps as u128);
            self.current_instant = now;
            rps_out = Some(
                rps_row(
                    now.saturating_sub(self.start_measurement).as_secs() as u128,
                    self.current_rps as u128,
                    latency,
                ),
            );
            self.current_rps = 0;
            self.total_elapsed = Span::zero();
        }
        let line = request_row(m, self.start_measurement);

        self.count = self.count + 1;
        let mut flush = false;
        if 1000 <= self.count {
            self.count = 0;
            flush = true;
        }
        Observation { line: Some(line), rps_line: rps_out, flush }
    }

    /// The time from the earliest start to the latest end, the counts of
    /// finished and cancelled jobs, and the highest throughput seen.
    pub fn summary(&self) -> (r: (Span, u64, u64, u32))
        requires
            self.wf(),
        ensures
            r.0@ == match (self.first, self.last) {
                (Some(f), Some(l)) => span_saturating_sub(l@, f@),
                _ => 0,
            },
            r.1 == self.finished,
            r.2 == self.canceled,
            r.3 == self.max_rps,
    {
        let elapsed = match (self.first, self.last) {
            (Some(f), Some(l)) => l.saturating_sub(f),
            _ => Span::zero(),
        };
        (elapsed, self.finished, self.canceled, self.max_rps)
    }
}

} // verus!
