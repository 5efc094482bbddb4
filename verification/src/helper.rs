use crate::time::{Span, MAX_NANOS};
use vstd::prelude::*;

pub mod executor_manager;
pub mod local_sched_manager;
pub mod worker_id_manager;

verus! {

/// The total of a sequence of spans, in nanoseconds.
pub open spec fn span_total(s: Seq<Span>) -> nat
    decreases s.len(),
{
    if s.len() == 0 {
        0
    } else {
        span_total(s.drop_last()) + s.last()@
    }
}

/// A prefix never totals more than the whole.
pub proof fn lemma_prefix_total_le(s: Seq<Span>, i: int)
    requires
        0 <= i <= s.len(),
    ensures
        span_total(s.take(i)) <= span_total(s),
    decreases s.len() - i,
{
    if i < s.len() {
        lemma_prefix_total_le(s, i + 1);
        assert(s.take(i + 1).drop_last() =~= s.take(i));
    } else {
        assert(s.take(i) =~= s);
    }
}

/// `i` is the position of the first smallest key.
pub open spec fn is_first_min(keys: Seq<Span>, i: int) -> bool {
    &&& 0 <= i < keys.len()
    &&& forall|j: int| 0 <= j < keys.len() ==> keys[i]@ <= #[trigger] keys[j]@
    &&& forall|j: int| 0 <= j < i ==> keys[i]@ < #[trigger] keys[j]@
}

/// The position of the first smallest key, as `Iterator::min_by_key` picks it.
pub fn first_min_index(keys: &Vec<Span>) -> (i: usize)
    requires
        keys.len() > 0,
    ensures
        is_first_min(keys@, i as int),
{
    let mut best: usize = 0;
    let mut k: usize = 1;
    while k < keys.len()
        invariant
            0 <= best < k <= keys.len(),
            forall|j: int| 0 <= j < k ==> keys@[best as int]@ <= #[trigger] keys@[j]@,
            forall|j: int| 0 <= j < best ==> keys@[best as int]@ < #[trigger] keys@[j]@,
        decreases keys.len() - k,
    {
        if keys[k].lt(&keys[best]) {
            best = k;
        }
        k = k + 1;
    }
    best
}

/// The total of `spans`, which must fit in a span.
pub fn sum_spans(spans: &Vec<Span>) -> (r: Span)
    requires
        span_total(spans@) <= MAX_NANOS,
    ensures
        r@ == span_total(spans@),
{
    let mut acc = Span::zero();
    let mut k: usize = 0;
    while k < spans.len()
        invariant
            k <= spans.len(),
            acc@ == span_total(spans@.take(k as int)),
            span_total(spans@) <= MAX_NANOS,
        decreases spans.len() - k,
    {
        proof {
            lemma_prefix_total_le(spans@, k + 1);
            assert(spans@.take(k + 1).drop_last() =~= spans@.take(k as int));
        }
        acc = match acc.checked_add(spans[k]) {
            Some(s) => s,
            None => acc,
        };
        k = k + 1;
    }
    assert(spans@.take(spans.len() as int) =~= spans@);
    acc
}

/// Building a manager from a builder that holds nothing.
#[derive(Debug, PartialEq, Eq)]
pub enum BuildError {
    NoController,
}

impl BuildError {
    /// The message of the error.
    pub fn to_string(&self) -> (r: String)
        ensures
            r@ == "ExecutorManagerBuilder: no executor controller is provided"@,
    {
        match self {
            BuildError::NoController => String::from_str(
                "ExecutorManagerBuilder: no executor controller is provided",
            ),
        }
    }
}

} // verus!
