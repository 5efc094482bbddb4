use crate::text::{decimal, push_decimal};
use crate::time::Span;
use vstd::prelude::*;

verus! {

/// The counts part of a measurement summary: elapsed milliseconds, the
/// number of jobs, and how many finished and were cancelled.
pub open spec fn counts_text(elapsed_ms: nat, finished: nat, cancelled: nat) -> Seq<char> {
    "---\nelapsed: "@ + decimal(elapsed_ms) + "\nnum_jobs: "@ + decimal(finished + cancelled)
        + "\nfinished: "@ + decimal(finished) + "\ncancelled: "@ + decimal(cancelled) + "\n"@
}

fn push_counts(s: &mut String, elapsed: Span, finished: u64, cancelled: u64)
    requires
        finished + cancelled <= u64::MAX,
    ensures
        final(s)@ == old(s)@ + counts_text(elapsed@ / 1_000_000, finished as nat, cancelled as nat),
{
    s.append("---\nelapsed: ");
    push_decimal(s, elapsed.as_millis());
    s.append("\nnum_jobs: ");
    push_decimal(s, (finished + cancelled) as u128);
    s.append("\nfinished: ");
    push_decimal(s, finished as u128);
    s.append("\ncancelled: ");
    push_decimal(s, cancelled as u128);
    s.append("\n");
    assert(s@ =~= old(s)@ + counts_text(elapsed@ / 1_000_000, finished as nat, cancelled as nat));
}

/// The summary of a throughput measurement, as a YAML document.
pub fn summary_text(elapsed: Span, finished: u64, cancelled: u64, max_rps: u32) -> (r: String)
    requires
        finished + cancelled <= u64::MAX,
    ensures
        r@ == counts_text(elapsed@ / 1_000_000, finished as nat, cancelled as nat) + "max_rps: "@
            + decimal(max_rps as nat) + "\n"@,
{
    let mut s = String::new();
    push_counts(&mut s, elapsed, finished, cancelled);
    s.append("max_rps: ");
    push_decimal(&mut s, max_rps as u128);
    s.append("\n");
    assert(s@ =~= counts_text(elapsed@ / 1_000_000, finished as nat, cancelled as nat)
        + "max_rps: "@ + decimal(max_rps as nat) + "\n"@);
    s
}

/// The head of the summary of a measurement per runtime: the counts, then
/// the key under which the runtimes are listed.
pub fn runtime_summary_head(elapsed: Span, finished: u64, cancelled: u64) -> (r: String)
    requires
        finished + cancelled <= u64::MAX,
    ensures
        r@ == counts_text(elapsed@ / 1_000_000, finished as nat, cancelled as nat)
            + "runtime:\n"@,
{
    let mut s = String::new();
    push_counts(&mut s, elapsed, finished, cancelled);
    s.append("runtime:\n");
    s
}

} // verus!
