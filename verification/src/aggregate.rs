//! Reducing the per-worker tallies into one report.
//!
//! After every worker has finished, the run folds the collected
//! `WorkerResult`s into totals: the request counts are summed, and the
//! per-worker last-seen latencies are summed and divided (integer
//! division, truncating) by the number of workers. Note that this
//! averages each worker's *last* observed latency, not a true mean over
//! all requests; that is the aggregation policy, not an accident.

use vstd::prelude::*;

use crate::worker::{RunError, WorkerResult};

verus! {

/// The terminal artifact of a run.
///
/// Requests per second is derived by the caller as
/// `total_requests / duration_seconds` in floating point; this crate
/// reports the integer total and leaves that one division to the
/// printing layer.
#[derive(Clone, Copy, Debug, PartialEq, Eq, Structural)]
pub struct AggregateReport {
    pub total_requests: i32,
    pub average_latency_ms: u128,
}

/// The sum of all request counts in `s`.
pub open spec fn sum_counts(s: Seq<WorkerResult>) -> int
    decreases s.len(),
{
    if s.len() == 0 {
        0
    } else {
        sum_counts(s.drop_last()) + s.last().request_count
    }
}

/// The sum of all last-seen latencies in `s`.
pub open spec fn sum_latencies(s: Seq<WorkerResult>) -> int
    decreases s.len(),
{
    if s.len() == 0 {
        0
    } else {
        sum_latencies(s.drop_last()) + s.last().last_latency_ms
    }
}

/// Every tally in `s` has a non-negative request count. Workers only
/// ever count upward from zero, so every collected result satisfies
/// this.
pub open spec fn counts_nonneg(s: Seq<WorkerResult>) -> bool {
    forall|i: int| 0 <= i <= s.len() - 1 ==> s[i].request_count >= 0
}

proof fn lemma_sum_counts_nonneg(s: Seq<WorkerResult>)
    requires
        counts_nonneg(s),
    ensures
        sum_counts(s) >= 0,
    decreases s.len(),
{
    if s.len() > 0 {
        assert(counts_nonneg(s.drop_last()));
        lemma_sum_counts_nonneg(s.drop_last());
    }
}

proof fn lemma_sum_latencies_nonneg(s: Seq<WorkerResult>)
    ensures
        sum_latencies(s) >= 0,
    decreases s.len(),
{
    if s.len() > 0 {
        lemma_sum_latencies_nonneg(s.drop_last());
    }
}

/// Extending a prefix by one element adds that element's count.
proof fn lemma_sum_counts_snoc(s: Seq<WorkerResult>, i: int)
    requires
        0 <= i < s.len(),
    ensures
        sum_counts(s.subrange(0, i + 1)) == sum_counts(s.subrange(0, i)) + s[i].request_count,
{
    assert(s.subrange(0, i + 1).drop_last() =~= s.subrange(0, i));
}

proof fn lemma_sum_latencies_snoc(s: Seq<WorkerResult>, i: int)
    requires
        0 <= i < s.len(),
    ensures
        sum_latencies(s.subrange(0, i + 1)) == sum_latencies(s.subrange(0, i))
            + s[i].last_latency_ms,
{
    assert(s.subrange(0, i + 1).drop_last() =~= s.subrange(0, i));
}

/// With non-negative counts, a prefix sum never exceeds the whole sum.
proof fn lemma_sum_counts_prefix_le(s: Seq<WorkerResult>, i: int)
    requires
        counts_nonneg(s),
        0 <= i <= s.len(),
    ensures
        sum_counts(s.subrange(0, i)) <= sum_counts(s),
    decreases s.len() - i,
{
    if i == s.len() {
        assert(s.subrange(0, i) =~= s);
    } else {
        lemma_sum_counts_prefix_le(s, i + 1);
        lemma_sum_counts_snoc(s, i);
    }
}

proof fn lemma_sum_latencies_prefix_le(s: Seq<WorkerResult>, i: int)
    requires
        0 <= i <= s.len(),
    ensures
        sum_latencies(s.subrange(0, i)) <= sum_latencies(s),
    decreases s.len() - i,
{
    if i == s.len() {
        assert(s.subrange(0, i) =~= s);
    } else {
        lemma_sum_latencies_prefix_le(s, i + 1);
        lemma_sum_latencies_snoc(s, i);
    }
}

/// Reduce the finished workers' tallies into the final report.
///
/// Succeeds if and only if at least one result was collected; with none,
/// the average below would divide by zero, so the run reports
/// `RunError::NoWorkers` instead. On success the report holds the exact
/// sum of the counts and the truncated integer mean of the per-worker
/// last latencies.
pub fn aggregate(results: &Vec<WorkerResult>) -> (r: Result<AggregateReport, RunError>)
    requires
        counts_nonneg(results@),
        sum_counts(results@) <= i32::MAX,
        sum_latencies(results@) <= u128::MAX,
    ensures
        match r {
            Ok(report) => {
                &&& results@.len() > 0
                &&& report.total_requests == sum_counts(results@)
                &&& report.average_latency_ms == sum_latencies(results@) / (results@.len() as int)
            },
            Err(e) => {
                &&& e == RunError::NoWorkers
                &&& results@.len() == 0
            },
        },
{
    let worker_count = results.len();
    if worker_count == 0 {
        return Err(RunError::NoWorkers);
    }

    let mut total: i32 = 0;
    let mut latency_sum: u128 = 0;
    let mut i: usize = 0;
    while i < worker_count
        invariant
            worker_count == results@.len(),
            0 <= i <= worker_count,
            counts_nonneg(results@),
            sum_counts(results@) <= i32::MAX,
            sum_latencies(results@) <= u128::MAX,
            total == sum_counts(results@.subrange(0, i as int)),
            latency_sum == sum_latencies(results@.subrange(0, i as int)),
        decreases worker_count - i,
    {
        proof {
            lemma_sum_counts_snoc(results@, i as int);
            lemma_sum_counts_prefix_le(results@, i as int + 1);
            assert(counts_nonneg(results@.subrange(0, i as int + 1)));
            lemma_sum_counts_nonneg(results@.subrange(0, i as int + 1));
            lemma_sum_latencies_snoc(results@, i as int);
            lemma_sum_latencies_prefix_le(results@, i as int + 1);
            lemma_sum_latencies_nonneg(results@.subrange(0, i as int + 1));
        }
        total = total + results[i].request_count;
        latency_sum = latency_sum + results[i].last_latency_ms;
        i = i + 1;
    }

    proof {
        assert(results@.subrange(0, worker_count as int) =~= results@);
    }
    let average = latency_sum / (worker_count as u128);
    Ok(AggregateReport { total_requests: total, average_latency_ms: average })
}

} // verus!
