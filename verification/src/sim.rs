//! A deterministic model of one whole run.
//!
//! A real run's request counts depend on wall-clock scheduling. Against
//! a deterministic target — one that always answers after a fixed
//! latency, or is unreachable from the first request — the run itself
//! becomes a pure function of the configuration, and that function is
//! what this module computes and proves things about: simulated time
//! starts at zero, each completed request advances it by the target's
//! latency, and the clock reading a worker sees is simulated time in
//! whole seconds.
//!
//! The simulation drives the very same decision and bookkeeping
//! functions (`within_deadline`, `WorkerState::record`, `aggregate`)
//! that the real binary drives with live requests.

use vstd::arithmetic::div_mod::{
    lemma_div_multiples_vanish, lemma_fundamental_div_mod, lemma_mod_bound,
};
use vstd::arithmetic::mul::lemma_mul_upper_bound;
use vstd::prelude::*;

use crate::aggregate::{aggregate, sum_counts, sum_latencies, AggregateReport};
use crate::worker::{within_deadline, RequestOutcome, RunError, WorkerResult, WorkerState};

verus! {

/// The window of simulated milliseconds during which the deadline check
/// still passes: the check `elapsed <= duration` is inclusive, so with a
/// non-negative duration the loop keeps going until `duration + 1` whole
/// seconds have passed. With a negative duration the very first check
/// fails and the window is empty.
pub open spec fn run_window_ms(duration_seconds: int) -> int {
    if duration_seconds >= 0 {
        (duration_seconds + 1) * 1000
    } else {
        0
    }
}

/// How many requests complete when each one advances simulated time by
/// `latency_ms`, starting at time `t` and stopping once the window is
/// over.
pub open spec fn completed_requests(t: int, window_ms: int, latency_ms: int) -> int
    decreases (if t < window_ms { window_ms - t } else { 0 }) when latency_ms >= 1
{
    if t >= window_ms {
        0
    } else {
        1 + completed_requests(t + latency_ms, window_ms, latency_ms)
    }
}

/// The request count is never negative and never exceeds the remaining
/// window, since every request consumes at least one millisecond.
pub proof fn lemma_completed_requests_bounds(t: int, window_ms: int, latency_ms: int)
    requires
        latency_ms >= 1,
    ensures
        0 <= completed_requests(t, window_ms, latency_ms),
        completed_requests(t, window_ms, latency_ms) <= (if t < window_ms {
            window_ms - t
        } else {
            0
        }),
    decreases (if t < window_ms { window_ms - t } else { 0 }),
{
    if t < window_ms {
        lemma_completed_requests_bounds(t + latency_ms, window_ms, latency_ms);
    }
}

/// The deadline rule in two equivalent forms: the clock reading derived
/// from simulated time has not passed the duration exactly when the
/// simulated time is still inside the run window.
pub proof fn lemma_deadline_window(t: int, duration_seconds: int)
    requires
        t >= 0,
        duration_seconds >= 0,
    ensures
        (t / 1000 <= duration_seconds) <==> (t < run_window_ms(duration_seconds)),
{
    lemma_fundamental_div_mod(t, 1000);
    lemma_mod_bound(t, 1000);
}

/// What one worker returns against the deterministic target, as a pure
/// function of the configuration: a worker that never gets to issue a
/// request (negative duration) returns an empty tally; an unreachable
/// target fails the first request and aborts; otherwise the worker
/// completes one request per `latency_ms` of the window, and the last
/// one's latency is the target's.
pub open spec fn worker_outcome_spec(
    duration_seconds: int,
    latency_ms: int,
    reachable: bool,
) -> Result<WorkerResult, RunError> {
    if duration_seconds < 0 {
        Ok(WorkerResult { request_count: 0, last_latency_ms: 0 })
    } else if !reachable {
        Err(RunError::Transport)
    } else {
        Ok(
            WorkerResult {
                request_count: completed_requests(
                    0,
                    run_window_ms(duration_seconds),
                    latency_ms,
                ) as i32,
                last_latency_ms: latency_ms as u128,
            },
        )
    }
}

/// What the whole run returns: no workers at all is an error, one
/// failing worker aborts the run, and otherwise `concurrency` identical
/// tallies are reduced — the total is `concurrency` times one worker's
/// count, and the average of `concurrency` equal last latencies is that
/// latency.
pub open spec fn run_outcome_spec(
    duration_seconds: int,
    concurrency: int,
    latency_ms: int,
    reachable: bool,
) -> Result<AggregateReport, RunError> {
    if concurrency <= 0 {
        Err(RunError::NoWorkers)
    } else {
        match worker_outcome_spec(duration_seconds, latency_ms, reachable) {
            Err(e) => Err(e),
            Ok(w) => Ok(
                AggregateReport {
                    total_requests: (concurrency * w.request_count) as i32,
                    average_latency_ms: w.last_latency_ms,
                },
            ),
        }
    }
}

/// The loop-top check as the simulation sees it: derive the clock
/// reading from simulated time, then apply the worker's deadline rule.
fn sim_keep_going(t_ms: u64, duration_seconds: i32) -> (keep_going: bool)
    requires
        duration_seconds >= 0,
        t_ms <= i32::MAX as u64,
    ensures
        keep_going == (t_ms < run_window_ms(duration_seconds as int)),
{
    let elapsed: i32 = (t_ms / 1000) as i32;
    proof {
        lemma_deadline_window(t_ms as int, duration_seconds as int);
    }
    within_deadline(elapsed, duration_seconds)
}

/// Drive one worker's loop against the deterministic target.
///
/// The result is exactly `worker_outcome_spec`: the loop reads the
/// simulated clock, stops once the deadline has passed, and otherwise
/// records one request outcome and advances simulated time by the
/// request's latency.
pub fn simulate_worker(duration_seconds: i32, latency_ms: u64, reachable: bool) -> (r: Result<
    WorkerResult,
    RunError,
>)
    requires
        latency_ms >= 1,
        run_window_ms(duration_seconds as int) <= i32::MAX,
    ensures
        r == worker_outcome_spec(duration_seconds as int, latency_ms as int, reachable),
{
    let mut state = WorkerState::new();
    if duration_seconds < 0 {
        // the very first deadline check already fails
        return Ok(state.finish());
    }
    let window: u64 = (duration_seconds as u64 + 1) * 1000;
    let ghost total = completed_requests(0, window as int, latency_ms as int);
    proof {
        lemma_completed_requests_bounds(0, window as int, latency_ms as int);
    }

    let mut t: u64 = 0;
    while sim_keep_going(t, duration_seconds)
        invariant
            duration_seconds >= 0,
            latency_ms >= 1,
            window == run_window_ms(duration_seconds as int),
            window <= i32::MAX,
            t <= window,
            total == completed_requests(0, window as int, latency_ms as int),
            state.request_count == total - completed_requests(
                t as int,
                window as int,
                latency_ms as int,
            ),
            t == 0 ==> state.last_latency_ms == 0,
            t > 0 ==> state.last_latency_ms == latency_ms,
            t > 0 ==> reachable,
            0 <= total <= window,
        decreases window - t,
    {
        if !reachable {
            return Err(RunError::Transport);
        }
        proof {
            lemma_completed_requests_bounds(
                t as int + latency_ms as int,
                window as int,
                latency_ms as int,
            );
        }
        let outcome = RequestOutcome::Completed { latency_ms: latency_ms as u128 };
        match state.record(outcome) {
            Ok(()) => {},
            Err(e) => {
                return Err(e);
            },
        }
        // advance simulated time; the clamp only matters when one
        // request outlasts the whole remaining window
        if latency_ms >= window - t {
            t = window;
        } else {
            t = t + latency_ms;
        }
    }
    proof {
        assert(t == window);
        assert(completed_requests(window as int, window as int, latency_ms as int) == 0);
        assert(reachable);
    }
    Ok(state.finish())
}

proof fn lemma_sum_counts_constant(w: WorkerResult, s: Seq<WorkerResult>)
    requires
        forall|j: int| 0 <= j < s.len() ==> s[j] == w,
    ensures
        sum_counts(s) == s.len() * w.request_count,
    decreases s.len(),
{
    if s.len() > 0 {
        lemma_sum_counts_constant(w, s.drop_last());
        assert((s.len() - 1) * (w.request_count as int) + w.request_count == s.len() * (
        w.request_count as int)) by (nonlinear_arith);
    }
}

proof fn lemma_sum_latencies_constant(w: WorkerResult, s: Seq<WorkerResult>)
    requires
        forall|j: int| 0 <= j < s.len() ==> s[j] == w,
    ensures
        sum_latencies(s) == s.len() * w.last_latency_ms,
    decreases s.len(),
{
    if s.len() > 0 {
        lemma_sum_latencies_constant(w, s.drop_last());
        assert((s.len() - 1) * (w.last_latency_ms as int) + w.last_latency_ms == s.len() * (
        w.last_latency_ms as int)) by (nonlinear_arith);
    }
}

/// Drive a whole run against the deterministic target: spawn
/// `concurrency` identical workers, collect their tallies, and reduce
/// them with the same `aggregate` the real run uses.
///
/// The result is exactly `run_outcome_spec` of the configuration.
pub fn simulate_run(
    duration_seconds: i32,
    concurrency: i32,
    latency_ms: u64,
    reachable: bool,
) -> (r: Result<AggregateReport, RunError>)
    requires
        latency_ms >= 1,
        run_window_ms(duration_seconds as int) <= i32::MAX,
        concurrency * completed_requests(
            0,
            run_window_ms(duration_seconds as int),
            latency_ms as int,
        ) <= i32::MAX,
    ensures
        r == run_outcome_spec(
            duration_seconds as int,
            concurrency as int,
            latency_ms as int,
            reachable,
        ),
{
    if concurrency <= 0 {
        return Err(RunError::NoWorkers);
    }
    proof {
        lemma_completed_requests_bounds(
            0,
            run_window_ms(duration_seconds as int),
            latency_ms as int,
        );
    }
    let ghost expected = worker_outcome_spec(
        duration_seconds as int,
        latency_ms as int,
        reachable,
    );

    let mut results: Vec<WorkerResult> = Vec::new();
    let mut k: i32 = 0;
    while k < concurrency
        invariant
            0 <= k <= concurrency,
            latency_ms >= 1,
            run_window_ms(duration_seconds as int) <= i32::MAX,
            expected == worker_outcome_spec(
                duration_seconds as int,
                latency_ms as int,
                reachable,
            ),
            k > 0 ==> expected is Ok,
            results@.len() == k,
            forall|j: int| 0 <= j < k ==> results@[j] == expected->Ok_0,
        decreases concurrency - k,
    {
        let one = match simulate_worker(duration_seconds, latency_ms, reachable) {
            Ok(w) => w,
            Err(e) => {
                return Err(e);
            },
        };
        results.push(one);
        k = k + 1;
    }

    proof {
        let w = expected->Ok_0;
        lemma_sum_counts_constant(w, results@);
        lemma_sum_latencies_constant(w, results@);
        lemma_completed_requests_bounds(
            0,
            run_window_ms(duration_seconds as int),
            latency_ms as int,
        );
        // the latency sum stays far below the u128 ceiling
        lemma_mul_upper_bound(
            concurrency as int,
            0x8000_0000,
            w.last_latency_ms as int,
            0xffff_ffff_ffff_ffff,
        );
        // the average of `concurrency` equal values is that value
        lemma_div_multiples_vanish(w.last_latency_ms as int, concurrency as int);
    }
    match aggregate(&results) {
        Ok(report) => Ok(report),
        Err(e) => Err(e),
    }
}

/// Law: against a target that always succeeds, a run with at least one
/// worker and a non-negative duration completes with a report, and every
/// worker contributes at least one request, so the total is at least the
/// worker count.
pub proof fn lemma_run_total_at_least_concurrency(
    duration_seconds: int,
    concurrency: int,
    latency_ms: int,
)
    requires
        duration_seconds >= 0,
        concurrency >= 1,
        latency_ms >= 1,
        concurrency * completed_requests(
            0,
            run_window_ms(duration_seconds),
            latency_ms,
        ) <= i32::MAX,
    ensures
        run_outcome_spec(duration_seconds, concurrency, latency_ms, true) is Ok,
        run_outcome_spec(duration_seconds, concurrency, latency_ms, true)->Ok_0.total_requests
            >= concurrency,
{
    let window = run_window_ms(duration_seconds);
    let n = completed_requests(0, window, latency_ms);
    lemma_completed_requests_bounds(latency_ms, window, latency_ms);
    assert(n >= 1);
    assert(concurrency <= concurrency * n && n <= concurrency * n) by (nonlinear_arith)
        requires
            concurrency >= 1,
            n >= 1,
    ;
    assert(run_outcome_spec(duration_seconds, concurrency, latency_ms, true)->Ok_0.total_requests
        == concurrency * n);
}

/// Law: with a zero duration the first deadline check still passes, so
/// when each request takes at least the full first second, every worker
/// completes exactly one request and the run's total equals the worker
/// count. (A faster target fits several requests into second zero.)
pub proof fn lemma_zero_duration_totals_concurrency(concurrency: int, latency_ms: int)
    requires
        1 <= concurrency <= i32::MAX,
        latency_ms >= 1000,
    ensures
        run_outcome_spec(0, concurrency, latency_ms, true) is Ok,
        run_outcome_spec(0, concurrency, latency_ms, true)->Ok_0.total_requests == concurrency,
{
    let window = run_window_ms(0);
    assert(window == 1000);
    assert(completed_requests(latency_ms, window, latency_ms) == 0);
    assert(completed_requests(0, window, latency_ms) == 1);
    assert(run_outcome_spec(0, concurrency, latency_ms, true)->Ok_0.total_requests == (concurrency
        * 1) as i32);
}

/// Law: the simulated run is a function of its configuration alone —
/// two runs with the same duration, concurrency, target latency and
/// reachability return the same outcome.
pub proof fn lemma_run_idempotent(
    duration_a: int,
    concurrency_a: int,
    latency_a: int,
    reachable_a: bool,
    duration_b: int,
    concurrency_b: int,
    latency_b: int,
    reachable_b: bool,
)
    requires
        duration_a == duration_b,
        concurrency_a == concurrency_b,
        latency_a == latency_b,
        reachable_a == reachable_b,
    ensures
        run_outcome_spec(duration_a, concurrency_a, latency_a, reachable_a) == run_outcome_spec(
            duration_b,
            concurrency_b,
            latency_b,
            reachable_b,
        ),
{
}

/// Law: a target that is unreachable from the very first request aborts
/// the run, and no report is produced.
pub proof fn lemma_unreachable_target_aborts(
    duration_seconds: int,
    concurrency: int,
    latency_ms: int,
)
    requires
        duration_seconds >= 0,
        concurrency >= 1,
    ensures
        run_outcome_spec(duration_seconds, concurrency, latency_ms, false) == Err::<
            AggregateReport,
            RunError,
        >(RunError::Transport),
{
}

} // verus!
