use stress_test_cli::aggregate::{aggregate, AggregateReport};
use stress_test_cli::clock::Clock;
use stress_test_cli::sim::{simulate_run, simulate_worker};
use stress_test_cli::worker::{within_deadline, RequestOutcome, RunError, WorkerResult, WorkerState};

#[test]
fn clock_starts_at_zero_and_counts_ticks() {
    let mut clock = Clock::new();
    assert_eq!(clock.read(), 0);
    clock.tick();
    assert_eq!(clock.read(), 1);
    clock.advance(5);
    assert_eq!(clock.read(), 6);
}

#[test]
fn deadline_check_is_inclusive() {
    assert!(within_deadline(0, 0));
    assert!(within_deadline(5, 5));
    assert!(!within_deadline(6, 5));
    assert!(within_deadline(0, 10));
    assert!(!within_deadline(0, -1));
}

#[test]
fn worker_records_count_and_last_latency() {
    let mut state = WorkerState::new();
    assert_eq!(state.record(RequestOutcome::Completed { latency_ms: 10 }), Ok(()));
    assert_eq!(state.record(RequestOutcome::Completed { latency_ms: 25 }), Ok(()));
    let result = state.finish();
    assert_eq!(result.request_count, 2);
    // only the most recent latency survives
    assert_eq!(result.last_latency_ms, 25);
}

#[test]
fn worker_transport_failure_is_fatal_and_leaves_tally() {
    let mut state = WorkerState::new();
    assert_eq!(state.record(RequestOutcome::Completed { latency_ms: 10 }), Ok(()));
    assert_eq!(state.record(RequestOutcome::TransportFailure), Err(RunError::Transport));
    let result = state.finish();
    assert_eq!(result.request_count, 1);
    assert_eq!(result.last_latency_ms, 10);
}

#[test]
fn aggregate_of_no_results_is_an_error() {
    let results: Vec<WorkerResult> = Vec::new();
    assert_eq!(aggregate(&results), Err(RunError::NoWorkers));
}

#[test]
fn aggregate_sums_counts_and_averages_latencies() {
    let results = vec![
        WorkerResult { request_count: 2, last_latency_ms: 3 },
        WorkerResult { request_count: 5, last_latency_ms: 4 },
    ];
    let report = aggregate(&results).unwrap();
    assert_eq!(report.total_requests, 7);
    // (3 + 4) / 2 workers, integer division, truncating
    assert_eq!(report.average_latency_ms, 3);
}

#[test]
fn aggregate_average_truncates() {
    let results = vec![
        WorkerResult { request_count: 1, last_latency_ms: 1 },
        WorkerResult { request_count: 1, last_latency_ms: 2 },
    ];
    let report = aggregate(&results).unwrap();
    assert_eq!(report.average_latency_ms, 1);
}

#[test]
fn run_with_always_up_target_completes_at_least_one_each() {
    // duration 1s, 2 workers, 1ms per request: the window is the two
    // whole seconds during which elapsed <= 1, so 2000 requests each
    let report = simulate_run(1, 2, 1, true).unwrap();
    assert_eq!(report.total_requests, 4000);
    assert!(report.total_requests >= 2);
}

#[test]
fn zero_duration_still_runs_one_request_per_worker() {
    // the first check (0 <= 0) passes; a request that takes the whole
    // first second is the only one that fits
    let worker = simulate_worker(0, 1000, true).unwrap();
    assert_eq!(worker.request_count, 1);
    let report = simulate_run(0, 4, 1000, true).unwrap();
    assert_eq!(report.total_requests, 4);
    assert_eq!(report.average_latency_ms, 1000);
}

#[test]
fn two_second_run_three_workers_ten_ms_target() {
    // the inclusive deadline keeps each worker going while elapsed <= 2,
    // i.e. for 3000 simulated ms: 300 requests per worker
    let report = simulate_run(2, 3, 10, true).unwrap();
    assert_eq!(report.total_requests, 900);
    assert_eq!(report.average_latency_ms, 10);
    // requests per second is derived by the caller in float, unrounded
    let rps = report.total_requests as f64 / 2.0f64;
    assert_eq!(rps, 450.0);
}

#[test]
fn identical_configs_give_identical_reports() {
    let first = simulate_run(3, 2, 7, true);
    let second = simulate_run(3, 2, 7, true);
    assert_eq!(first, second);
    assert!(first.is_ok());
}

#[test]
fn unreachable_target_aborts_without_report() {
    assert_eq!(simulate_run(2, 3, 10, false), Err(RunError::Transport));
    assert_eq!(simulate_worker(0, 1, false), Err(RunError::Transport));
}

#[test]
fn zero_concurrency_is_guarded() {
    assert_eq!(simulate_run(2, 0, 10, true), Err(RunError::NoWorkers));
    assert_eq!(simulate_run(2, -1, 10, true), Err(RunError::NoWorkers));
}

#[test]
fn negative_duration_issues_no_request() {
    // the very first deadline check fails, so even an unreachable
    // target is never contacted
    assert_eq!(
        simulate_worker(-1, 5, true),
        Ok(WorkerResult { request_count: 0, last_latency_ms: 0 })
    );
    assert_eq!(
        simulate_run(-1, 2, 5, false),
        Ok(AggregateReport { total_requests: 0, average_latency_ms: 0 })
    );
}
