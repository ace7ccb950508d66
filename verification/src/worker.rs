//! Per-worker request-loop state and decisions.
//!
//! A worker repeats one step: read the shared clock, stop if the deadline
//! has passed, otherwise issue one GET and record how it went. The
//! network call itself happens in the binary; this module holds the
//! decision at the top of the loop (`within_deadline`) and the state
//! update after each request (`WorkerState::record`).

use vstd::prelude::*;

verus! {

/// How a single request ended: completed after `latency_ms`
/// milliseconds, or failed at the transport level before completing.
///
/// A response with a non-success status still counts as `Completed`;
/// only a request that never completes is a failure.
#[derive(Clone, Copy, Debug, PartialEq, Eq, Structural)]
pub enum RequestOutcome {
    Completed { latency_ms: u128 },
    TransportFailure,
}

/// Why a run produced no report.
#[derive(Clone, Copy, Debug, PartialEq, Eq, Structural)]
pub enum RunError {
    /// A request failed at the transport level; the whole run aborts and
    /// every worker's partial tally is discarded.
    Transport,
    /// Fewer than one worker was asked for, so there are no results to
    /// reduce and the average below would divide by zero.
    NoWorkers,
}

/// What one worker hands back when it stops: how many requests it
/// completed, and the latency of the most recent one. No running mean is
/// kept; each completed request overwrites `last_latency_ms`.
#[derive(Clone, Copy, Debug, PartialEq, Eq, Structural)]
pub struct WorkerResult {
    pub request_count: i32,
    pub last_latency_ms: u128,
}

/// A worker's running tally while its loop is still going.
#[derive(Clone, Copy, Debug, PartialEq, Eq, Structural)]
pub struct WorkerState {
    pub request_count: i32,
    pub last_latency_ms: u128,
}

/// The loop-top check: keep issuing requests while the shared counter
/// has not passed the configured duration. The comparison is inclusive,
/// so the iteration that starts exactly at the deadline still runs.
pub fn within_deadline(elapsed_seconds: i32, duration_seconds: i32) -> (keep_going: bool)
    ensures
        keep_going == (elapsed_seconds <= duration_seconds),
{
    elapsed_seconds <= duration_seconds
}

impl WorkerState {
    /// A worker that has not issued any request yet.
    pub fn new() -> (s: WorkerState)
        ensures
            s.request_count == 0,
            s.last_latency_ms == 0,
    {
        WorkerState { request_count: 0, last_latency_ms: 0 }
    }

    /// Fold one request's outcome into the tally.
    ///
    /// A completed request bumps the count by one and overwrites the
    /// last-seen latency. A transport failure is fatal to the run: the
    /// tally is left as it was and the error propagates.
    pub fn record(&mut self, outcome: RequestOutcome) -> (r: Result<(), RunError>)
        requires
            old(self).request_count < i32::MAX,
        ensures
            match outcome {
                RequestOutcome::Completed { latency_ms } => {
                    &&& r is Ok
                    &&& final(self).request_count == old(self).request_count + 1
                    &&& final(self).last_latency_ms == latency_ms
                },
                RequestOutcome::TransportFailure => {
                    &&& r == Err::<(), RunError>(RunError::Transport)
                    &&& *final(self) == *old(self)
                },
            },
    {
        match outcome {
            RequestOutcome::Completed { latency_ms } => {
                self.request_count = self.request_count + 1;
                self.last_latency_ms = latency_ms;
                Ok(())
            },
            RequestOutcome::TransportFailure => Err(RunError::Transport),
        }
    }

    /// The finished worker's tally, returned by value once the loop has
    /// exited.
    pub fn finish(self) -> (r: WorkerResult)
        ensures
            r.request_count == self.request_count,
            r.last_latency_ms == self.last_latency_ms,
    {
        WorkerResult { request_count: self.request_count, last_latency_ms: self.last_latency_ms }
    }
}

} // verus!
