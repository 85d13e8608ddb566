//! Counters of requests served and failed and the time since the process
//! started. Emitting them to a metrics exporter is the caller's part.

use crate::stats::counted;
use std::time::Instant;
use vstd::prelude::*;

verus! {

/// The request counters and the time since which the process runs.
#[derive(Debug, Clone)]
pub struct MetricsState {
    pub start_time: Instant,
    pub requests_total: u64,
    pub requests_failed: u64,
}

/// Whether a response of this status counts as a failure: 400 and above.
pub open spec fn is_failure_status(status: u16) -> bool {
    status >= 400
}

impl MetricsState {
    /// Counters at zero, started now.
    pub fn new() -> (metrics: MetricsState)
        ensures
            metrics.requests_total == 0,
            metrics.requests_failed == 0,
    {
        MetricsState { start_time: Instant::now(), requests_total: 0, requests_failed: 0 }
    }

    /// Counts one request.
    pub fn increment_requests(&mut self)
        ensures
            final(self).requests_total == counted(old(self).requests_total, 1),
            final(self).requests_failed == old(self).requests_failed,
    {
        self.requests_total = self.requests_total.wrapping_add(1);
    }

    /// Counts one failed request.
    pub fn increment_failures(&mut self)
        ensures
            final(self).requests_failed == counted(old(self).requests_failed, 1),
            final(self).requests_total == old(self).requests_total,
    {
        self.requests_failed = self.requests_failed.wrapping_add(1);
    }

    /// The whole seconds since the process started, as the clock tells them.
    pub fn uptime_seconds(&self) -> u64 {
        let running = self.start_time.elapsed();
        running.as_secs()
    }

    /// The number of requests counted.
    pub fn get_requests_total(&self) -> (total: u64)
        ensures
            total == self.requests_total,
    {
        self.requests_total
    }

    /// The number of failed requests counted.
    pub fn get_requests_failed(&self) -> (failed: u64)
        ensures
            failed == self.requests_failed,
    {
        self.requests_failed
    }
}

impl Default for MetricsState {
    fn default() -> (metrics: MetricsState)
        ensures
            metrics.requests_total == 0,
            metrics.requests_failed == 0,
    {
        MetricsState::new()
    }
}

/// Counts a request that was answered with `status`: one request more, and
/// one failure more where the status is 400 or above.
pub fn track_metrics(metrics: &mut MetricsState, status: u16)
    ensures
        final(metrics).requests_total == counted(old(metrics).requests_total, 1),
        final(metrics).requests_failed == if is_failure_status(status) {
            counted(old(metrics).requests_failed, 1)
        } else {
            old(metrics).requests_failed
        },
{
    metrics.increment_requests();
    if status >= 400 {
        metrics.increment_failures();
    }
}

} // verus!
