//! Monotonic counters for the server's request statistics.
//!
//! Every counter only ever grows during a run.  `total_requests` is bumped
//! when a request begins executing; exactly one of `successful_requests` or
//! `failed_requests` is bumped when its response is produced, so once all
//! in-flight work has completed, `total == succeeded + failed`.  The runtime
//! harness serialises concurrent increments (the counters are plain values
//! here); the dispatcher model owns one instance and threads it through its
//! transitions.

use vstd::prelude::*;

verus! {

/// Counters for submitted, succeeded, and failed requests.
pub struct ServerStats {
    pub total_requests: u64,
    pub successful_requests: u64,
    pub failed_requests: u64,
}

impl ServerStats {
    /// Fresh statistics: every counter starts at zero.
    pub fn new() -> (stats: ServerStats)
        ensures
            stats.total_requests == 0,
            stats.successful_requests == 0,
            stats.failed_requests == 0,
    {
        ServerStats { total_requests: 0, successful_requests: 0, failed_requests: 0 }
    }

    /// Records that one more request has started executing.
    pub fn record_request(&mut self)
        requires
            old(self).total_requests < u64::MAX,
        ensures
            final(self).total_requests == old(self).total_requests + 1,
            final(self).successful_requests == old(self).successful_requests,
            final(self).failed_requests == old(self).failed_requests,
    {
        self.total_requests = self.total_requests + 1;
    }

    /// Records that one more request has completed with status 200.
    pub fn record_success(&mut self)
        requires
            old(self).successful_requests < u64::MAX,
        ensures
            final(self).successful_requests == old(self).successful_requests + 1,
            final(self).total_requests == old(self).total_requests,
            final(self).failed_requests == old(self).failed_requests,
    {
        self.successful_requests = self.successful_requests + 1;
    }

    /// Records that one more request has completed with status 500.
    pub fn record_failure(&mut self)
        requires
            old(self).failed_requests < u64::MAX,
        ensures
            final(self).failed_requests == old(self).failed_requests + 1,
            final(self).total_requests == old(self).total_requests,
            final(self).successful_requests == old(self).successful_requests,
    {
        self.failed_requests = self.failed_requests + 1;
    }

    /// A consistent read-only snapshot: `(total, succeeded, failed)`.
    pub fn snapshot(&self) -> (counts: (u64, u64, u64))
        ensures
            counts.0 == self.total_requests,
            counts.1 == self.successful_requests,
            counts.2 == self.failed_requests,
    {
        (self.total_requests, self.successful_requests, self.failed_requests)
    }
}

} // verus!
