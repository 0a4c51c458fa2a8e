//! A worker's request handler.
//!
//! Executing a request is simulated work: the runtime harness sleeps for the
//! request's processing time, while the outcome itself is fully deterministic.
//! The handler records the execution in the shared statistics and builds the
//! response, so everything except the sleep is verified here.

use vstd::prelude::*;
use vstd::string::StringExecFns;
use crate::request::{response_status, Request, Response};
use crate::stats::ServerStats;

verus! {

/// Handles requests on behalf of one worker of the pool.
pub struct RequestHandler {
    pub id: usize,
}

impl RequestHandler {
    /// Executes one request: records it, derives the status from the
    /// deterministic failure rule, records the outcome, and builds the
    /// response.  The simulated processing delay is the caller's business;
    /// it does not change the outcome.
    pub fn handle_request(&self, request: &Request, stats: &mut ServerStats) -> (response:
        Response)
        requires
            old(stats).total_requests < u64::MAX,
            old(stats).successful_requests < u64::MAX,
            old(stats).failed_requests < u64::MAX,
        ensures
            response.request_id == request.id,
            response.status == response_status(request.id),
            response.body@ == "Response for "@ + request.path@,
            final(stats).total_requests == old(stats).total_requests + 1,
            request.id % 7 == 0 ==> final(stats).failed_requests == old(stats).failed_requests
                + 1 && final(stats).successful_requests == old(stats).successful_requests,
            request.id % 7 != 0 ==> final(stats).successful_requests == old(
                stats,
            ).successful_requests + 1 && final(stats).failed_requests == old(stats).failed_requests,
    {
        stats.record_request();
        self.complete_request(request, stats)
    }

    /// The second half of handling: after the simulated processing, derive
    /// the status from the deterministic failure rule, record the outcome,
    /// and build the response.  `total_requests` was already counted when the
    /// request began.
    pub fn complete_request(&self, request: &Request, stats: &mut ServerStats) -> (response:
        Response)
        requires
            old(stats).successful_requests < u64::MAX,
            old(stats).failed_requests < u64::MAX,
        ensures
            response.request_id == request.id,
            response.status == response_status(request.id),
            response.body@ == "Response for "@ + request.path@,
            final(stats).total_requests == old(stats).total_requests,
            request.id % 7 == 0 ==> final(stats).failed_requests == old(stats).failed_requests
                + 1 && final(stats).successful_requests == old(stats).successful_requests,
            request.id % 7 != 0 ==> final(stats).successful_requests == old(
                stats,
            ).successful_requests + 1 && final(stats).failed_requests == old(stats).failed_requests,
    {
        execute_outcome(request, stats)
    }
}

/// Derives the status for `request` from the deterministic failure rule,
/// records the outcome in the statistics, and builds the response.  Shared by
/// the bundled handler above and the pool's delivery step.
pub(crate) fn execute_outcome(request: &Request, stats: &mut ServerStats) -> (response: Response)
    requires
        old(stats).successful_requests < u64::MAX,
        old(stats).failed_requests < u64::MAX,
    ensures
        response.request_id == request.id,
        response.status == response_status(request.id),
        response.body@ == "Response for "@ + request.path@,
        final(stats).total_requests == old(stats).total_requests,
        request.id % 7 == 0 ==> final(stats).failed_requests == old(stats).failed_requests + 1
            && final(stats).successful_requests == old(stats).successful_requests,
        request.id % 7 != 0 ==> final(stats).successful_requests == old(
            stats,
        ).successful_requests + 1 && final(stats).failed_requests == old(stats).failed_requests,
{
    let status: u16 = if request.id % 7 == 0 {
        stats.record_failure();
        500
    } else {
        stats.record_success();
        200
    };
    let mut body = String::from_str("Response for ");
    body.append(request.path.as_str());
    Response { request_id: request.id, status, body }
}

} // verus!
