//! Requests and responses carried through the dispatcher.
//!
//! A request is immutable once created; it moves from the generator into the
//! inbound queue, to exactly one worker, and is answered by exactly one
//! response.  Processing time is carried as a plain number of milliseconds so
//! that the scheduling logic can reason about it directly; the runtime harness
//! turns it into a real delay.

use vstd::prelude::*;

verus! {

/// A synthetic request: a unique id, a path, and a simulated processing time
/// in milliseconds.
pub struct Request {
    pub id: u64,
    pub path: String,
    pub processing_time_ms: u64,
}

/// A response produced for exactly one request.  `status` is 200 for success
/// and 500 for the injected deterministic failure.
pub struct Response {
    pub request_id: u64,
    pub status: u16,
    pub body: String,
}

/// The deterministic failure rule: every seventh id fails.
pub open spec fn response_status(id: u64) -> u16 {
    if id % 7 == 0 {
        500
    } else {
        200
    }
}

/// How many of the ids `1..=n` the deterministic failure rule fails.
pub open spec fn failures_among(n: u64) -> nat
    decreases n,
{
    if n == 0 {
        0
    } else {
        failures_among((n - 1) as u64) + (if n % 7 == 0 {
            1nat
        } else {
            0nat
        })
    }
}

/// What the one response answering `req` looks like: it carries the request's
/// id, the status the deterministic failure rule assigns, and a body naming
/// the path.
pub open spec fn is_response_for(resp: Response, req: Request) -> bool {
    &&& resp.request_id == req.id
    &&& resp.status == response_status(req.id)
    &&& resp.body@ == "Response for "@ + req.path@
}

/// Computes the status a request's execution ends with, following the
/// deterministic failure rule.
pub fn status_for(id: u64) -> (status: u16)
    ensures
        status == response_status(id),
{
    if id % 7 == 0 {
        500
    } else {
        200
    }
}

} // verus!
