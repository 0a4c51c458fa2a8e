//! The traffic harness around the balancer: the generator's synthetic
//! requests and the collector's termination logic.
//!
//! The generator issues requests with consecutive ids, a path cycling over
//! five endpoints, and a processing time derived from the id.  The collector
//! counts delivered responses and decides, for each event it observes, whether
//! to keep collecting and how to report stopping — reaching the expected
//! count, the stream closing, and a timeout are three distinguishable ends.

use vstd::prelude::*;
use vstd::string::StringExecFns;
use vstd::pervasive::unreached;
use crate::dispatcher::{FinishOutcome, LoadBalancer, ReceiveOutcome, SubmitOutcome, TakeOutcome};
use crate::request::{failures_among, response_status, Request, Response};

verus! {

/// The path of endpoint `k`, for `k` in `0..5`.
pub open spec fn endpoint_path(k: u64) -> Seq<char> {
    if k == 0 {
        "/api/endpoint0"@
    } else if k == 1 {
        "/api/endpoint1"@
    } else if k == 2 {
        "/api/endpoint2"@
    } else if k == 3 {
        "/api/endpoint3"@
    } else {
        "/api/endpoint4"@
    }
}

/// The simulated processing time for request `i`: between 100 and 300
/// milliseconds, derived deterministically from the id.
pub open spec fn processing_time_for(i: u64) -> u64 {
    (100 + (i % 5) * 50) as u64
}

/// Builds the generator's `i`-th synthetic request: id `i`, a path cycling
/// over the five endpoints, and the deterministic processing time.
pub fn make_request(i: u64) -> (request: Request)
    ensures
        request.id == i,
        request.path@ == endpoint_path(i % 5),
        request.processing_time_ms == processing_time_for(i),
{
    let rem = i % 5;
    let path = if rem == 0 {
        String::from_str("/api/endpoint0")
    } else if rem == 1 {
        String::from_str("/api/endpoint1")
    } else if rem == 2 {
        String::from_str("/api/endpoint2")
    } else if rem == 3 {
        String::from_str("/api/endpoint3")
    } else {
        String::from_str("/api/endpoint4")
    };
    let processing_time_ms = 100 + rem * 50;
    Request { id: i, path, processing_time_ms }
}

/// What the collector observed while waiting for a response: a response
/// arrived, the stream closed, or its wait timed out.
pub enum CollectEvent {
    Delivered,
    Closed,
    TimedOut,
}

/// How a finished collector reports its end: the expected count was reached,
/// the stream closed early, or a wait timed out.  The three are always
/// distinguishable.
pub enum CollectorReport {
    CountReached,
    StreamClosed,
    ResponseTimeout,
}

/// The collector's state: how many responses it expects and how many it has
/// received so far.
pub struct Collector {
    pub expected: u64,
    pub received: u64,
}

impl Collector {
    /// A collector that expects `expected` responses and has seen none.
    pub fn new(expected: u64) -> (c: Collector)
        ensures
            c.expected == expected,
            c.received == 0,
    {
        Collector { expected, received: 0 }
    }

    /// Whether the collector still waits for more responses.
    pub fn needs_more(&self) -> (more: bool)
        ensures
            more == (self.received < self.expected),
    {
        self.received < self.expected
    }

    /// Feeds one observed event to a still-collecting collector and decides
    /// whether to stop.  A delivered response is counted and ends the run
    /// exactly when it completes the expected count; a closed stream or a
    /// timeout ends the run at once, each under its own report.
    pub fn observe(&mut self, event: CollectEvent) -> (report: Option<CollectorReport>)
        requires
            old(self).received < old(self).expected,
        ensures
            final(self).expected == old(self).expected,
            event is Delivered ==> {
                &&& final(self).received == old(self).received + 1
                &&& report == (if final(self).received == final(self).expected {
                    Some(CollectorReport::CountReached)
                } else {
                    None::<CollectorReport>
                })
            },
            event is Closed ==> final(self).received == old(self).received && report == Some(
                CollectorReport::StreamClosed,
            ),
            event is TimedOut ==> final(self).received == old(self).received && report == Some(
                CollectorReport::ResponseTimeout,
            ),
    {
        match event {
            CollectEvent::Delivered => {
                self.received = self.received + 1;
                if self.received == self.expected {
                    Some(CollectorReport::CountReached)
                } else {
                    None
                }
            },
            CollectEvent::Closed => Some(CollectorReport::StreamClosed),
            CollectEvent::TimedOut => Some(CollectorReport::ResponseTimeout),
        }
    }
}

/// Drives one complete run of the dispatcher, one request at a time, through
/// the whole protocol: generate and submit, pull, admit, execute, deliver,
/// collect; then close the inbound side, let every worker drain out, and
/// close the outbound side.  The run ends with every submitted request
/// answered by exactly one response, in order, each status following the
/// deterministic failure rule, and the statistics consistent: `num_requests`
/// total, `failures_among(num_requests)` failed, the rest succeeded.
pub fn run_simulation(
    num_requests: u64,
    worker_count: usize,
    max_concurrent: usize,
    inbound_capacity: usize,
    outbound_capacity: usize,
) -> (outcome: (Vec<Response>, LoadBalancer))
    requires
        num_requests < u64::MAX,
        worker_count >= 1,
        max_concurrent >= 1,
        inbound_capacity >= 1,
        outbound_capacity >= 1,
    ensures
        outcome.0@.len() == num_requests,
        forall|k: int|
            0 <= k < num_requests ==> {
                &&& (#[trigger] outcome.0@[k]).request_id == k + 1
                &&& outcome.0@[k].status == response_status((k + 1) as u64)
            },
        outcome.1.inv(),
        outcome.1.worker_count == worker_count,
        outcome.1.max_concurrent == max_concurrent,
        outcome.1.inbound_capacity == inbound_capacity,
        outcome.1.outbound_capacity == outbound_capacity,
        outcome.1.pending@.len() == 0,
        outcome.1.staged@.len() == 0,
        outcome.1.executing@.len() == 0,
        outcome.1.outbound@.len() == 0,
        outcome.1.lost@.len() == 0,
        outcome.1.stats.total_requests == num_requests,
        outcome.1.stats.failed_requests == failures_among(num_requests),
        outcome.1.stats.successful_requests == num_requests - failures_among(num_requests),
        outcome.1.collected@.len() == num_requests,
        outcome.1.submitted@ == Seq::new(num_requests as nat, |k: int| (k + 1) as u64),
        outcome.1.submitted@.no_duplicates(),
        outcome.1.collected@.no_duplicates(),
        outcome.1.collected@.to_multiset() == outcome.1.submitted@.to_multiset(),
        outcome.1.collected@.to_set() == outcome.1.submitted@.to_set(),
        outcome.1.workers_running == 0,
        outcome.1.inbound_closed,
        outcome.1.outbound_closed,
{
    let mut lb = LoadBalancer::new(
        worker_count,
        max_concurrent,
        inbound_capacity,
        outbound_capacity,
    );
    let mut responses: Vec<Response> = Vec::new();
    let mut i: u64 = 1;
    while i <= num_requests
        invariant
            num_requests < u64::MAX,
            1 <= i <= num_requests + 1,
            lb.inv(),
            lb.worker_count == worker_count,
            lb.max_concurrent == max_concurrent,
            lb.inbound_capacity == inbound_capacity,
            lb.outbound_capacity == outbound_capacity,
            !lb.inbound_closed,
            !lb.outbound_closed,
            !lb.receiver_gone,
            lb.pending@.len() == 0,
            lb.staged@.len() == 0,
            lb.executing@.len() == 0,
            lb.outbound@.len() == 0,
            responses@.len() == i - 1,
            forall|k: int|
                0 <= k < i - 1 ==> {
                    &&& (#[trigger] responses@[k]).request_id == k + 1
                    &&& responses@[k].status == response_status((k + 1) as u64)
                },
            lb.stats.total_requests == i - 1,
            lb.stats.failed_requests == failures_among((i - 1) as u64),
            lb.stats.successful_requests == i - 1 - failures_among((i - 1) as u64),
            failures_among((i - 1) as u64) <= i - 1,
            lb.collected@.len() == i - 1,
            lb.submitted@ =~= Seq::new((i - 1) as nat, |k: int| (k + 1) as u64),
            lb.lost@.len() == 0,
        decreases num_requests + 1 - i,
    {
        let request = make_request(i);
        let submitted = lb.submit_request(request);
        match submitted {
            SubmitOutcome::Accepted => (),
            _ => unreached(),
        }
        let taken = lb.worker_take();
        match taken {
            TakeOutcome::Taken(_) => (),
            _ => unreached(),
        }
        let started = lb.begin_request(0);
        assert(started);
        let finished = lb.finish_request(0);
        match finished {
            FinishOutcome::Responded => (),
            _ => unreached(),
        }
        let delivered = lb.get_response();
        match delivered {
            ReceiveOutcome::Delivered(response) => {
                responses.push(response);
            },
            _ => unreached(),
        }
        i = i + 1;
    }
    lb.close_inbound();
    while lb.workers_running > 0
        invariant
            lb.inv(),
            lb.worker_count == worker_count,
            lb.max_concurrent == max_concurrent,
            lb.inbound_capacity == inbound_capacity,
            lb.outbound_capacity == outbound_capacity,
            lb.inbound_closed,
            lb.pending@.len() == 0,
            lb.staged@.len() == 0,
            lb.executing@.len() == 0,
            lb.outbound@.len() == 0,
            lb.stats.total_requests == num_requests,
            lb.stats.failed_requests == failures_among(num_requests),
            lb.stats.successful_requests == num_requests - failures_among(num_requests),
            lb.collected@.len() == num_requests,
            lb.submitted@ =~= Seq::new(num_requests as nat, |k: int| (k + 1) as u64),
            lb.lost@.len() == 0,
            !lb.outbound_closed,
            !lb.receiver_gone,
        decreases lb.workers_running,
    {
        let exited = lb.worker_exit();
        assert(exited);
    }
    lb.close_outbound();
    proof {
        assert(lb.submitted@.no_duplicates()) by {
            assert(forall|a: int, b: int|
                0 <= a < lb.submitted@.len() && 0 <= b < lb.submitted@.len() && a != b
                    ==> lb.submitted@[a] != lb.submitted@[b]);
        }
        crate::dispatcher::lemma_full_drain_collects_all(lb);
    }
    (responses, lb)
}

} // verus!
