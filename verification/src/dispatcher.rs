//! The load balancer: a bounded inbound queue, a fixed worker pool gated by an
//! admission semaphore, a bounded outbound queue, and the statistics they feed.
//!
//! The balancer is modelled as an explicit state machine.  Each suspension
//! point of the running system — a full queue, an empty queue, an exhausted
//! semaphore — becomes a transition that either fires or reports that it
//! would have to wait, so a driver (a test schedule, or the asynchronous
//! harness) decides what runs next while every transition's effect is pinned
//! down by its contract.
//!
//! The central invariant is conservation: every accepted request id is, at
//! all times, in exactly one place — the inbound queue, a worker's hands
//! before admission, the executing set, the outbound queue, the collector's
//! record, or (only after the outbound side is torn down early) the record of
//! responses a worker could not deliver.  From it follow the end-to-end
//! guarantees: as many responses come out as requests went in, with the same
//! ids and no duplicates.

use vstd::prelude::*;
use vstd::multiset::Multiset;
use crate::handler::execute_outcome;
use crate::request::{is_response_for, response_status, Request, Response};
use crate::stats::ServerStats;

verus! {

broadcast use vstd::seq_lib::group_to_multiset_ensures;

/// The ids of a sequence of requests, in order.
pub open spec fn req_ids(s: Seq<Request>) -> Seq<u64> {
    s.map_values(|r: Request| r.id)
}

/// The originating request ids of a sequence of responses, in order.
pub open spec fn resp_ids(s: Seq<Response>) -> Seq<u64> {
    s.map_values(|r: Response| r.request_id)
}

/// Taking ids commutes with appending a request.
proof fn lemma_req_ids_push(s: Seq<Request>, r: Request)
    ensures
        req_ids(s.push(r)) =~= req_ids(s).push(r.id),
{
}

/// Taking ids commutes with removing a request.
proof fn lemma_req_ids_remove(s: Seq<Request>, i: int)
    requires
        0 <= i < s.len(),
    ensures
        req_ids(s.remove(i)) =~= req_ids(s).remove(i),
{
}

/// Taking originating ids commutes with appending a response.
proof fn lemma_resp_ids_push(s: Seq<Response>, r: Response)
    ensures
        resp_ids(s.push(r)) =~= resp_ids(s).push(r.request_id),
{
}

/// Taking originating ids commutes with removing a response.
proof fn lemma_resp_ids_remove(s: Seq<Response>, i: int)
    requires
        0 <= i < s.len(),
    ensures
        resp_ids(s.remove(i)) =~= resp_ids(s).remove(i),
{
}

/// What a submission attempt came to.  A full queue hands the request back —
/// the submitter suspends and retries, the request is never dropped — and so
/// does a closed queue, where the submitter gives up instead.
pub enum SubmitOutcome {
    Accepted,
    Full(Request),
    QueueClosed(Request),
}

/// What a worker's attempt to pull work came to.  `Drained` means the inbound
/// queue is closed and empty: the worker exits its loop.
pub enum TakeOutcome {
    Taken(u64),
    Empty,
    Drained,
}

/// What delivering a finished response came to.  `OutboundFull` suspends the
/// worker with the response still in hand; `WorkerSendFailed` means the
/// receiving side is gone and the response could not be delivered — fatal to
/// that worker only.
pub enum FinishOutcome {
    Responded,
    OutboundFull,
    WorkerSendFailed,
}

/// What the collector's attempt to receive came to.  `StreamClosed` means the
/// outbound queue is closed and drained: end of stream, no more responses.
pub enum ReceiveOutcome {
    Delivered(Response),
    Waiting,
    StreamClosed,
}

/// The load balancer's complete coordination state.
pub struct LoadBalancer {
    /// Accepted requests waiting in the bounded inbound queue, oldest first.
    pub pending: Vec<Request>,
    /// Requests a worker has pulled but not yet been admitted to execute.
    pub staged: Vec<Request>,
    /// Requests currently executing; its length is the number of admission
    /// permits held.
    pub executing: Vec<Request>,
    /// Finished responses waiting in the bounded outbound queue, oldest first.
    pub outbound: Vec<Response>,
    /// Whether the inbound queue has stopped accepting submissions.
    pub inbound_closed: bool,
    /// Whether the outbound queue has been closed in order: only after the
    /// inbound side was drained and every worker exited, so the collector
    /// sees every in-flight response before the end of the stream.
    pub outbound_closed: bool,
    /// Whether the outbound queue's receiving side was torn down early.
    /// Deliveries fail from then on, and nobody is left to collect.
    pub receiver_gone: bool,
    /// How many workers the pool was built with.
    pub worker_count: usize,
    /// How many workers have not yet exited their loop.
    pub workers_running: usize,
    /// The admission cap: at most this many requests execute at once.
    pub max_concurrent: usize,
    /// Capacity of the inbound queue.
    pub inbound_capacity: usize,
    /// Capacity of the outbound queue.
    pub outbound_capacity: usize,
    /// Counters written by the workers.
    pub stats: ServerStats,
    /// Every id ever accepted by `submit_request`, in submission order.
    pub submitted: Ghost<Seq<u64>>,
    /// Every id handed out by `get_response`, in delivery order.
    pub collected: Ghost<Seq<u64>>,
    /// Ids whose response a worker had to drop because the outbound side was
    /// already gone.
    pub lost: Ghost<Seq<u64>>,
}

impl LoadBalancer {
    /// The multiset of accepted ids still inside the balancer.
    pub open spec fn in_flight_ids(self) -> Multiset<u64> {
        req_ids(self.pending@).to_multiset().add(req_ids(self.staged@).to_multiset()).add(
            req_ids(self.executing@).to_multiset(),
        ).add(resp_ids(self.outbound@).to_multiset())
    }

    /// The multiset of accepted ids, wherever each now is.
    pub open spec fn accounted_ids(self) -> Multiset<u64> {
        self.in_flight_ids().add(self.collected@.to_multiset()).add(self.lost@.to_multiset())
    }

    /// Well-formedness: bounds respected, counters consistent, responses
    /// correct, and every accepted id in exactly one place.
    pub open spec fn inv(self) -> bool {
        &&& self.worker_count >= 1
        &&& self.max_concurrent >= 1
        &&& self.inbound_capacity >= 1
        &&& self.outbound_capacity >= 1
        &&& self.workers_running <= self.worker_count
        &&& self.executing@.len() <= self.max_concurrent
        &&& self.pending@.len() <= self.inbound_capacity
        &&& self.outbound@.len() <= self.outbound_capacity
        &&& self.stats.total_requests == self.stats.successful_requests
            + self.stats.failed_requests + self.executing@.len()
        &&& self.outbound_closed ==> {
            &&& self.inbound_closed
            &&& self.workers_running == 0
            &&& self.pending@.len() == 0
            &&& self.staged@.len() == 0
            &&& self.executing@.len() == 0
        }
        &&& self.submitted@.to_multiset() == self.accounted_ids()
        &&& forall|i: int|
            0 <= i < self.outbound@.len() ==> (#[trigger] self.outbound@[i]).status
                == response_status(self.outbound@[i].request_id)
    }

    /// Builds a balancer with `worker_count` workers, admission cap
    /// `max_concurrent`, and the two queue capacities.  Everything starts
    /// empty, open, and at zero.
    pub fn new(
        worker_count: usize,
        max_concurrent: usize,
        inbound_capacity: usize,
        outbound_capacity: usize,
    ) -> (lb: LoadBalancer)
        requires
            worker_count >= 1,
            max_concurrent >= 1,
            inbound_capacity >= 1,
            outbound_capacity >= 1,
        ensures
            lb.inv(),
            lb.worker_count == worker_count,
            lb.workers_running == worker_count,
            lb.max_concurrent == max_concurrent,
            lb.inbound_capacity == inbound_capacity,
            lb.outbound_capacity == outbound_capacity,
            lb.pending@ =~= Seq::<Request>::empty(),
            lb.staged@ =~= Seq::<Request>::empty(),
            lb.executing@ =~= Seq::<Request>::empty(),
            lb.outbound@ =~= Seq::<Response>::empty(),
            !lb.inbound_closed,
            !lb.outbound_closed,
            !lb.receiver_gone,
            lb.stats.total_requests == 0,
            lb.stats.successful_requests == 0,
            lb.stats.failed_requests == 0,
            lb.submitted@ =~= Seq::<u64>::empty(),
            lb.collected@ =~= Seq::<u64>::empty(),
            lb.lost@ =~= Seq::<u64>::empty(),
    {
        let lb = LoadBalancer {
            pending: Vec::new(),
            staged: Vec::new(),
            executing: Vec::new(),
            outbound: Vec::new(),
            inbound_closed: false,
            outbound_closed: false,
            receiver_gone: false,
            worker_count,
            workers_running: worker_count,
            max_concurrent,
            inbound_capacity,
            outbound_capacity,
            stats: ServerStats::new(),
            submitted: Ghost(Seq::empty()),
            collected: Ghost(Seq::empty()),
            lost: Ghost(Seq::empty()),
        };
        proof {
            lb.lemma_empty_accounting();
        }
        lb
    }

    /// The configuration fields never change after construction.
    pub open spec fn same_config(self, o: Self) -> bool {
        &&& self.worker_count == o.worker_count
        &&& self.max_concurrent == o.max_concurrent
        &&& self.inbound_capacity == o.inbound_capacity
        &&& self.outbound_capacity == o.outbound_capacity
    }

    /// All four places where a request can sit are unchanged.
    pub open spec fn same_queues(self, o: Self) -> bool {
        &&& self.pending@ == o.pending@
        &&& self.staged@ == o.staged@
        &&& self.executing@ == o.executing@
        &&& self.outbound@ == o.outbound@
    }

    /// The submission, delivery, and loss records are unchanged.
    pub open spec fn same_records(self, o: Self) -> bool {
        &&& self.submitted@ == o.submitted@
        &&& self.collected@ == o.collected@
        &&& self.lost@ == o.lost@
    }

    /// The close flags and the worker count are unchanged.
    pub open spec fn same_lifecycle(self, o: Self) -> bool {
        &&& self.inbound_closed == o.inbound_closed
        &&& self.outbound_closed == o.outbound_closed
        &&& self.receiver_gone == o.receiver_gone
        &&& self.workers_running == o.workers_running
    }

    /// All four places and both records of a freshly built balancer are
    /// empty, so the conservation equation starts out trivially true.
    proof fn lemma_empty_accounting(self)
        requires
            self.pending@ =~= Seq::<Request>::empty(),
            self.staged@ =~= Seq::<Request>::empty(),
            self.executing@ =~= Seq::<Request>::empty(),
            self.outbound@ =~= Seq::<Response>::empty(),
            self.submitted@ =~= Seq::<u64>::empty(),
            self.collected@ =~= Seq::<u64>::empty(),
            self.lost@ =~= Seq::<u64>::empty(),
        ensures
            self.submitted@.to_multiset() == self.accounted_ids(),
    {
        broadcast use vstd::multiset::group_multiset_axioms;

        assert(req_ids(self.pending@) =~= Seq::<u64>::empty());
        assert(req_ids(self.staged@) =~= Seq::<u64>::empty());
        assert(req_ids(self.executing@) =~= Seq::<u64>::empty());
        assert(resp_ids(self.outbound@) =~= Seq::<u64>::empty());
        assert(Seq::<u64>::empty().to_multiset() =~= Multiset::<u64>::empty()) by {
            assert forall|x: u64| Seq::<u64>::empty().to_multiset().count(x) == 0 by {
                assert(!Seq::<u64>::empty().contains(x));
            }
        }
        assert(self.submitted@.to_multiset() =~= self.accounted_ids());
    }

    /// Offers a request to the inbound queue.  It is accepted exactly when
    /// the queue is open and below capacity; a full queue hands the request
    /// back so the submitter can suspend and retry (backpressure, never a
    /// silent drop), and a closed queue hands it back as rejected.
    pub fn submit_request(&mut self, request: Request) -> (outcome: SubmitOutcome)
        requires
            old(self).inv(),
        ensures
            final(self).inv(),
            final(self).same_config(*old(self)),
            (outcome is Accepted) <==> (!old(self).inbound_closed && old(self).pending@.len()
                < old(self).inbound_capacity),
            outcome is Accepted ==> {
                &&& final(self).pending@ == old(self).pending@.push(request)
                &&& final(self).submitted@ == old(self).submitted@.push(request.id)
                &&& final(self).staged@ == old(self).staged@
                &&& final(self).executing@ == old(self).executing@
                &&& final(self).outbound@ == old(self).outbound@
                &&& final(self).collected@ == old(self).collected@
                &&& final(self).lost@ == old(self).lost@
                &&& final(self).stats == old(self).stats
                &&& final(self).same_lifecycle(*old(self))
            },
            outcome matches SubmitOutcome::Full(r) ==> {
                &&& r == request
                &&& !old(self).inbound_closed
                &&& old(self).pending@.len() == old(self).inbound_capacity
                &&& *final(self) == *old(self)
            },
            outcome matches SubmitOutcome::QueueClosed(r) ==> {
                &&& r == request
                &&& old(self).inbound_closed
                &&& *final(self) == *old(self)
            },
    {
        if self.inbound_closed {
            return SubmitOutcome::QueueClosed(request);
        }
        if self.pending.len() == self.inbound_capacity {
            return SubmitOutcome::Full(request);
        }
        let ghost id = request.id;
        let ghost greq = request;
        let ghost old_lb = *self;
        self.submitted = Ghost(self.submitted@.push(id));
        self.pending.push(request);
        proof {
            broadcast use vstd::multiset::group_multiset_axioms;

            lemma_req_ids_push(old_lb.pending@, greq);
            assert(req_ids(self.pending@) =~= req_ids(old_lb.pending@).push(id));
            assert(self.submitted@.to_multiset() =~= self.accounted_ids());
        }
        SubmitOutcome::Accepted
    }

    /// A worker pulls the oldest waiting request out of the inbound queue and
    /// holds it while it waits for admission.  An empty open queue makes the
    /// worker wait; an empty closed queue ends the worker's loop.
    pub fn worker_take(&mut self) -> (outcome: TakeOutcome)
        requires
            old(self).inv(),
        ensures
            final(self).inv(),
            final(self).same_config(*old(self)),
            (outcome is Taken) <==> old(self).pending@.len() > 0,
            outcome matches TakeOutcome::Taken(id) ==> {
                &&& id == old(self).pending@[0].id
                &&& final(self).pending@ == old(self).pending@.remove(0)
                &&& final(self).staged@ == old(self).staged@.push(old(self).pending@[0])
                &&& final(self).executing@ == old(self).executing@
                &&& final(self).outbound@ == old(self).outbound@
                &&& final(self).same_records(*old(self))
                &&& final(self).stats == old(self).stats
                &&& final(self).same_lifecycle(*old(self))
            },
            outcome is Empty ==> old(self).pending@.len() == 0 && !old(self).inbound_closed
                && *final(self) == *old(self),
            outcome is Drained ==> old(self).pending@.len() == 0 && old(self).inbound_closed
                && *final(self) == *old(self),
    {
        if self.pending.len() == 0 {
            if self.inbound_closed {
                return TakeOutcome::Drained;
            }
            return TakeOutcome::Empty;
        }
        let ghost old_lb = *self;
        let request = self.pending.remove(0);
        let id = request.id;
        self.staged.push(request);
        proof {
            broadcast use vstd::multiset::group_multiset_axioms;

            lemma_req_ids_remove(old_lb.pending@, 0);
            lemma_req_ids_push(old_lb.staged@, old_lb.pending@[0]);
            assert(req_ids(old_lb.pending@).contains(old_lb.pending@[0].id)) by {
                assert(req_ids(old_lb.pending@)[0] == old_lb.pending@[0].id);
            }
            assert(req_ids(old_lb.pending@).to_multiset().count(old_lb.pending@[0].id) > 0);
            assert(self.submitted@.to_multiset() =~= self.accounted_ids());
        }
        TakeOutcome::Taken(id)
    }

    /// A worker asks the admission semaphore to let the staged request at
    /// index `i` execute.  Admission succeeds exactly when fewer than
    /// `max_concurrent` requests hold a permit; the request then moves to the
    /// executing set and is counted in `total_requests`.  Otherwise the
    /// worker keeps the request and waits.
    pub fn begin_request(&mut self, i: usize) -> (started: bool)
        requires
            old(self).inv(),
            i < old(self).staged@.len(),
            old(self).stats.total_requests < u64::MAX,
        ensures
            final(self).inv(),
            final(self).same_config(*old(self)),
            started <==> old(self).executing@.len() < old(self).max_concurrent,
            started ==> {
                &&& final(self).staged@ == old(self).staged@.remove(i as int)
                &&& final(self).executing@ == old(self).executing@.push(old(self).staged@[i as int])
                &&& final(self).pending@ == old(self).pending@
                &&& final(self).outbound@ == old(self).outbound@
                &&& final(self).same_records(*old(self))
                &&& final(self).same_lifecycle(*old(self))
                &&& final(self).stats.total_requests == old(self).stats.total_requests + 1
                &&& final(self).stats.successful_requests == old(self).stats.successful_requests
                &&& final(self).stats.failed_requests == old(self).stats.failed_requests
            },
            !started ==> *final(self) == *old(self),
    {
        if self.executing.len() == self.max_concurrent {
            return false;
        }
        let ghost old_lb = *self;
        let request = self.staged.remove(i);
        self.executing.push(request);
        self.stats.record_request();
        proof {
            broadcast use vstd::multiset::group_multiset_axioms;

            lemma_req_ids_remove(old_lb.staged@, i as int);
            lemma_req_ids_push(old_lb.executing@, old_lb.staged@[i as int]);
            assert(req_ids(old_lb.staged@).contains(old_lb.staged@[i as int].id)) by {
                assert(req_ids(old_lb.staged@)[i as int] == old_lb.staged@[i as int].id);
            }
            assert(req_ids(old_lb.staged@).to_multiset().count(old_lb.staged@[i as int].id) > 0);
            assert(self.submitted@.to_multiset() =~= self.accounted_ids());
        }
        true
    }

    /// A worker finishes executing the request at index `i` of the executing
    /// set: the outcome is recorded in the statistics, the permit is
    /// released, and the response is delivered to the outbound queue.  A full
    /// outbound queue suspends the worker with everything unchanged; a
    /// receiving side torn down early loses the freshly built response and is
    /// fatal to this worker alone.
    pub fn finish_request(&mut self, i: usize) -> (outcome: FinishOutcome)
        requires
            old(self).inv(),
            i < old(self).executing@.len(),
            old(self).stats.successful_requests < u64::MAX,
            old(self).stats.failed_requests < u64::MAX,
        ensures
            final(self).inv(),
            final(self).same_config(*old(self)),
            (outcome is Responded) <==> (!old(self).receiver_gone && old(self).outbound@.len()
                < old(self).outbound_capacity),
            (outcome is WorkerSendFailed) <==> old(self).receiver_gone,
            outcome is Responded ==> {
                &&& final(self).executing@ == old(self).executing@.remove(i as int)
                &&& final(self).outbound@.len() == old(self).outbound@.len() + 1
                &&& final(self).outbound@.drop_last() == old(self).outbound@
                &&& is_response_for(final(self).outbound@.last(), old(self).executing@[i as int])
                &&& final(self).pending@ == old(self).pending@
                &&& final(self).staged@ == old(self).staged@
                &&& final(self).submitted@ == old(self).submitted@
                &&& final(self).collected@ == old(self).collected@
                &&& final(self).lost@ == old(self).lost@
                &&& final(self).same_lifecycle(*old(self))
            },
            outcome is OutboundFull ==> *final(self) == *old(self),
            outcome is WorkerSendFailed ==> {
                &&& final(self).executing@ == old(self).executing@.remove(i as int)
                &&& final(self).lost@ == old(self).lost@.push(old(self).executing@[i as int].id)
                &&& final(self).pending@ == old(self).pending@
                &&& final(self).staged@ == old(self).staged@
                &&& final(self).outbound@ == old(self).outbound@
                &&& final(self).submitted@ == old(self).submitted@
                &&& final(self).collected@ == old(self).collected@
                &&& final(self).same_lifecycle(*old(self))
            },
            !(outcome is OutboundFull) ==> {
                &&& final(self).stats.total_requests == old(self).stats.total_requests
                &&& old(self).executing@[i as int].id % 7 == 0 ==> final(self).stats.failed_requests
                    == old(self).stats.failed_requests + 1 && final(self).stats.successful_requests
                    == old(self).stats.successful_requests
                &&& old(self).executing@[i as int].id % 7 != 0
                    ==> final(self).stats.successful_requests
                    == old(self).stats.successful_requests + 1
                    && final(self).stats.failed_requests == old(self).stats.failed_requests
            },
    {
        if !self.receiver_gone && self.outbound.len() == self.outbound_capacity {
            return FinishOutcome::OutboundFull;
        }
        let ghost old_lb = *self;
        let request = self.executing.remove(i);
        let response = execute_outcome(&request, &mut self.stats);
        proof {
            broadcast use vstd::multiset::group_multiset_axioms;

            lemma_req_ids_remove(old_lb.executing@, i as int);
            assert(req_ids(old_lb.executing@).contains(old_lb.executing@[i as int].id)) by {
                assert(req_ids(old_lb.executing@)[i as int] == old_lb.executing@[i as int].id);
            }
            assert(req_ids(old_lb.executing@).to_multiset().count(
                old_lb.executing@[i as int].id,
            ) > 0);
        }
        if self.receiver_gone {
            self.lost = Ghost(self.lost@.push(request.id));
            proof {
                broadcast use vstd::multiset::group_multiset_axioms;

                assert(self.submitted@.to_multiset() =~= self.accounted_ids());
            }
            return FinishOutcome::WorkerSendFailed;
        }
        let ghost gresp = response;
        self.outbound.push(response);
        proof {
            broadcast use vstd::multiset::group_multiset_axioms;

            lemma_resp_ids_push(old_lb.outbound@, gresp);
            assert(self.submitted@.to_multiset() =~= self.accounted_ids());
        }
        FinishOutcome::Responded
    }

    /// The collector takes the oldest waiting response out of the outbound
    /// queue.  An empty open queue makes the collector wait; an empty closed
    /// queue is the end of the stream, which the collector can only see once
    /// every worker has exited and nothing is in flight — every response
    /// produced was already delivered by earlier calls.  After an early
    /// receiver teardown there is nobody left to collect, so this transition
    /// cannot be taken.
    pub fn get_response(&mut self) -> (outcome: ReceiveOutcome)
        requires
            old(self).inv(),
            !old(self).receiver_gone,
        ensures
            final(self).inv(),
            final(self).same_config(*old(self)),
            (outcome is Delivered) <==> old(self).outbound@.len() > 0,
            outcome matches ReceiveOutcome::Delivered(resp) ==> {
                &&& resp == old(self).outbound@[0]
                &&& resp.status == response_status(resp.request_id)
                &&& final(self).outbound@ == old(self).outbound@.remove(0)
                &&& final(self).collected@ == old(self).collected@.push(resp.request_id)
                &&& final(self).pending@ == old(self).pending@
                &&& final(self).staged@ == old(self).staged@
                &&& final(self).executing@ == old(self).executing@
                &&& final(self).submitted@ == old(self).submitted@
                &&& final(self).lost@ == old(self).lost@
                &&& final(self).stats == old(self).stats
                &&& final(self).same_lifecycle(*old(self))
            },
            outcome is Waiting ==> old(self).outbound@.len() == 0 && !old(self).outbound_closed
                && *final(self) == *old(self),
            (outcome is StreamClosed) <==> (old(self).outbound@.len() == 0
                && old(self).outbound_closed),
            outcome is StreamClosed ==> {
                &&& old(self).workers_running == 0
                &&& old(self).pending@.len() == 0
                &&& old(self).staged@.len() == 0
                &&& old(self).executing@.len() == 0
                &&& *final(self) == *old(self)
            },
    {
        if self.outbound.len() == 0 {
            if self.outbound_closed {
                return ReceiveOutcome::StreamClosed;
            }
            return ReceiveOutcome::Waiting;
        }
        let ghost old_lb = *self;
        let response = self.outbound.remove(0);
        self.collected = Ghost(self.collected@.push(response.request_id));
        proof {
            broadcast use vstd::multiset::group_multiset_axioms;

            lemma_resp_ids_remove(old_lb.outbound@, 0);
            assert(resp_ids(old_lb.outbound@).contains(old_lb.outbound@[0].request_id)) by {
                assert(resp_ids(old_lb.outbound@)[0] == old_lb.outbound@[0].request_id);
            }
            assert(resp_ids(old_lb.outbound@).to_multiset().count(
                old_lb.outbound@[0].request_id,
            ) > 0);
            assert(self.submitted@.to_multiset() =~= self.accounted_ids());
        }
        ReceiveOutcome::Delivered(response)
    }

    /// Stops the inbound queue from accepting further submissions.  Requests
    /// already accepted stay queued so the workers can drain them.
    pub fn close_inbound(&mut self)
        requires
            old(self).inv(),
        ensures
            final(self).inv(),
            final(self).same_config(*old(self)),
            final(self).inbound_closed,
            final(self).outbound_closed == old(self).outbound_closed,
            final(self).receiver_gone == old(self).receiver_gone,
            final(self).workers_running == old(self).workers_running,
            final(self).same_queues(*old(self)),
            final(self).same_records(*old(self)),
            final(self).stats == old(self).stats,
    {
        self.inbound_closed = true;
    }

    /// Closes the outbound queue in order: only once the inbound side is
    /// closed and drained, nothing is staged or executing, and every worker
    /// has exited.  The collector has therefore seen, or still finds queued,
    /// every in-flight response before it can observe the end of the stream.
    pub fn close_outbound(&mut self)
        requires
            old(self).inv(),
            old(self).inbound_closed,
            old(self).workers_running == 0,
            old(self).pending@.len() == 0,
            old(self).staged@.len() == 0,
            old(self).executing@.len() == 0,
        ensures
            final(self).inv(),
            final(self).same_config(*old(self)),
            final(self).outbound_closed,
            final(self).inbound_closed == old(self).inbound_closed,
            final(self).receiver_gone == old(self).receiver_gone,
            final(self).workers_running == old(self).workers_running,
            final(self).same_queues(*old(self)),
            final(self).same_records(*old(self)),
            final(self).stats == old(self).stats,
    {
        self.outbound_closed = true;
    }

    /// The outbound queue's receiving side is torn down early: from now on
    /// every delivery fails (`WorkerSendFailed`), each failing worker exits,
    /// and nobody is left to collect responses.
    pub fn drop_receiver(&mut self)
        requires
            old(self).inv(),
        ensures
            final(self).inv(),
            final(self).same_config(*old(self)),
            final(self).receiver_gone,
            final(self).inbound_closed == old(self).inbound_closed,
            final(self).outbound_closed == old(self).outbound_closed,
            final(self).workers_running == old(self).workers_running,
            final(self).same_queues(*old(self)),
            final(self).same_records(*old(self)),
            final(self).stats == old(self).stats,
    {
        self.receiver_gone = true;
    }

    /// A worker leaves its loop: either the inbound queue is closed and
    /// drained and this worker holds no request — the remaining workers must
    /// still cover whatever is staged or executing — or delivering a
    /// response has become impossible.  Nothing else changes; the other
    /// workers go on.
    pub fn worker_exit(&mut self) -> (exited: bool)
        requires
            old(self).inv(),
        ensures
            final(self).inv(),
            final(self).same_config(*old(self)),
            exited <==> (old(self).workers_running > 0 && ((old(self).inbound_closed
                && old(self).pending@.len() == 0
                && old(self).workers_running > old(self).staged@.len()
                + old(self).executing@.len()) || old(self).receiver_gone)),
            exited ==> {
                &&& final(self).workers_running == old(self).workers_running - 1
                &&& final(self).same_queues(*old(self))
                &&& final(self).same_records(*old(self))
                &&& final(self).stats == old(self).stats
                &&& final(self).inbound_closed == old(self).inbound_closed
                &&& final(self).outbound_closed == old(self).outbound_closed
                &&& final(self).receiver_gone == old(self).receiver_gone
            },
            !exited ==> *final(self) == *old(self),
    {
        let held = (self.staged.len() as u128) + (self.executing.len() as u128);
        if self.workers_running > 0 && ((self.inbound_closed && self.pending.len() == 0
            && (self.workers_running as u128) > held) || self.receiver_gone) {
            self.workers_running = self.workers_running - 1;
            return true;
        }
        false
    }

    /// A non-blocking snapshot of the admission permits still free.  Purely
    /// observational: the value may be stale by the time the caller looks at
    /// it.
    pub fn available_slots(&self) -> (slots: usize)
        requires
            self.inv(),
        ensures
            slots == self.max_concurrent - self.executing@.len(),
            slots <= self.max_concurrent,
    {
        self.max_concurrent - self.executing.len()
    }
}

/// Law: at every reachable state, the number of requests executing at once is
/// at most the admission cap, whatever the worker count.
pub proof fn lemma_concurrency_cap(lb: LoadBalancer)
    requires
        lb.inv(),
    ensures
        lb.executing@.len() <= lb.max_concurrent,
{
}

/// Law: whenever no request is executing — in particular once the pool has
/// fully drained — the statistics are internally consistent:
/// `total == succeeded + failed`.
pub proof fn lemma_stats_consistent_when_drained(lb: LoadBalancer)
    requires
        lb.inv(),
        lb.executing@.len() == 0,
    ensures
        lb.stats.total_requests == lb.stats.successful_requests + lb.stats.failed_requests,
{
}

/// Law: at every reachable state, the ids the collector has received are a
/// subset of the ids that were accepted, and — when the accepted ids are
/// distinct, as the generator's monotone ids are — no id is ever delivered
/// twice, whatever order completions happened in.
pub proof fn lemma_collected_ids_valid(lb: LoadBalancer)
    requires
        lb.inv(),
    ensures
        forall|i: int|
            0 <= i < lb.collected@.len() ==> lb.submitted@.contains(#[trigger] lb.collected@[i]),
        lb.submitted@.no_duplicates() ==> lb.collected@.no_duplicates(),
{
    broadcast use vstd::multiset::group_multiset_axioms;

    let sub = lb.submitted@;
    let col = lb.collected@;
    assert forall|x: u64| col.to_multiset().count(x) <= sub.to_multiset().count(x) by {
        assert(sub.to_multiset().count(x) == lb.accounted_ids().count(x));
    }
    assert forall|i: int| 0 <= i < col.len() implies sub.contains(#[trigger] col[i]) by {
        assert(col.contains(col[i]));
        assert(col.to_multiset().count(col[i]) > 0);
        assert(sub.to_multiset().count(col[i]) > 0);
    }
    if sub.no_duplicates() {
        sub.lemma_multiset_has_no_duplicates();
        assert forall|x: u64| col.to_multiset().contains(x) implies col.to_multiset().count(x)
            == 1 by {
            assert(col.to_multiset().count(x) > 0);
            assert(sub.to_multiset().count(x) > 0);
            assert(sub.to_multiset().contains(x));
        }
        col.lemma_multiset_has_no_duplicates_conv();
    }
}

/// Law: once the balancer has fully drained — nothing queued, staged,
/// executing, or undelivered, and no response lost to a premature teardown —
/// the collector has received exactly one response per accepted request: the
/// same number, and with distinct submitted ids exactly the same id set.
pub proof fn lemma_full_drain_collects_all(lb: LoadBalancer)
    requires
        lb.inv(),
        lb.pending@.len() == 0,
        lb.staged@.len() == 0,
        lb.executing@.len() == 0,
        lb.outbound@.len() == 0,
        lb.lost@.len() == 0,
    ensures
        lb.collected@.to_multiset() == lb.submitted@.to_multiset(),
        lb.collected@.len() == lb.submitted@.len(),
        lb.submitted@.no_duplicates() ==> lb.collected@.no_duplicates(),
        lb.submitted@.no_duplicates() ==> lb.collected@.to_set() == lb.submitted@.to_set(),
{
    broadcast use vstd::multiset::group_multiset_axioms;

    let sub = lb.submitted@;
    let col = lb.collected@;
    assert(req_ids(lb.pending@) =~= Seq::<u64>::empty());
    assert(req_ids(lb.staged@) =~= Seq::<u64>::empty());
    assert(req_ids(lb.executing@) =~= Seq::<u64>::empty());
    assert(resp_ids(lb.outbound@) =~= Seq::<u64>::empty());
    assert(lb.lost@ =~= Seq::<u64>::empty());
    assert(Seq::<u64>::empty().to_multiset() =~= Multiset::<u64>::empty()) by {
        assert forall|x: u64| Seq::<u64>::empty().to_multiset().count(x) == 0 by {
            assert(!Seq::<u64>::empty().contains(x));
        }
    }
    assert(col.to_multiset() =~= sub.to_multiset());
    assert(col.len() == col.to_multiset().len());
    assert(sub.len() == sub.to_multiset().len());
    lemma_collected_ids_valid(lb);
    if sub.no_duplicates() {
        assert(col.to_set() =~= sub.to_set()) by {
            assert forall|x: u64| col.to_set().contains(x) <==> sub.to_set().contains(x) by {
                assert(col.contains(x) <==> col.to_multiset().count(x) > 0);
                assert(sub.contains(x) <==> sub.to_multiset().count(x) > 0);
            }
        }
    }
}

} // verus!
