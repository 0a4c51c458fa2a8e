//! Hand-rolled future state machines: a timer and a two-way join.
//!
//! Time is carried as plain milliseconds, so polling is a pure decision on
//! the clock value the driver passes in; the driver owns the real clock and
//! the wake-ups.

use vstd::prelude::*;
use vstd::string::StringExecFns;

verus! {

/// The result of polling: finished with an output, or not yet.
pub enum TaskPoll<T> {
    Ready(T),
    Pending,
}

/// A future that completes once the clock reaches its deadline.
pub struct DelayFuture {
    /// The instant, in milliseconds, at which the delay elapses.
    pub when: u64,
}

impl DelayFuture {
    /// A delay of `duration_ms` measured from the instant `now_ms`.
    pub fn new(now_ms: u64, duration_ms: u64) -> (f: DelayFuture)
        requires
            now_ms + duration_ms <= u64::MAX,
        ensures
            f.when == now_ms + duration_ms,
    {
        DelayFuture { when: now_ms + duration_ms }
    }

    /// Polls the delay at instant `now_ms`: ready with its message exactly
    /// when the deadline has been reached.
    pub fn poll(&self, now_ms: u64) -> (r: TaskPoll<String>)
        ensures
            (r is Ready) <==> now_ms >= self.when,
            r matches TaskPoll::Ready(message) ==> message@ == "⏰ 延迟完成！"@,
    {
        if now_ms >= self.when {
            TaskPoll::Ready(String::from_str("⏰ 延迟完成！"))
        } else {
            TaskPoll::Pending
        }
    }
}

/// Joins two futures: it completes when both children have completed, with
/// the pair of their outputs.  The children themselves live with the driver,
/// which reports each child's completion here once.
pub struct JoinFuture<A, B> {
    /// The first child's output, once it has completed.
    pub result1: Option<A>,
    /// The second child's output, once it has completed.
    pub result2: Option<B>,
}

impl<A, B> JoinFuture<A, B> {
    /// A join of two children, neither of which has completed.
    pub fn new() -> (f: JoinFuture<A, B>)
        ensures
            f.result1 is None,
            f.result2 is None,
    {
        JoinFuture { result1: None, result2: None }
    }

    /// The driver reports that the first child completed with `value`.
    pub fn complete_first(&mut self, value: A)
        requires
            old(self).result1 is None,
        ensures
            final(self).result1 == Some(value),
            final(self).result2 == old(self).result2,
    {
        self.result1 = Some(value);
    }

    /// The driver reports that the second child completed with `value`.
    pub fn complete_second(&mut self, value: B)
        requires
            old(self).result2 is None,
        ensures
            final(self).result2 == Some(value),
            final(self).result1 == old(self).result1,
    {
        self.result2 = Some(value);
    }

    /// Whether both children have completed.
    pub fn is_ready(&self) -> (ready: bool)
        ensures
            ready == (self.result1 is Some && self.result2 is Some),
    {
        self.result1.is_some() && self.result2.is_some()
    }

    /// Polls the join: ready with both outputs exactly when both children
    /// have completed, in which case the outputs are handed out and the join
    /// is spent; otherwise nothing changes.
    pub fn poll(&mut self) -> (r: TaskPoll<(A, B)>)
        ensures
            (r is Ready) <==> (old(self).result1 is Some && old(self).result2 is Some),
            r matches TaskPoll::Ready(pair) ==> {
                &&& old(self).result1 == Some(pair.0)
                &&& old(self).result2 == Some(pair.1)
                &&& final(self).result1 is None
                &&& final(self).result2 is None
            },
            r is Pending ==> *final(self) == *old(self),
    {
        if self.result1.is_some() && self.result2.is_some() {
            let first = self.result1.take();
            let second = self.result2.take();
            match (first, second) {
                (Some(a), Some(b)) => TaskPoll::Ready((a, b)),
                _ => TaskPoll::Pending,
            }
        } else {
            TaskPoll::Pending
        }
    }
}

} // verus!
