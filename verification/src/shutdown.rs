//! The graceful-shutdown protocol: one broadcast signal, many listeners.
//!
//! The coordinator moves one way, from running to signalled.  Every listener
//! loop races its next slice of work against the signal; once the signal is
//! observed, the listener performs its bounded cleanup and exits.  A listener
//! that subscribes only after the signal has fired never observes it — a
//! known property of the broadcast, preserved here deliberately.

use vstd::prelude::*;

verus! {

/// The one-shot broadcast signal.  Firing is one-way and idempotent: once
/// signalled, further fires change nothing.
pub struct ShutdownCoordinator {
    pub fired: bool,
}

/// One subscriber of the signal.  `missed` is set for subscribers created
/// after the signal fired: they will never observe it.
pub struct ShutdownListener {
    pub missed: bool,
    pub terminated: bool,
    pub cleaned_up: bool,
}

/// What a listener's race between work and shutdown decided.
pub enum ListenerStep {
    Work,
    CleanupAndExit,
}

impl ShutdownCoordinator {
    /// A coordinator that has not fired yet.
    pub fn new() -> (c: ShutdownCoordinator)
        ensures
            !c.fired,
    {
        ShutdownCoordinator { fired: false }
    }

    /// Subscribes a new listener.  One that subscribes after the signal has
    /// fired has missed it for good.
    pub fn subscribe(&self) -> (listener: ShutdownListener)
        ensures
            listener.missed == self.fired,
            !listener.terminated,
            !listener.cleaned_up,
    {
        ShutdownListener { missed: self.fired, terminated: false, cleaned_up: false }
    }

    /// Fires the signal.  The coordinator's whole state is `fired`, so firing
    /// again has no further effect.
    pub fn fire(&mut self)
        ensures
            final(self).fired,
    {
        self.fired = true;
    }
}

impl ShutdownListener {
    /// Whether this listener's next race will observe the shutdown signal.
    pub fn observes_signal(&self, coordinator: &ShutdownCoordinator) -> (observes: bool)
        ensures
            observes == (coordinator.fired && !self.missed),
    {
        coordinator.fired && !self.missed
    }

    /// One turn of the listener's loop: the race between the next slice of
    /// work and the shutdown signal.  If the signal has fired and was not
    /// missed, the listener runs its bounded cleanup to completion and exits;
    /// otherwise it performs a slice of work and stays unchanged.
    pub fn step(&mut self, coordinator: &ShutdownCoordinator) -> (decision: ListenerStep)
        requires
            !old(self).terminated,
        ensures
            (decision is CleanupAndExit) <==> (coordinator.fired && !old(self).missed),
            decision is CleanupAndExit ==> final(self).terminated && final(self).cleaned_up
                && final(self).missed == old(self).missed,
            decision is Work ==> *final(self) == *old(self),
    {
        if coordinator.fired && !self.missed {
            self.cleaned_up = true;
            self.terminated = true;
            ListenerStep::CleanupAndExit
        } else {
            ListenerStep::Work
        }
    }
}

/// Runs one scheduling round: every listener races work against the signal
/// once.  After the round, with the signal fired, every listener that
/// subscribed before the fire has terminated with its cleanup completed —
/// none is left starving on a work unit that will never arrive — while
/// listeners that missed the signal keep working, and nothing changes at all
/// while the signal has not fired.
pub fn run_round(listeners: &mut Vec<ShutdownListener>, coordinator: &ShutdownCoordinator)
    requires
        forall|i: int|
            0 <= i < old(listeners)@.len() ==> !(#[trigger] old(listeners)@[i]).terminated,
    ensures
        final(listeners)@.len() == old(listeners)@.len(),
        forall|i: int|
            0 <= i < old(listeners)@.len() ==> {
                let before = old(listeners)@[i];
                let after = #[trigger] final(listeners)@[i];
                if coordinator.fired && !before.missed {
                    after.terminated && after.cleaned_up && after.missed == before.missed
                } else {
                    after == before
                }
            },
{
    let ghost original = listeners@;
    let n = listeners.len();
    let mut k: usize = 0;
    while k < n
        invariant
            n == original.len(),
            listeners@.len() == original.len(),
            k <= n,
            forall|i: int| k <= i < original.len() ==> listeners@[i] == original[i],
            forall|i: int| 0 <= i < original.len() ==> !(#[trigger] original[i]).terminated,
            forall|i: int|
                0 <= i < k ==> {
                    let before = original[i];
                    let after = #[trigger] listeners@[i];
                    if coordinator.fired && !before.missed {
                        after.terminated && after.cleaned_up && after.missed == before.missed
                    } else {
                        after == before
                    }
                },
        decreases n - k,
    {
        proof {
            assert(listeners@[k as int] == original[k as int]);
            assert(!original[k as int].terminated);
        }
        let listener = &mut listeners[k];
        listener.step(coordinator);
        k = k + 1;
    }
}

} // verus!
