//! A simulated bounded-concurrency request dispatcher, verified with Verus.
//!
//! The heart of the library is a load balancer that feeds synthetic requests
//! through a bounded inbound queue to a fixed pool of workers, caps the number
//! of requests executing at once with an admission semaphore, and correlates
//! responses back to the submitter through a bounded outbound queue.  The
//! coordination rules — backpressure, admission, draining, response
//! correlation, statistics, and graceful shutdown — are modelled here as
//! explicit state machines whose transitions carry full contracts, so that the
//! queueing and accounting invariants are machine-checked.  An asynchronous
//! runtime harness can then drive the same decisions over real channels and
//! tasks.

pub mod catalog;
pub mod dispatcher;
pub mod handler;
pub mod polling;
pub mod request;
pub mod selfref;
pub mod shutdown;
pub mod stats;
pub mod traffic;
