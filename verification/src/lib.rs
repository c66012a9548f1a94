//! Request/reply correlation and dispatch core.
//!
//! Two concurrency models are provided, both with bounded queues and
//! backpressure:
//!
//! - a synchronous worker-pool model ([`rpc`]): a pool of blocking workers
//!   drains a shared bounded request channel and pushes replies onto a shared
//!   bounded reply channel;
//! - an asynchronous single-consumer model ([`reqrep`]): a single service task
//!   consumes enveloped requests one at a time, and every request carries its
//!   own private one-shot reply slot, so many in-flight requests can complete
//!   out of order without cross-talk.
//!
//! Identifiers tagging streams, messages, metrics and labels are ULIDs
//! ([`ulid`], [`metrics`]), and the lifecycle of a private reply slot is
//! modelled explicitly in [`slot`].

pub mod metrics;
pub mod reqrep;
pub mod rpc;
pub mod slot;
pub mod ulid;
