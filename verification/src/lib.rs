//! A verified model of a fixed-size worker pool.
//!
//! The pool accepts arbitrarily many short-lived work units from producers and
//! hands them to a bounded set of long-lived workers over a single shared
//! queue, with an explicit shutdown protocol: one terminate message per worker,
//! then a blocking join on every worker.
//!
//! The threading itself (spawning, channel transport, joining) is carried out
//! by an unverified shell around this crate; everything the pool *decides* —
//! what a message is, what a worker does with one, how many terminate messages
//! shutdown sends, and the ordering and delivery guarantees of the queue — is
//! modelled and proved here.

pub mod message;
pub mod queue;
pub mod worker;
pub mod pool;
pub mod laws;
