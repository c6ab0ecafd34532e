//! Peer replication for a clustered metrics aggregator.
//!
//! Every node of the cluster aggregates metric samples in a pool of local
//! workers and periodically sends a snapshot of what it holds to every other
//! node. This crate is the part of that protocol which decides: which task an
//! inbound frame becomes and which worker gets it, when a snapshot round may
//! broadcast and what it broadcasts, and how a failing peer is retried. It
//! performs no input or output: sockets, timers and channels belong to the
//! program around it, which reports what happened and carries out what the
//! functions here return.
//!
//! Metric records are opaque to the protocol, so every type here is generic
//! over the record type `R`; peer addresses are likewise a type parameter `A`.

pub mod codec;
pub mod coordinator;
pub mod decode;
pub mod error;
pub mod message;
pub mod retry;
pub mod sender;
pub mod server;
pub mod snapshot;
