//! A single-consumer queue worker: poll a remote message queue, process at
//! most one message per cycle, and acknowledge successful processing by
//! deleting the message from the queue.
//!
//! The verified core covers the poll–process–acknowledge decisions, the
//! failure handling, the loop's termination state machine, and a
//! deterministic mock queue client that lets the whole receive path be
//! exercised without a network. The queue transport itself (network calls,
//! credentials, wire protocol) is an external collaborator and lives outside
//! this library.

pub mod config;
pub mod errors;
pub mod lifecycle;
pub mod message;
pub mod mock;
pub mod worker;
