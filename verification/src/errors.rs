//! Error taxonomy of the worker.
//!
//! A missing queue endpoint is a configuration error and fatal at startup;
//! a failing queue call is a transport error, logged and survived.

use vstd::prelude::*;

verus! {

/// Fatal startup failure: the queue endpoint is not configured.
#[derive(Clone, Copy, PartialEq, Eq, Structural, Debug)]
pub enum ConfigError {
    /// The queue endpoint variable is absent from the environment.
    MissingEndpoint,
}

impl ConfigError {
    /// The log line reported when the worker aborts at startup.
    pub fn message(&self) -> (s: String)
        ensures
            s@ == "SQS_URL not set"@,
    {
        String::from_str("SQS_URL not set")
    }
}

/// Non-fatal failure of a queue call (receive or delete): logged, and the
/// poll loop continues with the next cycle.
#[derive(Clone, Debug)]
pub struct TransportError {
    /// Human-readable description of what the transport reported.
    pub detail: String,
}

impl TransportError {
    pub fn new(detail: String) -> (e: TransportError)
        ensures
            e.detail == detail,
    {
        TransportError { detail }
    }
}

} // verus!
