//! Queue endpoint configuration.
//!
//! The endpoint is a single string (a queue URL) sourced externally, once,
//! before the loop starts. The worker fails fast when it is absent: a
//! configuration error is raised before any queue call is attempted.

use vstd::prelude::*;
use crate::errors::ConfigError;

verus! {

/// Resolve the queue endpoint from the externally sourced variable value.
///
/// `value` is the raw lookup result for the `SQS_URL` environment variable
/// (`None` when the variable is unset). Every set value round-trips
/// unchanged; an unset variable is a fatal configuration error.
pub fn get_sqs_url(value: Option<String>) -> (r: Result<String, ConfigError>)
    ensures
        value is Some <==> r is Ok,
        value matches Some(u) ==> r == Ok::<String, ConfigError>(u),
        value is None ==> r == Err::<String, ConfigError>(ConfigError::MissingEndpoint),
{
    match value {
        Some(url) => Ok(url),
        None => Err(ConfigError::MissingEndpoint),
    }
}

} // verus!
