//! Process lifecycle of the poll loop.
//!
//! The loop is a two-state machine: it starts Running once the endpoint is
//! confirmed present, and moves to Terminating when a termination signal has
//! been requested. Terminating is absorbing — once entered, the loop never
//! returns to Running; the process exits promptly with a success status,
//! without draining in-flight work. The unverified shell records the signal
//! and consults this state machine at each suspension point (before each
//! receive and before each sleep).

use vstd::prelude::*;

verus! {

/// The two states of the poll loop.
#[derive(Clone, Copy, PartialEq, Eq, Structural, Debug)]
pub enum LoopState {
    /// Polling normally, one cycle after another.
    Running,
    /// A termination signal was received: exit promptly and cleanly.
    Terminating,
}

/// The loop's transition relation: Running stays Running until termination
/// is requested, and Terminating is absorbing.
pub open spec fn next_state_spec(state: LoopState, terminate_requested: bool) -> LoopState {
    if terminate_requested || state is Terminating {
        LoopState::Terminating
    } else {
        LoopState::Running
    }
}

/// Advance the loop's state, given whether a termination signal has been
/// requested since the last check.
pub fn next_state(state: LoopState, terminate_requested: bool) -> (next: LoopState)
    ensures
        next == next_state_spec(state, terminate_requested),
{
    if terminate_requested {
        LoopState::Terminating
    } else {
        state
    }
}

/// Whether the loop should begin another poll cycle in this state.
pub fn should_poll(state: &LoopState) -> (b: bool)
    ensures
        b == (*state is Running),
{
    match state {
        LoopState::Running => true,
        LoopState::Terminating => false,
    }
}

/// The log line reported when the termination signal fires.
pub fn termination_log_line() -> (s: String)
    ensures
        s@ == "Received SIGTERM"@,
{
    String::from_str("Received SIGTERM")
}

/// Terminating is absorbing: whatever happens after the loop has begun to
/// terminate, it never returns to Running.
pub proof fn lemma_terminating_absorbing(terminate_requested: bool)
    ensures
        next_state_spec(LoopState::Terminating, terminate_requested) == LoopState::Terminating,
{
}

/// A running loop keeps running until termination is requested: the state
/// machine leaves Running for exactly one reason.
pub proof fn lemma_runs_until_signalled(state: LoopState, terminate_requested: bool)
    ensures
        next_state_spec(state, terminate_requested) is Terminating <==> (terminate_requested
            || state is Terminating),
{
}

} // verus!
