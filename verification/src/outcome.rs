//! The terminal outcome of a flash session and the event that reports it.

use vstd::prelude::*;

verus! {

/// How one flash session ended. Exactly one of `success`, `timed_out`, or
/// neither-with-a-failing-exit-code holds at finalization.
#[derive(Clone, Copy, Debug, PartialEq, Eq, Structural)]
pub struct FlashOutcome {
    pub success: bool,
    pub exit_code: Option<i32>,
    pub timed_out: bool,
}

/// The one terminal event a session emits to the UI layer.
#[derive(Clone, Copy, Debug, PartialEq, Eq, Structural)]
pub enum TerminalEvent {
    /// The tool exited with code zero.
    Finished,
    /// The deadline expired before a termination event arrived.
    Timeout,
    /// The tool failed; carries its exit code, if one was observed.
    Failed(Option<i32>),
}

/// The outcome of a session whose deadline expired with the tool still
/// running.
pub open spec fn timeout_outcome() -> FlashOutcome {
    FlashOutcome { success: false, exit_code: None, timed_out: true }
}

/// Which terminal event an outcome is reported by: success as `Finished`, a
/// timeout as `Timeout`, anything else as `Failed` with the exit code.
pub open spec fn spec_terminal_event(outcome: FlashOutcome) -> TerminalEvent {
    if outcome.success {
        TerminalEvent::Finished
    } else if outcome.timed_out {
        TerminalEvent::Timeout
    } else {
        TerminalEvent::Failed(outcome.exit_code)
    }
}

/// Selects the single terminal event that reports `outcome`.
pub fn select_terminal_event(outcome: &FlashOutcome) -> (r: TerminalEvent)
    ensures
        r == spec_terminal_event(*outcome),
{
    if outcome.success {
        TerminalEvent::Finished
    } else if outcome.timed_out {
        TerminalEvent::Timeout
    } else {
        TerminalEvent::Failed(outcome.exit_code)
    }
}

} // verus!
