//! Laws that tie the interpreter's terminal transitions to the events that
//! report them.

use vstd::prelude::*;

use crate::interp::{spec_step, InterpState, ProcessEvent, StepAction};
use crate::outcome::{spec_terminal_event, timeout_outcome, TerminalEvent};

verus! {

/// Law: a termination event ends the session at once, with the reported exit
/// code. The session succeeds, and is reported by a `Finished` event, exactly
/// when that code is zero; any other code — or a missing one — is reported by
/// a `Failed` event carrying the same code.
pub proof fn lemma_termination_reporting(counter: u32, code: Option<i32>)
    ensures
        ({
            let (state, action) = spec_step(counter, ProcessEvent::Terminated(code));
            &&& action == StepAction::NoEmit
            &&& state matches InterpState::Done(outcome) && outcome.exit_code == code
                && !outcome.timed_out && outcome.success == (code == Some(0i32)) && (
            if code == Some(0i32) {
                spec_terminal_event(outcome) == TerminalEvent::Finished
            } else {
                spec_terminal_event(outcome) == TerminalEvent::Failed(code)
            })
        }),
{
}

/// Law: a session whose deadline expired is reported by the `Timeout` event
/// alone — never by `Finished`, never by `Failed`.
pub proof fn lemma_timeout_reporting()
    ensures
        spec_terminal_event(timeout_outcome()) == TerminalEvent::Timeout,
        spec_terminal_event(timeout_outcome()) != TerminalEvent::Finished,
        forall|code: Option<i32>|
            spec_terminal_event(timeout_outcome()) != TerminalEvent::Failed(code),
{
}

} // verus!
