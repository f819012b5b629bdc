//! The output interpreter: classifies the boot-loader tool's event stream and
//! decides the terminal outcome of a flash session.
//!
//! The interpreter is a pure state machine. While running it carries one
//! counter, the number of consecutive standard-output lines that contained the
//! acknowledgment-error marker; any other standard-output line resets it. The
//! counter reaching its threshold, or a termination event, or the end of the
//! stream, ends the session with a [`FlashOutcome`].

use vstd::prelude::*;

use crate::outcome::FlashOutcome;

verus! {

/// A session ends as a protocol failure once this many consecutive
/// standard-output lines have carried the acknowledgment-error marker.
pub const MAX_CONSECUTIVE_ACK_ERRORS: u32 = 5;

/// The sentinel exit code that reports the consecutive-error threshold, since
/// the tool itself never got to report one.
pub const ACK_ERROR_SENTINEL_CODE: i32 = 1000;

/// One event from the supervised subprocess, as the event stream delivers it.
#[derive(Debug)]
pub enum ProcessEvent {
    /// A line of the tool's standard output.
    Stdout(Vec<u8>),
    /// A line of the tool's standard error.
    Stderr(Vec<u8>),
    /// An internal error reading the stream; carries the reported reason.
    Error(String),
    /// The tool terminated, with its exit code if the OS reported one.
    Terminated(Option<i32>),
    /// Any other lifecycle event; ignored.
    Other,
}

/// What the event loop must forward to the UI layer after one step.
#[derive(Clone, Copy, Debug, PartialEq, Eq, Structural)]
pub enum StepAction {
    /// Forward the line as a standard-output progress event.
    EmitStdout,
    /// Forward the line as a standard-error progress event.
    EmitStderr,
    /// Forward nothing.
    NoEmit,
}

/// The interpreter's state: still consuming events, or done with an outcome.
/// There is no transition out of `Done`.
#[derive(Clone, Copy, Debug)]
pub enum InterpState {
    /// Still consuming events; carries the consecutive-error counter.
    Running(u32),
    /// A terminal transition was taken.
    Done(FlashOutcome),
}

/// The acknowledgment-error marker that the boot-loader tool prints on a
/// negative acknowledgment from the target device: the ASCII bytes of
/// `[ACK_ERROR_MESSAGE]`.
pub open spec fn ack_marker() -> Seq<u8> {
    seq![
        91u8, 65u8, 67u8, 75u8, 95u8, 69u8, 82u8, 82u8, 79u8, 82u8, 95u8, 77u8, 69u8, 83u8,
        83u8, 65u8, 71u8, 69u8, 93u8,
    ]
}

/// `pat` occurs in `line` starting at position `i`.
pub open spec fn match_at(line: Seq<u8>, pat: Seq<u8>, i: int) -> bool {
    0 <= i && i + pat.len() <= line.len() && line.subrange(i, i + pat.len() as int) == pat
}

/// `pat` occurs somewhere in `line`.
pub open spec fn contains_bytes(line: Seq<u8>, pat: Seq<u8>) -> bool {
    exists|i: int| match_at(line, pat, i)
}

/// `event` is a standard-output line carrying the acknowledgment-error marker.
pub open spec fn is_ack_error_line(event: ProcessEvent) -> bool {
    match event {
        ProcessEvent::Stdout(line) => contains_bytes(line@, ack_marker()),
        _ => false,
    }
}

/// The outcome of a session that hit the consecutive-error threshold.
pub open spec fn too_many_errors_outcome() -> FlashOutcome {
    FlashOutcome { success: false, exit_code: Some(ACK_ERROR_SENTINEL_CODE), timed_out: false }
}

/// The outcome of a session whose event stream ended without a termination
/// event: an anomaly, reported as a failure without an exit code.
pub open spec fn stream_anomaly_outcome() -> FlashOutcome {
    FlashOutcome { success: false, exit_code: None, timed_out: false }
}

/// One transition of the interpreter: from the consecutive-error counter and
/// one event to the next state and what to forward to the UI layer.
///
/// Every standard-output line is forwarded as a progress event, regardless of
/// its classification. A marker line increments the counter and, at the
/// threshold, also ends the session at once; any other standard-output line
/// resets the counter; standard-error lines are forwarded without touching
/// the counter; internal stream errors and unknown events change nothing; a
/// termination event ends the session, successfully exactly when the exit
/// code is zero.
pub open spec fn spec_step(counter: u32, event: ProcessEvent) -> (InterpState, StepAction) {
    match event {
        ProcessEvent::Stdout(line) => {
            if contains_bytes(line@, ack_marker()) {
                if counter + 1 >= MAX_CONSECUTIVE_ACK_ERRORS {
                    (InterpState::Done(too_many_errors_outcome()), StepAction::EmitStdout)
                } else {
                    (InterpState::Running((counter + 1) as u32), StepAction::EmitStdout)
                }
            } else {
                (InterpState::Running(0u32), StepAction::EmitStdout)
            }
        },
        ProcessEvent::Stderr(_) => (InterpState::Running(counter), StepAction::EmitStderr),
        ProcessEvent::Error(_) => (InterpState::Running(counter), StepAction::NoEmit),
        ProcessEvent::Terminated(code) => (
            InterpState::Done(
                FlashOutcome { success: code == Some(0i32), exit_code: code, timed_out: false },
            ),
            StepAction::NoEmit,
        ),
        ProcessEvent::Other => (InterpState::Running(counter), StepAction::NoEmit),
    }
}

/// The outcome of feeding `events` to the interpreter starting from
/// `counter`: the outcome of the first terminal transition, or the stream
/// anomaly if the events run out first.
pub open spec fn spec_interpret_from(counter: u32, events: Seq<ProcessEvent>) -> FlashOutcome
    decreases events.len(),
{
    if events.len() == 0 {
        stream_anomaly_outcome()
    } else {
        match spec_step(counter, events[0]).0 {
            InterpState::Done(outcome) => outcome,
            InterpState::Running(c) => spec_interpret_from(c, events.drop_first()),
        }
    }
}

/// The outcome of a whole session's event stream, starting with a zero
/// counter.
pub open spec fn spec_interpret(events: Seq<ProcessEvent>) -> FlashOutcome {
    spec_interpret_from(0u32, events)
}

/// Law: the interpreter itself never reports a timeout — that outcome is the
/// deadline's alone — and reports success only with a zero exit code.
pub proof fn lemma_interpreter_outcome_shape(counter: u32, events: Seq<ProcessEvent>)
    ensures
        !spec_interpret_from(counter, events).timed_out,
        spec_interpret_from(counter, events).success ==> spec_interpret_from(
            counter,
            events,
        ).exit_code == Some(0i32),
    decreases events.len(),
{
    if events.len() > 0 {
        match spec_step(counter, events[0]).0 {
            InterpState::Done(_) => {
            },
            InterpState::Running(c) => {
                lemma_interpreter_outcome_shape(c, events.drop_first());
            },
        }
    }
}

/// From a running counter, enough consecutive marker lines to reach the
/// threshold force the protocol-failure outcome, whatever follows them.
proof fn lemma_ack_errors_reach_threshold(counter: u32, events: Seq<ProcessEvent>)
    requires
        counter < MAX_CONSECUTIVE_ACK_ERRORS,
        events.len() >= MAX_CONSECUTIVE_ACK_ERRORS - counter,
        forall|i: int|
            0 <= i < MAX_CONSECUTIVE_ACK_ERRORS - counter ==> is_ack_error_line(#[trigger] events[i]),
    ensures
        spec_interpret_from(counter, events) == too_many_errors_outcome(),
    decreases MAX_CONSECUTIVE_ACK_ERRORS - counter,
{
    assert(is_ack_error_line(events[0]));
    if counter + 1 < MAX_CONSECUTIVE_ACK_ERRORS {
        let rest = events.drop_first();
        assert forall|i: int|
            0 <= i < MAX_CONSECUTIVE_ACK_ERRORS - (counter + 1) implies is_ack_error_line(
            #[trigger] rest[i],
        ) by {
            assert(rest[i] == events[i + 1]);
        }
        lemma_ack_errors_reach_threshold((counter + 1) as u32, rest);
    }
}

/// Law: a single standard-output line without the marker resets the
/// consecutive-error counter to zero, whatever it had reached.
pub proof fn lemma_ok_line_resets_counter(counter: u32, line: Vec<u8>)
    requires
        !contains_bytes(line@, ack_marker()),
    ensures
        spec_step(counter, ProcessEvent::Stdout(line)).0 == InterpState::Running(0u32),
        spec_step(counter, ProcessEvent::Stdout(line)).1 == StepAction::EmitStdout,
{
}

/// Law: five consecutive standard-output lines carrying the
/// acknowledgment-error marker end the session as a protocol failure with the
/// sentinel exit code, from any reachable counter and regardless of what
/// output follows.
pub proof fn lemma_five_consecutive_ack_errors(counter: u32, events: Seq<ProcessEvent>)
    requires
        counter < MAX_CONSECUTIVE_ACK_ERRORS,
        events.len() >= MAX_CONSECUTIVE_ACK_ERRORS,
        forall|i: int|
            0 <= i < MAX_CONSECUTIVE_ACK_ERRORS ==> is_ack_error_line(#[trigger] events[i]),
    ensures
        spec_interpret_from(counter, events) == too_many_errors_outcome(),
{
    lemma_ack_errors_reach_threshold(counter, events);
}

/// The marker bytes as an executable value.
fn ack_marker_bytes() -> (r: Vec<u8>)
    ensures
        r@ == ack_marker(),
{
    let mut v: Vec<u8> = Vec::new();
    v.push(91);
    v.push(65);
    v.push(67);
    v.push(75);
    v.push(95);
    v.push(69);
    v.push(82);
    v.push(82);
    v.push(79);
    v.push(82);
    v.push(95);
    v.push(77);
    v.push(69);
    v.push(83);
    v.push(83);
    v.push(65);
    v.push(71);
    v.push(69);
    v.push(93);
    proof {
        assert(v@ =~= ack_marker());
    }
    v
}

/// `pat` occurs in `line` starting exactly at `i`.
fn bytes_match_at(line: &[u8], pat: &[u8], i: usize) -> (r: bool)
    requires
        i + pat@.len() <= line@.len(),
    ensures
        r == match_at(line@, pat@, i as int),
{
    let line_len = line.len();
    let pat_len = pat.len();
    let mut j: usize = 0;
    while j < pat_len
        invariant
            line_len == line@.len(),
            pat_len == pat@.len(),
            i + pat@.len() <= line@.len(),
            j <= pat@.len(),
            forall|k: int| 0 <= k < j ==> line@[i + k] == pat@[k],
        decreases pat@.len() - j,
    {
        if line[i + j] != pat[j] {
            proof {
                if match_at(line@, pat@, i as int) {
                    assert(line@.subrange(i as int, i + pat@.len() as int)[j as int]
                        == line@[i + j]);
                }
            }
            return false;
        }
        j += 1;
    }
    proof {
        assert(line@.subrange(i as int, i + pat@.len() as int) =~= pat@);
    }
    true
}

/// `pat` occurs somewhere in `line`.
fn bytes_contain(line: &[u8], pat: &[u8]) -> (r: bool)
    requires
        pat@.len() >= 1,
    ensures
        r == contains_bytes(line@, pat@),
{
    let line_len = line.len();
    let pat_len = pat.len();
    if line_len < pat_len {
        return false;
    }
    let mut i: usize = 0;
    while i <= line_len - pat_len
        invariant
            line_len == line@.len(),
            pat_len == pat@.len(),
            1 <= pat@.len() <= line@.len(),
            i <= line@.len() - pat@.len() + 1,
            forall|k: int| 0 <= k < i ==> !match_at(line@, pat@, k),
        decreases line@.len() - pat@.len() - i + 1,
    {
        if bytes_match_at(line, pat, i) {
            return true;
        }
        i += 1;
    }
    proof {
        assert(forall|k: int| k >= i ==> !match_at(line@, pat@, k));
    }
    false
}

/// The line carries the acknowledgment-error marker.
pub fn line_has_ack_error(line: &[u8]) -> (r: bool)
    ensures
        r == contains_bytes(line@, ack_marker()),
{
    let pat = ack_marker_bytes();
    bytes_contain(line, pat.as_slice())
}

/// One transition of the interpreter, as [`spec_step`] describes it. The
/// counter stays under the threshold in every reachable `Running` state.
pub fn interp_step(counter: u32, event: &ProcessEvent) -> (r: (InterpState, StepAction))
    requires
        counter < MAX_CONSECUTIVE_ACK_ERRORS,
    ensures
        r == spec_step(counter, *event),
        (r.0 matches InterpState::Running(c) ==> c < MAX_CONSECUTIVE_ACK_ERRORS),
{
    match event {
        ProcessEvent::Stdout(line) => {
            if line_has_ack_error(line.as_slice()) {
                if counter + 1 >= MAX_CONSECUTIVE_ACK_ERRORS {
                    (
                        InterpState::Done(
                            FlashOutcome {
                                success: false,
                                exit_code: Some(ACK_ERROR_SENTINEL_CODE),
                                timed_out: false,
                            },
                        ),
                        StepAction::EmitStdout,
                    )
                } else {
                    (InterpState::Running(counter + 1), StepAction::EmitStdout)
                }
            } else {
                (InterpState::Running(0), StepAction::EmitStdout)
            }
        },
        ProcessEvent::Stderr(_) => (InterpState::Running(counter), StepAction::EmitStderr),
        ProcessEvent::Error(_) => (InterpState::Running(counter), StepAction::NoEmit),
        ProcessEvent::Terminated(code) => {
            let success = match code {
                Some(c) => *c == 0,
                None => false,
            };
            (
                InterpState::Done(
                    FlashOutcome { success, exit_code: *code, timed_out: false },
                ),
                StepAction::NoEmit,
            )
        },
        ProcessEvent::Other => (InterpState::Running(counter), StepAction::NoEmit),
    }
}

/// Feeds a whole recorded event stream to the interpreter and returns the
/// session's outcome, exactly as [`spec_interpret`] describes it. This is the
/// interpreter's behaviour free of any transport: the live event loop takes
/// the same transitions one event at a time.
pub fn interpret_events(events: &Vec<ProcessEvent>) -> (r: FlashOutcome)
    ensures
        r == spec_interpret(events@),
{
    proof {
        assert(events@.skip(0) =~= events@);
    }
    let mut counter: u32 = 0;
    let mut idx: usize = 0;
    while idx < events.len()
        invariant
            idx <= events@.len(),
            counter < MAX_CONSECUTIVE_ACK_ERRORS,
            spec_interpret(events@) == spec_interpret_from(counter, events@.skip(idx as int)),
        decreases events@.len() - idx,
    {
        proof {
            assert(events@.skip(idx as int)[0] == events@[idx as int]);
            assert(events@.skip(idx as int).drop_first() =~= events@.skip(idx as int + 1));
        }
        let (state, _action) = interp_step(counter, &events[idx]);
        match state {
            InterpState::Done(outcome) => {
                return outcome;
            },
            InterpState::Running(c) => {
                counter = c;
            },
        }
        idx += 1;
    }
    proof {
        assert(events@.skip(idx as int) =~= Seq::<ProcessEvent>::empty());
    }
    FlashOutcome { success: false, exit_code: None, timed_out: false }
}

} // verus!
