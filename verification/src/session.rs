//! The flash session controller: every decision of one flash attempt, from
//! lock acquisition through cleanup.
//!
//! The controller owns the process-wide [`FlashLock`] and the phase of the
//! session in progress. The surrounding event loop performs the outside work
//! — writing artifacts, spawning the boot-loader tool, waiting on its event
//! stream under the deadline — and reports what happened; the controller
//! decides what follows and what must be emitted, killed and released.

use vstd::prelude::*;

use crate::errors::FlashError;
use crate::interp::{
    interp_step, spec_step, stream_anomaly_outcome, InterpState, ProcessEvent, StepAction,
    MAX_CONSECUTIVE_ACK_ERRORS,
};
use crate::lock::{lemma_lock_balance, FlashLock};
use crate::outcome::{
    select_terminal_event, spec_terminal_event, timeout_outcome, FlashOutcome, TerminalEvent,
};

verus! {

/// The default wall-clock deadline, in seconds, that the event loop races
/// against the interpreter.
pub const DEFAULT_TIMEOUT_SECS: u64 = 20;

/// Where the current flash session stands.
#[derive(Clone, Copy, Debug)]
pub enum SessionPhase {
    /// No session in progress.
    Idle,
    /// The lock is held; artifacts are being prepared, the tool is not yet
    /// spawned.
    Preparing,
    /// The tool is spawned; its events are being interpreted. Carries the
    /// interpreter's consecutive-error counter.
    Supervising(u32),
    /// A terminal outcome was decided; cleanup has not run yet.
    Cleanup(FlashOutcome),
}

/// What cleanup must do: emit the one terminal event, and always request a
/// kill of the subprocess — it may well have exited already, so a failing
/// kill is not an error.
pub struct CleanupPlan {
    pub event: TerminalEvent,
    pub kill_process: bool,
}

/// The decision core of the flash supervisor. Each method is one decision
/// point of a session; the lock is acquired only by `begin_flash` and
/// released exactly once per session, by `abort` or `finish`.
pub struct FlashController {
    lock: FlashLock,
    phase: SessionPhase,
}

impl FlashController {
    /// The session phase.
    pub closed spec fn phase(&self) -> SessionPhase {
        self.phase
    }

    /// The process-wide lock's state.
    pub closed spec fn lock_state(&self) -> FlashLock {
        self.lock
    }

    /// Well-formed: the lock is internally consistent, is held exactly while
    /// a session is in some phase beyond `Idle`, and a supervising counter is
    /// below the threshold.
    pub closed spec fn wf(&self) -> bool {
        &&& self.lock.wf()
        &&& (self.phase is Idle <==> !self.lock.is_running())
        &&& (self.phase matches SessionPhase::Supervising(c) ==> c
            < MAX_CONSECUTIVE_ACK_ERRORS)
    }

    /// The session is idle: no flash in progress.
    pub fn is_idle(&self) -> (r: bool)
        ensures
            r == (self.phase() is Idle),
    {
        match &self.phase {
            SessionPhase::Idle => true,
            _ => false,
        }
    }

    /// The lock is held and the tool is not yet spawned.
    pub fn is_preparing(&self) -> (r: bool)
        ensures
            r == (self.phase() is Preparing),
    {
        match &self.phase {
            SessionPhase::Preparing => true,
            _ => false,
        }
    }

    /// The tool's events are being interpreted.
    pub fn is_supervising(&self) -> (r: bool)
        ensures
            r == (self.phase() is Supervising),
    {
        match &self.phase {
            SessionPhase::Supervising(_) => true,
            _ => false,
        }
    }

    /// A terminal outcome was decided and cleanup has not run yet.
    pub fn needs_cleanup(&self) -> (r: bool)
        ensures
            r == (self.phase() is Cleanup),
    {
        match &self.phase {
            SessionPhase::Cleanup(_) => true,
            _ => false,
        }
    }

    /// A fresh controller: idle, lock clear, nothing acquired or released.
    pub fn new() -> (r: Self)
        ensures
            r.wf(),
            r.phase() is Idle,
            r.lock_state().acquired_count() == 0,
            r.lock_state().released_count() == 0,
    {
        FlashController { lock: FlashLock::new(), phase: SessionPhase::Idle }
    }

    /// Begins a flash attempt: acquires the lock. Fails with `AlreadyRunning`,
    /// changing nothing — in particular starting no second subprocess — exactly
    /// when a session is already in progress.
    pub fn begin_flash(&mut self) -> (r: Result<(), FlashError>)
        requires
            old(self).wf(),
        ensures
            final(self).wf(),
            r is Ok <==> old(self).phase() is Idle,
            r is Ok ==> final(self).phase() is Preparing && final(self).lock_state().is_running()
                && final(self).lock_state().acquired_count() == old(
                self,
            ).lock_state().acquired_count() + 1 && final(self).lock_state().released_count() == old(
                self,
            ).lock_state().released_count(),
            r is Err ==> *final(self) == *old(self) && (r matches Err(e) && e is AlreadyRunning),
    {
        match self.lock.acquire() {
            Ok(()) => {
                self.phase = SessionPhase::Preparing;
                Ok(())
            },
            Err(e) => Err(e),
        }
    }

    /// Aborts a session before the tool was spawned — artifact creation or the
    /// spawn itself failed. Releases the lock; the error itself is the
    /// caller's to report synchronously.
    pub fn abort(&mut self)
        requires
            old(self).wf(),
            old(self).phase() is Preparing,
        ensures
            final(self).wf(),
            final(self).phase() is Idle,
            !final(self).lock_state().is_running(),
            final(self).lock_state().acquired_count() == old(self).lock_state().acquired_count(),
            final(self).lock_state().released_count() == old(self).lock_state().released_count()
                + 1,
    {
        self.lock.release();
        self.phase = SessionPhase::Idle;
    }

    /// Records that the tool was spawned: supervision starts with a zero
    /// consecutive-error counter. The lock stays held.
    pub fn spawned(&mut self)
        requires
            old(self).wf(),
            old(self).phase() is Preparing,
        ensures
            final(self).wf(),
            final(self).phase() == SessionPhase::Supervising(0u32),
            final(self).lock_state() == old(self).lock_state(),
    {
        self.phase = SessionPhase::Supervising(0);
    }

    /// Takes one interpreter transition on `event`, as
    /// [`spec_step`](crate::interp::spec_step) describes it, and returns what
    /// the event loop must forward to the UI layer. A terminal transition
    /// moves the session to `Cleanup`; the lock stays held either way.
    pub fn handle_event(&mut self, event: &ProcessEvent) -> (action: StepAction)
        requires
            old(self).wf(),
            old(self).phase() is Supervising,
        ensures
            final(self).wf(),
            final(self).lock_state() == old(self).lock_state(),
            old(self).phase() matches SessionPhase::Supervising(c) ==> {
                let (state, act) = spec_step(c, *event);
                &&& action == act
                &&& (state matches InterpState::Running(c2) ==> final(self).phase()
                    == SessionPhase::Supervising(c2))
                &&& (state matches InterpState::Done(outcome) ==> final(self).phase()
                    == SessionPhase::Cleanup(outcome))
            },
    {
        let counter: u32 = match &self.phase {
            SessionPhase::Supervising(c) => *c,
            _ => {
                assert(false);
                0
            },
        };
        let (state, action) = interp_step(counter, event);
        match state {
            InterpState::Running(c2) => {
                self.phase = SessionPhase::Supervising(c2);
            },
            InterpState::Done(outcome) => {
                self.phase = SessionPhase::Cleanup(outcome);
            },
        }
        action
    }

    /// Records that the event stream ended without a termination event: an
    /// anomaly, treated as a failure without an exit code, never as success.
    pub fn stream_ended(&mut self)
        requires
            old(self).wf(),
            old(self).phase() is Supervising,
        ensures
            final(self).wf(),
            final(self).phase() == SessionPhase::Cleanup(stream_anomaly_outcome()),
            final(self).lock_state() == old(self).lock_state(),
    {
        self.phase = SessionPhase::Cleanup(
            FlashOutcome { success: false, exit_code: None, timed_out: false },
        );
    }

    /// Records that the deadline expired with the tool still running: the
    /// interpreter's partial state is discarded and the session's outcome is
    /// a timeout.
    pub fn deadline_expired(&mut self)
        requires
            old(self).wf(),
            old(self).phase() is Supervising,
        ensures
            final(self).wf(),
            final(self).phase() == SessionPhase::Cleanup(timeout_outcome()),
            final(self).lock_state() == old(self).lock_state(),
    {
        self.phase = SessionPhase::Cleanup(
            FlashOutcome { success: false, exit_code: None, timed_out: true },
        );
    }

    /// Ends the session: decides the one terminal event that reports the
    /// outcome, always requests a kill of the subprocess, and releases the
    /// lock. The controller is idle again afterwards.
    pub fn finish(&mut self) -> (plan: CleanupPlan)
        requires
            old(self).wf(),
            old(self).phase() is Cleanup,
        ensures
            final(self).wf(),
            final(self).phase() is Idle,
            !final(self).lock_state().is_running(),
            final(self).lock_state().acquired_count() == old(self).lock_state().acquired_count(),
            final(self).lock_state().released_count() == old(self).lock_state().released_count()
                + 1,
            old(self).phase() matches SessionPhase::Cleanup(outcome) ==> plan.event
                == spec_terminal_event(outcome),
            plan.kill_process,
    {
        let outcome: FlashOutcome = match &self.phase {
            SessionPhase::Cleanup(outcome) => *outcome,
            _ => {
                assert(false);
                FlashOutcome { success: false, exit_code: None, timed_out: false }
            },
        };
        let event = select_terminal_event(&outcome);
        self.lock.release();
        self.phase = SessionPhase::Idle;
        CleanupPlan { event, kill_process: true }
    }
}

/// Law (no leaked locks): whenever the controller is idle — after any mix of
/// successful, failed, timed-out and aborted sessions — the lock has been
/// released exactly as many times as it was acquired.
pub proof fn lemma_session_lock_balance(controller: FlashController)
    requires
        controller.wf(),
        controller.phase() is Idle,
    ensures
        controller.lock_state().acquired_count() == controller.lock_state().released_count(),
{
    lemma_lock_balance(controller.lock_state());
}

} // verus!
