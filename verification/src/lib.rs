//! Verified core of a device firmware-flashing supervisor.
//!
//! The library holds the decision logic of one flash session: generating the
//! command script for the boot-loader tool, the process-wide "flash in
//! progress" lock, the interpreter that classifies the tool's output lines and
//! decides the terminal outcome, and the cleanup plan that reports that
//! outcome. The surrounding process plumbing (spawning the tool, timers,
//! event delivery) lives outside the library and drives these functions.

pub mod errors;
pub mod interp;
pub mod laws;
pub mod lock;
pub mod outcome;
pub mod printer;
pub mod script;
pub mod session;

pub use errors::FlashError;
pub use interp::{InterpState, ProcessEvent, StepAction};
pub use interp::{interp_step, interpret_events, line_has_ack_error};
pub use interp::{ACK_ERROR_SENTINEL_CODE, MAX_CONSECUTIVE_ACK_ERRORS};
pub use interp::{
    lemma_five_consecutive_ack_errors, lemma_interpreter_outcome_shape,
    lemma_ok_line_resets_counter,
};
pub use lock::{lemma_lock_balance, FlashLock};
pub use session::{lemma_session_lock_balance, CleanupPlan, FlashController, SessionPhase};
pub use session::DEFAULT_TIMEOUT_SECS;
pub use laws::{lemma_termination_reporting, lemma_timeout_reporting};
pub use outcome::{FlashOutcome, TerminalEvent};
pub use printer::{PrinterInfo, PrinterList, PrinterStateDef};
pub use outcome::select_terminal_event;
pub use script::generate_script;
