//! Errors that end a flash attempt synchronously, before supervision starts.

use vstd::prelude::*;

verus! {

/// Why a flash attempt was refused or aborted before the background
/// supervision took over. Asynchronous failures (protocol errors, nonzero
/// exits, timeouts) are not errors of this kind: they are reported through a
/// terminal event instead.
#[derive(Debug)]
pub enum FlashError {
    /// Another flash session holds the process-wide lock.
    AlreadyRunning,
    /// The firmware artifact's path is not representable as text.
    InvalidFirmwarePath,
    /// The credential artifact's path is not representable as text.
    InvalidPasswordPath,
    /// Creating the scratch directory or writing an artifact failed; the
    /// payload is the reported reason.
    Setup(String),
    /// The boot-loader tool could not be spawned; the payload is the
    /// reported reason.
    Spawn(String),
}

} // verus!
