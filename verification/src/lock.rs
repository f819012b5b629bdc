//! The process-wide "flash in progress" lock.
//!
//! A single boolean flag guards the whole flasher: at most one flash session
//! may be active at a time. The flag carries ghost counters of how often it
//! was acquired and released, so the no-leaked-locks law can be stated and
//! proved: every successful acquire is matched by exactly one release.

use vstd::prelude::*;

use crate::errors::FlashError;

verus! {

/// The lock's state. The caller holds it behind whatever exclusion its
/// runtime offers; the methods here are the only ways to read or change the
/// flag.
pub struct FlashLock {
    running: bool,
    acquired: Ghost<nat>,
    released: Ghost<nat>,
}

impl FlashLock {
    /// A flash session is in progress.
    pub closed spec fn is_running(&self) -> bool {
        self.running
    }

    /// How many times the lock has been acquired.
    pub closed spec fn acquired_count(&self) -> nat {
        self.acquired@
    }

    /// How many times the lock has been released.
    pub closed spec fn released_count(&self) -> nat {
        self.released@
    }

    /// Well-formed: every acquire but possibly the live one has been matched
    /// by a release.
    pub closed spec fn wf(&self) -> bool {
        self.acquired@ == self.released@ + (if self.running {
            1int
        } else {
            0int
        })
    }

    /// A fresh lock: clear, with nothing acquired or released yet.
    pub fn new() -> (r: Self)
        ensures
            r.wf(),
            !r.is_running(),
            r.acquired_count() == 0,
            r.released_count() == 0,
    {
        FlashLock { running: false, acquired: Ghost(0nat), released: Ghost(0nat) }
    }

    /// Acquires the lock. Fails, changing nothing, exactly when a session
    /// already holds it.
    pub fn acquire(&mut self) -> (r: Result<(), FlashError>)
        requires
            old(self).wf(),
        ensures
            final(self).wf(),
            r is Ok <==> !old(self).is_running(),
            r is Ok ==> final(self).is_running() && final(self).acquired_count() == old(
                self,
            ).acquired_count() + 1 && final(self).released_count() == old(self).released_count(),
            r is Err ==> *final(self) == *old(self) && (r matches Err(e) && e is AlreadyRunning),
    {
        if self.running {
            Err(FlashError::AlreadyRunning)
        } else {
            self.running = true;
            self.acquired = Ghost(self.acquired@ + 1);
            Ok(())
        }
    }

    /// Releases the lock. Releasing an idle lock is a no-op; releasing a held
    /// one counts as exactly one release.
    pub fn release(&mut self)
        requires
            old(self).wf(),
        ensures
            final(self).wf(),
            !final(self).is_running(),
            old(self).is_running() ==> final(self).acquired_count() == old(self).acquired_count()
                && final(self).released_count() == old(self).released_count() + 1,
            !old(self).is_running() ==> *final(self) == *old(self),
    {
        if self.running {
            self.running = false;
            self.released = Ghost(self.released@ + 1);
        }
    }
}

/// Law (lock balance): at quiescence — no session in progress — the lock has
/// been released exactly as many times as it was acquired, whichever paths
/// the sessions took.
pub proof fn lemma_lock_balance(lock: FlashLock)
    requires
        lock.wf(),
        !lock.is_running(),
    ensures
        lock.acquired_count() == lock.released_count(),
{
}

} // verus!
