use vstd::prelude::*;

use crate::error::FileLockError;
use crate::lock_mode::FileLockMode;

verus! {

/// The lock-state machine of an advisory lock handle: the mode fixed
/// at construction and whether the handle currently holds the
/// OS-level lock.
///
/// The handle that owns the open file performs the native lock calls
/// and records each outcome here, so that the flag tracks exactly the
/// successful acquires and releases, and destruction can tell whether
/// a lock is still held.
#[derive(Debug)]
pub struct LockState {
    locked: bool,
    mode: FileLockMode,
}

impl LockState {
    /// Whether this state records a held lock.
    pub closed spec fn spec_locked(&self) -> bool {
        self.locked
    }

    /// The mode fixed at construction.
    pub closed spec fn spec_mode(&self) -> FileLockMode {
        self.mode
    }

    /// The state of a freshly constructed handle: no lock held.
    pub closed spec fn spec_new(mode: FileLockMode) -> LockState {
        LockState { locked: false, mode }
    }

    /// The state after a successful acquire: the lock is held, the
    /// mode unchanged.
    pub closed spec fn spec_acquired(self) -> LockState {
        LockState { locked: true, mode: self.mode }
    }

    /// The state after a successful release: no lock held, the mode
    /// unchanged.
    pub closed spec fn spec_released(self) -> LockState {
        LockState { locked: false, mode: self.mode }
    }

    /// Whether destruction still has a lock to release: exactly when
    /// the lock is held.
    pub open spec fn release_pending(&self) -> bool {
        self.spec_locked()
    }

    /// Create the state of a new handle. No lock is requested yet, so
    /// no release is pending.
    pub fn new(mode: FileLockMode) -> (r: LockState)
        ensures
            r == LockState::spec_new(mode),
            !r.spec_locked(),
            r.spec_mode() == mode,
    {
        LockState { locked: false, mode }
    }

    /// Return `true` if the lock is currently held.
    pub fn is_locked(&self) -> (r: bool)
        ensures
            r == self.spec_locked(),
    {
        self.locked
    }

    /// The mode the handle was constructed with.
    pub fn mode(&self) -> (r: FileLockMode)
        ensures
            r == self.spec_mode(),
    {
        self.mode
    }

    /// Return `true` if the handle's mode is shared.
    pub fn is_shared(&self) -> (r: bool)
        ensures
            r == (self.spec_mode() is Shared),
    {
        self.mode.is_shared()
    }

    /// Return `true` if the handle's mode is exclusive.
    pub fn is_exclusive(&self) -> (r: bool)
        ensures
            r == (self.spec_mode() is Exclusive),
    {
        self.mode.is_exclusive()
    }

    /// Record the platform driver's answer to an acquire, blocking or
    /// non-blocking: success marks the lock as held; any failure
    /// leaves the state untouched and is handed back to the caller.
    pub fn apply_acquire(&mut self, outcome: Result<(), FileLockError>) -> (r: Result<
        (),
        FileLockError,
    >)
        ensures
            outcome is Ok ==> *final(self) == old(self).spec_acquired(),
            outcome is Err ==> *final(self) == *old(self),
            final(self).spec_mode() == old(self).spec_mode(),
            r == outcome,
    {
        match outcome {
            Ok(u) => {
                self.locked = true;
                Ok(u)
            },
            Err(e) => Err(e),
        }
    }

    /// Record the platform driver's answer to a release: success
    /// clears the held flag, so nothing is left for destruction to
    /// release; failure leaves the flag set, so the caller may retry
    /// or let destruction attempt the release again.
    pub fn apply_release(&mut self, outcome: Result<(), FileLockError>) -> (r: Result<
        (),
        FileLockError,
    >)
        ensures
            outcome is Ok ==> *final(self) == old(self).spec_released(),
            outcome is Err ==> *final(self) == *old(self),
            final(self).spec_mode() == old(self).spec_mode(),
            r == outcome,
    {
        match outcome {
            Ok(u) => {
                self.locked = false;
                Ok(u)
            },
            Err(e) => Err(e),
        }
    }
}

/// A handle that was never locked performs no release at destruction:
/// a freshly constructed state has no release pending.
pub proof fn lemma_new_needs_no_release(mode: FileLockMode)
    ensures
        !LockState::spec_new(mode).release_pending(),
{
}

/// A successful acquire leaves exactly one release for the handle to
/// perform — by an explicit release or at destruction — in the same
/// mode the handle was constructed with.
pub proof fn lemma_acquire_pends_release(s: LockState)
    ensures
        s.spec_acquired().release_pending(),
        s.spec_acquired().spec_mode() == s.spec_mode(),
{
}

/// Releasing is final: after a successful release nothing is pending,
/// so destruction performs no second release, whatever came before.
pub proof fn lemma_release_is_final(s: LockState)
    ensures
        !s.spec_released().release_pending(),
        s.spec_released().spec_mode() == s.spec_mode(),
{
}

} // verus!
