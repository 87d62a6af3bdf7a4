//! The verified core of an advisory file-lock handle.
//!
//! An advisory lock is a mutual-exclusion mechanism among cooperating
//! processes that explicitly acquire and release locks on a shared
//! file path; processes unaware of the protocol are unaffected. This
//! crate holds the parts of such a handle that are pure decisions:
//! which access flags each lock mode dictates for opening the backing
//! file, how a platform's native failure codes are classified into the
//! two logical errors, and the handle's lock-state machine, which
//! records the outcome of every native acquire and release call and
//! decides whether destruction still has a lock to release. The
//! native calls themselves — opening the file and asking the operating
//! system for the lock — are performed by the caller, which feeds
//! their outcomes back into the state machine.

pub mod error;
pub mod lock_mode;
pub mod state;

pub use error::FileLockError;
pub use lock_mode::FileLockMode;
pub use lock_mode::OpenFlags;
pub use state::LockState;
