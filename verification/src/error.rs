use vstd::prelude::*;

verus! {

/// Why a lock operation failed. Every native failure is classified
/// into exactly one of these two kinds.
#[derive(Debug)]
pub enum FileLockError {
    /// The file is already locked by another holder. Only a
    /// non-blocking acquire that finds the lock held reports this;
    /// it carries no further detail.
    AlreadyLocked,
    /// Any other failure of the underlying file or lock call,
    /// carrying the underlying failure's description for diagnostics.
    IOError(String),
}

impl FileLockError {
    /// Return `true` if this is the contention error.
    pub fn is_already_locked(&self) -> (r: bool)
        ensures
            r == (*self is AlreadyLocked),
    {
        matches!(self, FileLockError::AlreadyLocked)
    }

    /// Return `true` if this wraps an I/O failure.
    pub fn is_io_error(&self) -> (r: bool)
        ensures
            r == (*self is IOError),
    {
        matches!(self, FileLockError::IOError(_))
    }

    /// Wrap a native failure that is not contention. A blocking
    /// acquire waits instead of reporting contention, so this is the
    /// only classification for its failures, and likewise for a
    /// failed release.
    pub fn io(description: String) -> (r: FileLockError)
        ensures
            r == FileLockError::IOError(description),
    {
        FileLockError::IOError(description)
    }

    /// Classify the failure of a non-blocking acquire. The platform
    /// driver passes the native failure code it observed together
    /// with its own "lock held elsewhere" code: that code — and only
    /// that code — maps to `AlreadyLocked`; every other failure is an
    /// I/O error carrying the native description.
    pub fn classify_nonblocking(code: i32, contention_code: i32, description: String) -> (r:
        FileLockError)
        ensures
            r == (if code == contention_code {
                FileLockError::AlreadyLocked
            } else {
                FileLockError::IOError(description)
            }),
    {
        if code == contention_code {
            FileLockError::AlreadyLocked
        } else {
            FileLockError::IOError(description)
        }
    }
}

} // verus!
