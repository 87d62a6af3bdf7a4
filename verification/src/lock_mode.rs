use vstd::prelude::*;

verus! {

/// How an advisory lock is to be acquired: by at most one exclusive
/// holder, or shared among any number of concurrent holders.
///
/// The mode is chosen when a handle is constructed and fixed for the
/// handle's lifetime; it governs both the access flags with which the
/// backing file is opened and which native lock variant is requested.
#[derive(Copy, Clone, PartialEq, Eq, Structural, Debug)]
pub enum FileLockMode {
    /// Obtain an exclusive file lock.
    Exclusive,
    /// Obtain a shared file lock.
    Shared,
}

/// The access flags with which the backing file of a lock handle is
/// opened: read access, write access, and create-if-absent.
#[derive(Copy, Clone, PartialEq, Eq, Structural, Debug)]
pub struct OpenFlags {
    pub read: bool,
    pub write: bool,
    pub create: bool,
}

impl FileLockMode {
    /// The open flags that this mode dictates: read access always;
    /// write access and creating a missing file only for an exclusive
    /// lock, since a shared (read) lock must not require write access.
    pub open spec fn spec_open_flags(self) -> OpenFlags {
        OpenFlags {
            read: true,
            write: self is Exclusive,
            create: self is Exclusive,
        }
    }

    /// Return `true` if this is the shared mode.
    pub fn is_shared(&self) -> (r: bool)
        ensures
            r == (*self is Shared),
    {
        *self == FileLockMode::Shared
    }

    /// Return `true` if this is the exclusive mode.
    pub fn is_exclusive(&self) -> (r: bool)
        ensures
            r == (*self is Exclusive),
    {
        *self == FileLockMode::Exclusive
    }

    /// Compute the access flags for opening the backing file in this
    /// mode.
    pub fn open_flags(&self) -> (r: OpenFlags)
        ensures
            r == self.spec_open_flags(),
    {
        let exclusive = self.is_exclusive();
        OpenFlags { read: true, write: exclusive, create: exclusive }
    }

    /// Pick the native lock request for this mode. The platform
    /// driver passes the codes with which its lock call requests a
    /// shared and an exclusive lock; the mode selects between them,
    /// so the variant requested always matches the mode the handle
    /// was constructed with.
    pub fn native_request(&self, shared_code: i32, exclusive_code: i32) -> (r: i32)
        ensures
            *self is Shared ==> r == shared_code,
            *self is Exclusive ==> r == exclusive_code,
    {
        if self.is_shared() {
            shared_code
        } else {
            exclusive_code
        }
    }
}

/// A shared-mode handle opens its file read-only and never creates it,
/// so opening a path that does not exist fails; an exclusive-mode
/// handle opens read-write and creates the file if it is absent.
pub proof fn lemma_mode_open_flags()
    ensures
        FileLockMode::Shared.spec_open_flags().read,
        !FileLockMode::Shared.spec_open_flags().write,
        !FileLockMode::Shared.spec_open_flags().create,
        FileLockMode::Exclusive.spec_open_flags().read,
        FileLockMode::Exclusive.spec_open_flags().write,
        FileLockMode::Exclusive.spec_open_flags().create,
{
}

} // verus!
