//! A guard over a staging directory: what is extracted there is thrown away
//! again unless the guard has been committed.

use vstd::prelude::*;
use crate::paths::FsPath;

verus! {

/// What a [`StagingGuard`] stands for: the directory it is bound to, and
/// whether it has been committed.
pub struct GuardView {
    pub path: Seq<Seq<char>>,
    pub committed: bool,
}

/// Binds one staging directory. While the guard is not committed, whoever lets
/// go of it owes the removal of that directory; [`StagingGuard::release`] says
/// which directory that is. Once committed, the guard asks for nothing.
pub struct StagingGuard {
    staging: FsPath,
    comitted: bool,
}

impl View for StagingGuard {
    type V = GuardView;

    closed spec fn view(&self) -> GuardView {
        GuardView { path: self.staging@, committed: self.comitted }
    }
}

impl GuardView {
    /// The directory that has to be removed when a guard with this view is let
    /// go of: its path while uncommitted, nothing once committed.
    pub open spec fn owed_removal(self) -> Option<Seq<Seq<char>>> {
        if self.committed {
            None
        } else {
            Some(self.path)
        }
    }
}

impl StagingGuard {
    /// Binds `staging`, which need not exist yet. Nothing is touched.
    pub fn new(staging: FsPath) -> (guard: Self)
        ensures
            guard@.path == staging@,
            !guard@.committed,
    {
        Self { staging, comitted: false }
    }

    /// The directory to extract into.
    pub fn path(&self) -> (path: &FsPath)
        ensures
            path@ == self@.path,
    {
        &self.staging
    }

    /// Disarms the guard: the directory now belongs to the caller, and the
    /// guard that comes back owes no removal.
    pub fn commit(self) -> (disarmed: Self)
        ensures
            disarmed@.path == self@.path,
            disarmed@.committed,
            disarmed@.owed_removal() is None,
    {
        let mut guard = self;
        guard.comitted = true;
        guard
    }

    /// Whether the guard has been committed.
    pub fn is_committed(&self) -> (committed: bool)
        ensures
            committed == self@.committed,
    {
        self.comitted
    }

    /// Lets go of the guard and says which directory, if any, has to be removed
    /// (if it exists; a failure to remove it is not reported to anyone).
    pub fn release(self) -> (owed: Option<FsPath>)
        ensures
            owed is Some <==> !self@.committed,
            owed matches Some(path) ==> path@ == self@.path,
            owed is Some <==> self@.owed_removal() is Some,
    {
        if self.comitted {
            None
        } else {
            Some(self.staging)
        }
    }
}

} // verus!
