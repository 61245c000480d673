//! The ways listing and syncing can fail, and the one-line text shown for
//! each; errors are reported, never fatal, and retrying the action recovers.

use vstd::prelude::*;

verus! {

/// Why a listing or a sync did not fully succeed. `SyncPartiallyFailed`
/// carries the paths whose copies failed; the copies that succeeded stay
/// applied.
#[derive(Debug, PartialEq, Eq)]
pub enum ErrorKind {
    /// No root was selected: the folder pick was cancelled or never made.
    NoRootSelected,
    /// The chosen root could not be opened for listing.
    DirectoryUnreadable,
    /// A sync was requested while no target root was set.
    TargetRootMissing,
    /// Some of the planned copies failed; the paths that failed are listed.
    SyncPartiallyFailed(Vec<String>),
}

/// The message text shown for each kind of error.
pub open spec fn error_text(e: ErrorKind) -> Seq<char> {
    match e {
        ErrorKind::NoRootSelected => "Could not open directory"@,
        ErrorKind::DirectoryUnreadable => "Could not load directory"@,
        ErrorKind::TargetRootMissing => "No target directory selected"@,
        ErrorKind::SyncPartiallyFailed(_) => "Error when syncing"@,
    }
}

impl ErrorKind {
    /// The user-visible text for this error.
    pub fn message(&self) -> (r: String)
        ensures
            r@ == error_text(*self),
    {
        match self {
            ErrorKind::NoRootSelected => "Could not open directory".to_string(),
            ErrorKind::DirectoryUnreadable => "Could not load directory".to_string(),
            ErrorKind::TargetRootMissing => "No target directory selected".to_string(),
            ErrorKind::SyncPartiallyFailed(_) => "Error when syncing".to_string(),
        }
    }
}

} // verus!
