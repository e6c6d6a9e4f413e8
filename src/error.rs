use vstd::prelude::*;

verus! {

/// Failures surfaced by the storage operations.
///
/// Where an operating-system error caused the failure, its text is kept for
/// diagnostics.
#[derive(Debug, Clone, PartialEq, Eq)]
pub enum StoreError {
    /// No candidate directory passed the write probe. Holds the last
    /// underlying error seen, or `None` when no candidate was configured.
    NoWritableLocation(Option<String>),
    /// The database file to snapshot does not exist.
    SourceMissing,
    /// The page copy, or reading the copy back, failed.
    BackupFailed(String),
    /// The snapshot holds fewer bytes than any sound database file; holds its size.
    TooSmall(u64),
    /// The live file could not be replaced; a rollback was attempted where one applied.
    ReplaceFailed(String),
    /// The file could not be deleted, or was still present when checked afterwards.
    DeleteFailed(String),
}

} // verus!
