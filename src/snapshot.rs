//! The consistent snapshot engine: a checksummed point-in-time copy of a live
//! database file.
//!
//! The source must exist. A light checkpoint runs first; its failure is never
//! fatal. The engine's online backup then copies pages in small steps, the
//! copy is measured, a copy under 1 KiB is rejected as corrupt, and the fast
//! checksum of the copy is taken from its two windows. The caller performs
//! each step that [`SnapshotJob::action`] names and hands back a
//! [`SnapshotEvent`].
use vstd::prelude::*;

use crate::checkpoint::{CheckpointMode, CheckpointReport};
use crate::checksum::{
    checksum_windows,
    fast_checksum_from_windows,
    head_len,
    is_lower_hex_digit,
    sha256_hex,
    tail_len,
    window_input,
    ChecksumWindows,
};
use crate::error::StoreError;

verus! {

/// A copy smaller than this is treated as corrupt.
pub const MIN_SNAPSHOT_BYTES: u64 = 1024;

/// Pages copied per step of the online backup.
pub const PAGES_PER_STEP: u32 = 100;

/// Pause between two steps of the online backup.
pub const STEP_PAUSE_MS: u64 = 10;

/// A finished snapshot.
#[derive(Debug, Clone, PartialEq, Eq)]
pub struct BackupDescriptor {
    pub path: String,
    pub size_bytes: u64,
    /// The fast checksum of the copy, 64 lowercase hexadecimal digits.
    pub checksum: String,
}

/// A step of the snapshot for the caller to perform.
#[derive(Debug, Clone, Copy, PartialEq, Eq)]
pub enum SnapshotAction {
    /// Report whether the source database file exists.
    CheckSource,
    /// Run a checkpoint of the source in this mode.
    Checkpoint(CheckpointMode),
    /// Copy the source to the destination with the online backup, in steps of
    /// `pages_per_step` pages with `pause_ms` between them.
    CopyPages { pages_per_step: u32, pause_ms: u64 },
    /// Report the size of the destination file.
    Measure,
    /// Read these windows of the destination file.
    ReadWindows(ChecksumWindows),
}

/// The outcome of a step.
#[derive(Debug)]
pub enum SnapshotEvent {
    SourceChecked { present: bool },
    Checkpointed(CheckpointReport),
    Copied(Result<(), String>),
    Measured(Result<u64, String>),
    /// The two windows of the copy (the second empty when it is not read).
    WindowsRead(Result<(Vec<u8>, Vec<u8>), String>),
}

/// Where a snapshot stands.
#[derive(Debug, Clone, Copy, PartialEq, Eq)]
pub enum SnapshotPhase {
    CheckingSource,
    Checkpointing,
    Copying,
    Measuring,
    Reading { size: u64 },
}

/// A snapshot in progress, to the file at `dest`.
#[derive(Debug, Clone, PartialEq, Eq)]
pub struct SnapshotJob {
    pub dest: String,
    pub phase: SnapshotPhase,
}

/// A snapshot after one step: still going, or over.
#[derive(Debug, PartialEq, Eq)]
pub enum SnapshotNext {
    Continue(SnapshotJob),
    Done(Result<BackupDescriptor, StoreError>),
}

/// The text reported when the windows read back do not have the lengths asked for.
pub open spec fn short_read_text() -> Seq<char> {
    "checksum windows have unexpected lengths"@
}

impl SnapshotJob {
    /// A snapshot of the database file into `dest`.
    pub fn new(dest: String) -> (r: SnapshotJob)
        ensures
            r.dest == dest,
            r.phase == SnapshotPhase::CheckingSource,
    {
        SnapshotJob { dest, phase: SnapshotPhase::CheckingSource }
    }

    /// The step that the snapshot asks for in its current phase.
    pub open spec fn action_spec(&self) -> SnapshotAction {
        match self.phase {
            SnapshotPhase::CheckingSource => SnapshotAction::CheckSource,
            SnapshotPhase::Checkpointing => SnapshotAction::Checkpoint(CheckpointMode::Light),
            SnapshotPhase::Copying => SnapshotAction::CopyPages {
                pages_per_step: PAGES_PER_STEP,
                pause_ms: STEP_PAUSE_MS,
            },
            SnapshotPhase::Measuring => SnapshotAction::Measure,
            SnapshotPhase::Reading { size } => SnapshotAction::ReadWindows(
                ChecksumWindows {
                    head_len: head_len(size as nat) as u64,
                    tail_start: if size > crate::checksum::TAIL_THRESHOLD {
                        Some((size - crate::checksum::WINDOW_BYTES) as u64)
                    } else {
                        None
                    },
                },
            ),
        }
    }

    /// What to do next.
    pub fn action(&self) -> (r: SnapshotAction)
        ensures
            r == self.action_spec(),
    {
        match self.phase {
            SnapshotPhase::CheckingSource => SnapshotAction::CheckSource,
            SnapshotPhase::Checkpointing => SnapshotAction::Checkpoint(CheckpointMode::Light),
            SnapshotPhase::Copying => SnapshotAction::CopyPages {
                pages_per_step: PAGES_PER_STEP,
                pause_ms: STEP_PAUSE_MS,
            },
            SnapshotPhase::Measuring => SnapshotAction::Measure,
            SnapshotPhase::Reading { size } => SnapshotAction::ReadWindows(checksum_windows(size)),
        }
    }

    /// Takes the outcome of the pending step. An event that does not answer
    /// the pending step leaves the snapshot as it was.
    pub fn advance(self, event: SnapshotEvent) -> (r: SnapshotNext)
        ensures
            event matches SnapshotEvent::SourceChecked { present } ==> (self.phase is CheckingSource
                ==> r == if present {
                SnapshotNext::Continue(
                    SnapshotJob { dest: self.dest, phase: SnapshotPhase::Checkpointing },
                )
            } else {
                SnapshotNext::Done(Err(StoreError::SourceMissing))
            }),
            self.phase is Checkpointing && event is Checkpointed ==> r == SnapshotNext::Continue(
                SnapshotJob { dest: self.dest, phase: SnapshotPhase::Copying },
            ),
            event matches SnapshotEvent::Copied(c) ==> (self.phase is Copying ==> r == match c {
                Ok(_) => SnapshotNext::Continue(
                    SnapshotJob { dest: self.dest, phase: SnapshotPhase::Measuring },
                ),
                Err(e) => SnapshotNext::Done(Err(StoreError::BackupFailed(e))),
            }),
            event matches SnapshotEvent::Measured(m) ==> (self.phase is Measuring ==> r == match m {
                Ok(size) => if size < MIN_SNAPSHOT_BYTES {
                    SnapshotNext::Done(Err(StoreError::TooSmall(size)))
                } else {
                    SnapshotNext::Continue(
                        SnapshotJob { dest: self.dest, phase: SnapshotPhase::Reading { size } },
                    )
                },
                Err(e) => SnapshotNext::Done(Err(StoreError::BackupFailed(e))),
            }),
            self.phase matches SnapshotPhase::Reading { size } ==> (event matches SnapshotEvent::WindowsRead(w)
                ==> match w {
                Err(e) => r == SnapshotNext::Done(Err(StoreError::BackupFailed(e))),
                Ok((head, tail)) => if head@.len() == head_len(size as nat) && tail@.len()
                    == tail_len(size as nat) {
                    r matches SnapshotNext::Done(Ok(d)) && d.path == self.dest && d.size_bytes
                        == size && d.checksum@ == sha256_hex(window_input(size as nat, head@, tail@))
                        && d.checksum@.len() == 64 && forall|i: int|
                        0 <= i < 64 ==> is_lower_hex_digit(#[trigger] d.checksum@[i])
                } else {
                    r matches SnapshotNext::Done(Err(StoreError::BackupFailed(m))) && m@
                        == short_read_text()
                },
            }),
            !(self.phase is CheckingSource && event is SourceChecked) && !(self.phase is Checkpointing
                && event is Checkpointed) && !(self.phase is Copying && event is Copied) && !(
            self.phase is Measuring && event is Measured) && !(self.phase is Reading
                && event is WindowsRead) ==> r == SnapshotNext::Continue(self),
    {
        let dest = self.dest;
        match (self.phase, event) {
            (SnapshotPhase::CheckingSource, SnapshotEvent::SourceChecked { present }) => {
                if present {
                    SnapshotNext::Continue(SnapshotJob { dest, phase: SnapshotPhase::Checkpointing })
                } else {
                    SnapshotNext::Done(Err(StoreError::SourceMissing))
                }
            },
            (SnapshotPhase::Checkpointing, SnapshotEvent::Checkpointed(_)) => {
                SnapshotNext::Continue(SnapshotJob { dest, phase: SnapshotPhase::Copying })
            },
            (SnapshotPhase::Copying, SnapshotEvent::Copied(c)) => match c {
                Ok(_) => SnapshotNext::Continue(
                    SnapshotJob { dest, phase: SnapshotPhase::Measuring },
                ),
                Err(e) => SnapshotNext::Done(Err(StoreError::BackupFailed(e))),
            },
            (SnapshotPhase::Measuring, SnapshotEvent::Measured(m)) => match m {
                Ok(size) => if size < MIN_SNAPSHOT_BYTES {
                    SnapshotNext::Done(Err(StoreError::TooSmall(size)))
                } else {
                    SnapshotNext::Continue(
                        SnapshotJob { dest, phase: SnapshotPhase::Reading { size } },
                    )
                },
                Err(e) => SnapshotNext::Done(Err(StoreError::BackupFailed(e))),
            },
            (SnapshotPhase::Reading { size }, SnapshotEvent::WindowsRead(w)) => match w {
                Err(e) => SnapshotNext::Done(Err(StoreError::BackupFailed(e))),
                Ok((head, tail)) => match fast_checksum_from_windows(
                    size,
                    head.as_slice(),
                    tail.as_slice(),
                ) {
                    Some(checksum) => SnapshotNext::Done(
                        Ok(BackupDescriptor { path: dest, size_bytes: size, checksum }),
                    ),
                    None => {
                        let m = String::from_str("checksum windows have unexpected lengths");
                        SnapshotNext::Done(Err(StoreError::BackupFailed(m)))
                    },
                },
            },
            (phase, _) => SnapshotNext::Continue(SnapshotJob { dest, phase }),
        }
    }
}

} // verus!
