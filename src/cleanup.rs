//! Forced deletion of a file that the system may still hold locked.
//!
//! Strategies are tried in turn, each only when the one before failed: a
//! direct delete; the platform's own forced delete; renaming the file to a
//! scratch name and deleting that. Whatever a strategy reports, the path is
//! checked afterwards, and a file still present there is a failure.
use vstd::prelude::*;

use crate::error::StoreError;

verus! {

/// An operation that the cleanup asks its caller to perform.
#[derive(Debug, Clone, Copy, PartialEq, Eq)]
pub enum DeleteOp {
    /// Delete the file at its path.
    RemoveFile,
    /// Delete it with the platform's forced delete, past read-only or hidden attributes.
    ForceRemove,
    /// Rename the file to its scratch name.
    RenameToScratch,
    /// Delete the file at the scratch name.
    RemoveScratch,
    /// Report whether a file is present at the path.
    CheckPresent,
}

/// Where a forced delete stands. `first_error` is the failure of the direct
/// delete, reported if every strategy fails.
#[derive(Debug, Clone, PartialEq, Eq)]
pub enum DeletePhase {
    Direct,
    Forced { first_error: String },
    Renaming { first_error: String },
    RemovingScratch { first_error: String },
    Verifying,
    /// The path was checked and found free.
    Deleted,
    /// A strategy claimed success, but the path still held a file.
    StillPresent,
    Failed { detail: String },
}

/// What the caller does next.
#[derive(Debug, PartialEq, Eq)]
pub enum DeleteAction {
    Run(DeleteOp),
    Finish(Result<(), StoreError>),
}

/// One forced delete of one path.
#[derive(Debug, Clone, PartialEq, Eq)]
pub struct ForceDelete {
    pub phase: DeletePhase,
}

/// The operation that a phase waits for, if any.
pub open spec fn pending_delete_op(phase: DeletePhase) -> Option<DeleteOp> {
    match phase {
        DeletePhase::Direct => Some(DeleteOp::RemoveFile),
        DeletePhase::Forced { .. } => Some(DeleteOp::ForceRemove),
        DeletePhase::Renaming { .. } => Some(DeleteOp::RenameToScratch),
        DeletePhase::RemovingScratch { .. } => Some(DeleteOp::RemoveScratch),
        DeletePhase::Verifying => Some(DeleteOp::CheckPresent),
        _ => None,
    }
}

/// The text reported when the file is found after a strategy claimed success.
pub open spec fn still_present_text() -> Seq<char> {
    "file still present after deletion"@
}

impl ForceDelete {
    /// Whether `r` is the action that the delete asks for in its current phase.
    pub open spec fn gives(&self, r: DeleteAction) -> bool {
        match self.phase {
            DeletePhase::Deleted => r == DeleteAction::Finish(Ok(())),
            DeletePhase::StillPresent => r matches DeleteAction::Finish(
                Err(StoreError::DeleteFailed(detail)),
            ) && detail@ == still_present_text(),
            DeletePhase::Failed { detail } => r == DeleteAction::Finish(
                Err(StoreError::DeleteFailed(detail)),
            ),
            _ => r == DeleteAction::Run(pending_delete_op(self.phase).unwrap()),
        }
    }

    /// The delete after the pending operation reported `report`: for a
    /// delete or rename, `Ok(_)` is success; for `CheckPresent`, `Ok(p)` says
    /// whether the file is present. A finished delete stays as it is.
    pub open spec fn advanced(&self, report: Result<bool, String>) -> ForceDelete {
        let phase = match self.phase {
            DeletePhase::Direct => match report {
                Ok(_) => DeletePhase::Verifying,
                Err(e) => DeletePhase::Forced { first_error: e },
            },
            DeletePhase::Forced { first_error } => match report {
                Ok(_) => DeletePhase::Verifying,
                Err(_) => DeletePhase::Renaming { first_error },
            },
            DeletePhase::Renaming { first_error } => match report {
                Ok(_) => DeletePhase::RemovingScratch { first_error },
                Err(_) => DeletePhase::Failed { detail: first_error },
            },
            DeletePhase::RemovingScratch { first_error } => match report {
                Ok(_) => DeletePhase::Verifying,
                Err(_) => DeletePhase::Failed { detail: first_error },
            },
            DeletePhase::Verifying => match report {
                Ok(present) => if present {
                    DeletePhase::StillPresent
                } else {
                    DeletePhase::Deleted
                },
                Err(e) => DeletePhase::Failed { detail: e },
            },
            other => other,
        };
        ForceDelete { phase }
    }

    /// A forced delete of a path where a file is present or not.
    pub fn begin(present: bool) -> (r: ForceDelete)
        ensures
            r == ForceDelete::begin_spec(present),
    {
        if present {
            ForceDelete { phase: DeletePhase::Direct }
        } else {
            ForceDelete { phase: DeletePhase::Deleted }
        }
    }

    /// The delete that [`ForceDelete::begin`] returns: with no file present,
    /// there is nothing to do.
    pub open spec fn begin_spec(present: bool) -> ForceDelete {
        ForceDelete {
            phase: if present {
                DeletePhase::Direct
            } else {
                DeletePhase::Deleted
            },
        }
    }

    /// What to do next.
    pub fn action(&self) -> (r: DeleteAction)
        ensures
            self.gives(r),
    {
        match &self.phase {
            DeletePhase::Direct => DeleteAction::Run(DeleteOp::RemoveFile),
            DeletePhase::Forced { .. } => DeleteAction::Run(DeleteOp::ForceRemove),
            DeletePhase::Renaming { .. } => DeleteAction::Run(DeleteOp::RenameToScratch),
            DeletePhase::RemovingScratch { .. } => DeleteAction::Run(DeleteOp::RemoveScratch),
            DeletePhase::Verifying => DeleteAction::Run(DeleteOp::CheckPresent),
            DeletePhase::Deleted => DeleteAction::Finish(Ok(())),
            DeletePhase::StillPresent => {
                let detail = String::from_str("file still present after deletion");
                proof {
                    reveal_strlit("file still present after deletion");
                }
                DeleteAction::Finish(Err(StoreError::DeleteFailed(detail)))
            },
            DeletePhase::Failed { detail } => DeleteAction::Finish(
                Err(StoreError::DeleteFailed(detail.clone())),
            ),
        }
    }

    /// Takes the report of the pending operation and returns what to do next.
    pub fn advance(&mut self, report: Result<bool, String>) -> (r: DeleteAction)
        ensures
            *final(self) == old(self).advanced(report),
            final(self).gives(r),
    {
        let phase = match &self.phase {
            DeletePhase::Direct => match report {
                Ok(_) => DeletePhase::Verifying,
                Err(e) => DeletePhase::Forced { first_error: e },
            },
            DeletePhase::Forced { first_error } => match report {
                Ok(_) => DeletePhase::Verifying,
                Err(_) => DeletePhase::Renaming { first_error: first_error.clone() },
            },
            DeletePhase::Renaming { first_error } => match report {
                Ok(_) => DeletePhase::RemovingScratch { first_error: first_error.clone() },
                Err(_) => DeletePhase::Failed { detail: first_error.clone() },
            },
            DeletePhase::RemovingScratch { first_error } => match report {
                Ok(_) => DeletePhase::Verifying,
                Err(_) => DeletePhase::Failed { detail: first_error.clone() },
            },
            DeletePhase::Verifying => match report {
                Ok(present) => if present {
                    DeletePhase::StillPresent
                } else {
                    DeletePhase::Deleted
                },
                Err(e) => DeletePhase::Failed { detail: e },
            },
            DeletePhase::Deleted => DeletePhase::Deleted,
            DeletePhase::StillPresent => DeletePhase::StillPresent,
            DeletePhase::Failed { detail } => DeletePhase::Failed { detail: detail.clone() },
        };
        self.phase = phase;
        self.action()
    }

    /// Whether the delete is over.
    pub fn is_finished(&self) -> (r: bool)
        ensures
            r == (pending_delete_op(self.phase) is None),
    {
        match &self.phase {
            DeletePhase::Deleted => true,
            DeletePhase::StillPresent => true,
            DeletePhase::Failed { .. } => true,
            _ => false,
        }
    }
}

/// Whether a file is present at the path and at its scratch name.
pub struct DeleteFiles {
    pub at_path: bool,
    pub at_scratch: bool,
}

/// The effect of the pending operation of `d`, which reported `report`. A
/// failed delete or rename leaves the files as they were.
pub open spec fn step_delete_files(d: ForceDelete, fs: DeleteFiles, report: Result<bool, String>) -> DeleteFiles {
    match pending_delete_op(d.phase) {
        Some(DeleteOp::RemoveFile) => if report is Ok {
            DeleteFiles { at_path: false, ..fs }
        } else {
            fs
        },
        Some(DeleteOp::ForceRemove) => if report is Ok {
            DeleteFiles { at_path: false, ..fs }
        } else {
            fs
        },
        Some(DeleteOp::RenameToScratch) => if report is Ok {
            DeleteFiles { at_path: false, at_scratch: fs.at_path }
        } else {
            fs
        },
        Some(DeleteOp::RemoveScratch) => if report is Ok {
            DeleteFiles { at_scratch: false, ..fs }
        } else {
            fs
        },
        _ => fs,
    }
}

/// A check of the path reports what is there.
pub open spec fn truthful(d: ForceDelete, fs: DeleteFiles, report: Result<bool, String>) -> bool {
    pending_delete_op(d.phase) == Some(DeleteOp::CheckPresent) ==> (report matches Ok(p)
        ==> p == fs.at_path)
}

/// Delete and files after the operations whose reports are `trace`.
pub open spec fn run_delete(d: ForceDelete, fs: DeleteFiles, trace: Seq<Result<bool, String>>) -> (
    ForceDelete,
    DeleteFiles,
)
    decreases trace.len(),
{
    if trace.len() == 0 {
        (d, fs)
    } else {
        let (d1, fs1) = run_delete(d, fs, trace.drop_last());
        (d1.advanced(trace.last()), step_delete_files(d1, fs1, trace.last()))
    }
}

/// Every check in `trace` reports what is there.
pub open spec fn all_truthful(d: ForceDelete, fs: DeleteFiles, trace: Seq<Result<bool, String>>) -> bool
    decreases trace.len(),
{
    if trace.len() == 0 {
        true
    } else {
        let (d1, fs1) = run_delete(d, fs, trace.drop_last());
        all_truthful(d, fs, trace.drop_last()) && truthful(d1, fs1, trace.last())
    }
}

proof fn lemma_run_delete_inv(d: ForceDelete, fs: DeleteFiles, trace: Seq<Result<bool, String>>)
    requires
        d == ForceDelete::begin_spec(fs.at_path),
        all_truthful(d, fs, trace),
    ensures
        run_delete(d, fs, trace).0.phase is Deleted ==> !run_delete(d, fs, trace).1.at_path,
    decreases trace.len(),
{
    if trace.len() > 0 {
        lemma_run_delete_inv(d, fs, trace.drop_last());
    }
}

/// A forced delete reports success only where the path holds no file: it
/// checked the path after the strategy that succeeded (or found nothing to
/// delete at the start), given that each check reports what is there.
pub proof fn lemma_success_means_absent(fs: DeleteFiles, trace: Seq<Result<bool, String>>)
    requires
        all_truthful(ForceDelete::begin_spec(fs.at_path), fs, trace),
        run_delete(ForceDelete::begin_spec(fs.at_path), fs, trace).0.phase is Deleted,
    ensures
        !run_delete(ForceDelete::begin_spec(fs.at_path), fs, trace).1.at_path,
{
    lemma_run_delete_inv(ForceDelete::begin_spec(fs.at_path), fs, trace);
}

/// Success is entered only from a check of the path that found it free.
pub proof fn lemma_success_only_after_check(d: ForceDelete, report: Result<bool, String>)
    requires
        !(d.phase is Deleted),
        d.advanced(report).phase is Deleted,
    ensures
        d.phase is Verifying,
        report == Ok::<bool, String>(false),
{
}

/// When the direct delete, the forced delete and the rename all fail, the
/// delete fails with the direct delete's error, and the file is still there.
pub proof fn lemma_all_strategies_fail(fs: DeleteFiles, trace: Seq<Result<bool, String>>)
    requires
        fs.at_path,
        trace.len() >= 3,
        trace[0] is Err,
        trace[1] is Err,
        trace[2] is Err,
    ensures
        run_delete(ForceDelete::begin_spec(true), fs, trace).0.phase == (DeletePhase::Failed {
            detail: trace[0]->Err_0,
        }),
        run_delete(ForceDelete::begin_spec(true), fs, trace).1.at_path,
    decreases trace.len(),
{
    let d = ForceDelete::begin_spec(true);
    let t2 = trace.drop_last();
    if trace.len() == 3 {
        let t1 = t2.drop_last();
        let t0 = t1.drop_last();
        assert(t0.len() == 0);
        assert(run_delete(d, fs, t0) == (d, fs));
        assert(t1.last() == trace[0]);
        assert(t2.last() == trace[1]);
        assert(trace.last() == trace[2]);
        assert(run_delete(d, fs, t1).0.phase == (DeletePhase::Forced {
            first_error: trace[0]->Err_0,
        }));
        assert(run_delete(d, fs, t2).0.phase == (DeletePhase::Renaming {
            first_error: trace[0]->Err_0,
        }));
    } else {
        assert(t2[0] == trace[0] && t2[1] == trace[1] && t2[2] == trace[2]);
        lemma_all_strategies_fail(fs, t2);
    }
}

} // verus!
