//! The atomic replace engine: swaps staged content into the live database
//! file with a backup of the old file, bounded retries, and one rollback path.
//!
//! The engine is a state machine. [`ReplaceTxn::action`] names the next file
//! operation (with the pause to take before it); the caller performs it and
//! hands the outcome to [`ReplaceTxn::advance`], until the action is
//! `Finish`. The file roles are the staged temporary file, the target, the
//! transient backup of the target, and (for a restore at startup) a standalone
//! safety copy of the target.
//!
//! [`ReplaceFiles`] models what the four paths hold; [`step_files`] gives the
//! effect of each operation on them, and the laws at the end of this module
//! are proved over every sequence of outcomes.
use vstd::prelude::*;

use crate::error::StoreError;

verus! {

/// Attempts at removing the target before giving up.
pub const REMOVE_ATTEMPTS: u64 = 3;

/// Pause before removal attempt `k + 1`, per `k`.
pub const REMOVE_BACKOFF_MS: u64 = 500;

/// Attempts at renaming the staged file into place before rolling back.
pub const RENAME_ATTEMPTS: u64 = 5;

/// Pause before rename attempt `k + 1`, per `k`.
pub const RENAME_BACKOFF_MS: u64 = 1000;

/// A file operation that the engine asks its caller to perform.
#[derive(Debug, Clone, Copy, PartialEq, Eq)]
pub enum ReplaceOp {
    /// Copy the target to the safety-copy path.
    CopyTargetToSafety,
    /// Write the new content to the temporary file beside the target.
    WriteTemp,
    /// Copy (not move) the target to the backup path.
    CopyTargetToBackup,
    /// Rename the temporary file over the target in one step.
    RenameTempOntoTarget,
    /// Remove the target.
    RemoveTarget,
    /// Rename the temporary file to the (now absent) target path.
    RenameTempIntoPlace,
    /// Copy the backup back to the target path.
    RestoreTargetFromBackup,
    /// Remove the backup of the target.
    RemoveBackup,
}

/// Where a replace transaction stands.
#[derive(Debug, Clone, PartialEq, Eq)]
pub enum ReplacePhase {
    /// Waiting for the safety copy of the target.
    SafetyCopy,
    /// Waiting for the temporary file to be written.
    Staging,
    /// Waiting for the backup copy of the target.
    BackingUp,
    /// Waiting for the single-step rename over the target.
    Swapping,
    /// Waiting for removal attempt `attempt` of the target.
    Removing { attempt: u64 },
    /// Waiting for rename attempt `attempt` into the target path.
    Renaming { attempt: u64 },
    /// Waiting for the target to be restored from its backup; `cause` is the
    /// failure being reported.
    RollingBack { cause: String },
    /// Waiting for the backup to be removed after the swap.
    Cleaning,
    /// The new content is in place.
    Committed,
    /// Failed before the target was touched.
    Aborted { cause: String },
    /// Failed after removing the target; the target was restored.
    RolledBack { cause: String },
    /// Failed after removing the target, and restoring it failed too.
    RollbackFailed { cause: String },
}

/// What the caller does next.
#[derive(Debug, PartialEq, Eq)]
pub enum ReplaceAction {
    /// Wait `delay_ms` milliseconds, then perform `op` and report its outcome.
    Run { op: ReplaceOp, delay_ms: u64 },
    /// The transaction is over, with this result.
    Finish(Result<(), StoreError>),
}

/// One replace of a target file.
#[derive(Debug, Clone, PartialEq, Eq)]
pub struct ReplaceTxn {
    /// Whether the target existed when the transaction began.
    pub target_existed: bool,
    pub phase: ReplacePhase,
}

/// The operation that a phase waits for, if any.
pub open spec fn pending_op(phase: ReplacePhase) -> Option<ReplaceOp> {
    match phase {
        ReplacePhase::SafetyCopy => Some(ReplaceOp::CopyTargetToSafety),
        ReplacePhase::Staging => Some(ReplaceOp::WriteTemp),
        ReplacePhase::BackingUp => Some(ReplaceOp::CopyTargetToBackup),
        ReplacePhase::Swapping => Some(ReplaceOp::RenameTempOntoTarget),
        ReplacePhase::Removing { .. } => Some(ReplaceOp::RemoveTarget),
        ReplacePhase::Renaming { .. } => Some(ReplaceOp::RenameTempIntoPlace),
        ReplacePhase::RollingBack { .. } => Some(ReplaceOp::RestoreTargetFromBackup),
        ReplacePhase::Cleaning => Some(ReplaceOp::RemoveBackup),
        _ => None,
    }
}

/// Phases in which the target may be absent: after a removal, on the
/// fallback path.
pub open spec fn in_fallback_gap(phase: ReplacePhase) -> bool {
    match phase {
        ReplacePhase::Renaming { .. } => true,
        ReplacePhase::RollingBack { .. } => true,
        ReplacePhase::RollbackFailed { .. } => true,
        _ => false,
    }
}

impl ReplaceTxn {
    /// Attempt counters stay within their bounds.
    pub open spec fn wf(&self) -> bool {
        match self.phase {
            ReplacePhase::SafetyCopy => self.target_existed,
            ReplacePhase::BackingUp => self.target_existed,
            ReplacePhase::Removing { attempt } => self.target_existed && 1 <= attempt
                <= REMOVE_ATTEMPTS,
            ReplacePhase::Renaming { attempt } => 1 <= attempt <= RENAME_ATTEMPTS,
            ReplacePhase::RollingBack { .. } => self.target_existed,
            ReplacePhase::Cleaning => self.target_existed,
            _ => true,
        }
    }

    /// The action that the transaction asks for in its current phase.
    pub open spec fn action_spec(&self) -> ReplaceAction {
        match self.phase {
            ReplacePhase::SafetyCopy => ReplaceAction::Run {
                op: ReplaceOp::CopyTargetToSafety,
                delay_ms: 0,
            },
            ReplacePhase::Staging => ReplaceAction::Run { op: ReplaceOp::WriteTemp, delay_ms: 0 },
            ReplacePhase::BackingUp => ReplaceAction::Run {
                op: ReplaceOp::CopyTargetToBackup,
                delay_ms: 0,
            },
            ReplacePhase::Swapping => ReplaceAction::Run {
                op: ReplaceOp::RenameTempOntoTarget,
                delay_ms: 0,
            },
            ReplacePhase::Removing { attempt } => ReplaceAction::Run {
                op: ReplaceOp::RemoveTarget,
                delay_ms: (REMOVE_BACKOFF_MS * (attempt - 1)) as u64,
            },
            ReplacePhase::Renaming { attempt } => ReplaceAction::Run {
                op: ReplaceOp::RenameTempIntoPlace,
                delay_ms: (RENAME_BACKOFF_MS * (attempt - 1)) as u64,
            },
            ReplacePhase::RollingBack { .. } => ReplaceAction::Run {
                op: ReplaceOp::RestoreTargetFromBackup,
                delay_ms: 0,
            },
            ReplacePhase::Cleaning => ReplaceAction::Run { op: ReplaceOp::RemoveBackup, delay_ms: 0 },
            ReplacePhase::Committed => ReplaceAction::Finish(Ok(())),
            ReplacePhase::Aborted { cause } => ReplaceAction::Finish(
                Err(StoreError::ReplaceFailed(cause)),
            ),
            ReplacePhase::RolledBack { cause } => ReplaceAction::Finish(
                Err(StoreError::ReplaceFailed(cause)),
            ),
            ReplacePhase::RollbackFailed { cause } => ReplaceAction::Finish(
                Err(StoreError::ReplaceFailed(cause)),
            ),
        }
    }

    /// The transaction after the pending operation finished with `outcome`.
    /// A finished transaction stays as it is.
    pub open spec fn advanced(&self, outcome: Result<(), String>) -> ReplaceTxn {
        let existed = self.target_existed;
        let phase = match self.phase {
            ReplacePhase::SafetyCopy => match outcome {
                Ok(_) => ReplacePhase::Staging,
                Err(e) => ReplacePhase::Aborted { cause: e },
            },
            ReplacePhase::Staging => match outcome {
                Ok(_) => if existed {
                    ReplacePhase::BackingUp
                } else {
                    ReplacePhase::Swapping
                },
                Err(e) => ReplacePhase::Aborted { cause: e },
            },
            ReplacePhase::BackingUp => match outcome {
                Ok(_) => ReplacePhase::Swapping,
                Err(e) => ReplacePhase::Aborted { cause: e },
            },
            ReplacePhase::Swapping => match outcome {
                Ok(_) => if existed {
                    ReplacePhase::Cleaning
                } else {
                    ReplacePhase::Committed
                },
                Err(_) => if existed {
                    ReplacePhase::Removing { attempt: 1 }
                } else {
                    ReplacePhase::Renaming { attempt: 1 }
                },
            },
            ReplacePhase::Removing { attempt } => match outcome {
                Ok(_) => ReplacePhase::Renaming { attempt: 1 },
                Err(e) => if attempt < REMOVE_ATTEMPTS {
                    ReplacePhase::Removing { attempt: (attempt + 1) as u64 }
                } else {
                    ReplacePhase::Aborted { cause: e }
                },
            },
            ReplacePhase::Renaming { attempt } => match outcome {
                Ok(_) => if existed {
                    ReplacePhase::Cleaning
                } else {
                    ReplacePhase::Committed
                },
                Err(e) => if attempt < RENAME_ATTEMPTS {
                    ReplacePhase::Renaming { attempt: (attempt + 1) as u64 }
                } else if existed {
                    ReplacePhase::RollingBack { cause: e }
                } else {
                    ReplacePhase::Aborted { cause: e }
                },
            },
            ReplacePhase::RollingBack { cause } => match outcome {
                Ok(_) => ReplacePhase::RolledBack { cause },
                Err(_) => ReplacePhase::RollbackFailed { cause },
            },
            ReplacePhase::Cleaning => ReplacePhase::Committed,
            other => other,
        };
        ReplaceTxn { target_existed: existed, phase }
    }

    /// A replace at runtime: stage, back the target up if it exists, swap.
    pub fn at_runtime(target_exists: bool) -> (r: ReplaceTxn)
        ensures
            r == (ReplaceTxn { target_existed: target_exists, phase: ReplacePhase::Staging }),
            r.wf(),
    {
        ReplaceTxn { target_existed: target_exists, phase: ReplacePhase::Staging }
    }

    /// A replace at startup: as at runtime, after a standalone safety copy of
    /// an existing target.
    pub fn at_startup(target_exists: bool) -> (r: ReplaceTxn)
        ensures
            r == (ReplaceTxn {
                target_existed: target_exists,
                phase: if target_exists {
                    ReplacePhase::SafetyCopy
                } else {
                    ReplacePhase::Staging
                },
            }),
            r.wf(),
    {
        let phase = if target_exists {
            ReplacePhase::SafetyCopy
        } else {
            ReplacePhase::Staging
        };
        ReplaceTxn { target_existed: target_exists, phase }
    }

    /// What to do next.
    pub fn action(&self) -> (r: ReplaceAction)
        requires
            self.wf(),
        ensures
            r == self.action_spec(),
    {
        match &self.phase {
            ReplacePhase::SafetyCopy => ReplaceAction::Run {
                op: ReplaceOp::CopyTargetToSafety,
                delay_ms: 0,
            },
            ReplacePhase::Staging => ReplaceAction::Run { op: ReplaceOp::WriteTemp, delay_ms: 0 },
            ReplacePhase::BackingUp => ReplaceAction::Run {
                op: ReplaceOp::CopyTargetToBackup,
                delay_ms: 0,
            },
            ReplacePhase::Swapping => ReplaceAction::Run {
                op: ReplaceOp::RenameTempOntoTarget,
                delay_ms: 0,
            },
            ReplacePhase::Removing { attempt } => ReplaceAction::Run {
                op: ReplaceOp::RemoveTarget,
                delay_ms: REMOVE_BACKOFF_MS * (*attempt - 1),
            },
            ReplacePhase::Renaming { attempt } => ReplaceAction::Run {
                op: ReplaceOp::RenameTempIntoPlace,
                delay_ms: RENAME_BACKOFF_MS * (*attempt - 1),
            },
            ReplacePhase::RollingBack { .. } => ReplaceAction::Run {
                op: ReplaceOp::RestoreTargetFromBackup,
                delay_ms: 0,
            },
            ReplacePhase::Cleaning => ReplaceAction::Run { op: ReplaceOp::RemoveBackup, delay_ms: 0 },
            ReplacePhase::Committed => ReplaceAction::Finish(Ok(())),
            ReplacePhase::Aborted { cause } => ReplaceAction::Finish(
                Err(StoreError::ReplaceFailed(cause.clone())),
            ),
            ReplacePhase::RolledBack { cause } => ReplaceAction::Finish(
                Err(StoreError::ReplaceFailed(cause.clone())),
            ),
            ReplacePhase::RollbackFailed { cause } => ReplaceAction::Finish(
                Err(StoreError::ReplaceFailed(cause.clone())),
            ),
        }
    }

    /// Takes the outcome of the pending operation and returns what to do next.
    pub fn advance(&mut self, outcome: Result<(), String>) -> (r: ReplaceAction)
        requires
            old(self).wf(),
        ensures
            *final(self) == old(self).advanced(outcome),
            final(self).wf(),
            r == final(self).action_spec(),
    {
        let existed = self.target_existed;
        let phase = match &self.phase {
            ReplacePhase::SafetyCopy => match outcome {
                Ok(_) => ReplacePhase::Staging,
                Err(e) => ReplacePhase::Aborted { cause: e },
            },
            ReplacePhase::Staging => match outcome {
                Ok(_) => if existed {
                    ReplacePhase::BackingUp
                } else {
                    ReplacePhase::Swapping
                },
                Err(e) => ReplacePhase::Aborted { cause: e },
            },
            ReplacePhase::BackingUp => match outcome {
                Ok(_) => ReplacePhase::Swapping,
                Err(e) => ReplacePhase::Aborted { cause: e },
            },
            ReplacePhase::Swapping => match outcome {
                Ok(_) => if existed {
                    ReplacePhase::Cleaning
                } else {
                    ReplacePhase::Committed
                },
                Err(_) => if existed {
                    ReplacePhase::Removing { attempt: 1 }
                } else {
                    ReplacePhase::Renaming { attempt: 1 }
                },
            },
            ReplacePhase::Removing { attempt } => match outcome {
                Ok(_) => ReplacePhase::Renaming { attempt: 1 },
                Err(e) => if *attempt < REMOVE_ATTEMPTS {
                    ReplacePhase::Removing { attempt: *attempt + 1 }
                } else {
                    ReplacePhase::Aborted { cause: e }
                },
            },
            ReplacePhase::Renaming { attempt } => match outcome {
                Ok(_) => if existed {
                    ReplacePhase::Cleaning
                } else {
                    ReplacePhase::Committed
                },
                Err(e) => if *attempt < RENAME_ATTEMPTS {
                    ReplacePhase::Renaming { attempt: *attempt + 1 }
                } else if existed {
                    ReplacePhase::RollingBack { cause: e }
                } else {
                    ReplacePhase::Aborted { cause: e }
                },
            },
            ReplacePhase::RollingBack { cause } => match outcome {
                Ok(_) => ReplacePhase::RolledBack { cause: cause.clone() },
                Err(_) => ReplacePhase::RollbackFailed { cause: cause.clone() },
            },
            ReplacePhase::Cleaning => ReplacePhase::Committed,
            ReplacePhase::Committed => ReplacePhase::Committed,
            ReplacePhase::Aborted { cause } => ReplacePhase::Aborted { cause: cause.clone() },
            ReplacePhase::RolledBack { cause } => ReplacePhase::RolledBack { cause: cause.clone() },
            ReplacePhase::RollbackFailed { cause } => ReplacePhase::RollbackFailed {
                cause: cause.clone(),
            },
        };
        self.phase = phase;
        self.action()
    }

    /// Whether the transaction is over.
    pub fn is_finished(&self) -> (r: bool)
        ensures
            r == (pending_op(self.phase) is None),
    {
        match &self.phase {
            ReplacePhase::Committed => true,
            ReplacePhase::Aborted { .. } => true,
            ReplacePhase::RolledBack { .. } => true,
            ReplacePhase::RollbackFailed { .. } => true,
            _ => false,
        }
    }
}

/// What the four paths of a replace hold; `None` where no file exists.
pub struct ReplaceFiles {
    pub safety: Option<Seq<u8>>,
    pub temp: Option<Seq<u8>>,
    pub target: Option<Seq<u8>>,
    pub backup: Option<Seq<u8>>,
}

/// The outcome of one operation, as the model sees it: the reported result,
/// and what a failed write or copy left at its destination. A failed rename or
/// removal leaves every file as it was.
pub struct Observed {
    pub outcome: Result<(), String>,
    pub left: Option<Seq<u8>>,
}

/// The effect of `op` on the files, writing `staged` as the new content.
pub open spec fn apply_op(
    fs: ReplaceFiles,
    op: ReplaceOp,
    staged: Seq<u8>,
    obs: Observed,
) -> ReplaceFiles {
    let ok = obs.outcome is Ok;
    match op {
        ReplaceOp::CopyTargetToSafety => ReplaceFiles {
            safety: if ok {
                fs.target
            } else {
                obs.left
            },
            ..fs
        },
        ReplaceOp::WriteTemp => ReplaceFiles {
            temp: if ok {
                Some(staged)
            } else {
                obs.left
            },
            ..fs
        },
        ReplaceOp::CopyTargetToBackup => ReplaceFiles {
            backup: if ok {
                fs.target
            } else {
                obs.left
            },
            ..fs
        },
        ReplaceOp::RenameTempOntoTarget => if ok {
            ReplaceFiles { target: fs.temp, temp: None, ..fs }
        } else {
            fs
        },
        ReplaceOp::RemoveTarget => if ok {
            ReplaceFiles { target: None, ..fs }
        } else {
            fs
        },
        ReplaceOp::RenameTempIntoPlace => if ok {
            ReplaceFiles { target: fs.temp, temp: None, ..fs }
        } else {
            fs
        },
        ReplaceOp::RestoreTargetFromBackup => ReplaceFiles {
            target: if ok {
                fs.backup
            } else {
                obs.left
            },
            ..fs
        },
        ReplaceOp::RemoveBackup => if ok {
            ReplaceFiles { backup: None, ..fs }
        } else {
            fs
        },
    }
}

/// The files after the pending operation of `t` finished as `obs` says.
pub open spec fn step_files(
    t: ReplaceTxn,
    fs: ReplaceFiles,
    staged: Seq<u8>,
    obs: Observed,
) -> ReplaceFiles {
    match pending_op(t.phase) {
        Some(op) => apply_op(fs, op, staged, obs),
        None => fs,
    }
}

/// Transaction and files after the operations whose outcomes are `trace`.
pub open spec fn run(
    t: ReplaceTxn,
    fs: ReplaceFiles,
    staged: Seq<u8>,
    trace: Seq<Observed>,
) -> (ReplaceTxn, ReplaceFiles)
    decreases trace.len(),
{
    if trace.len() == 0 {
        (t, fs)
    } else {
        let (t1, fs1) = run(t, fs, staged, trace.drop_last());
        (t1.advanced(trace.last().outcome), step_files(t1, fs1, staged, trace.last()))
    }
}

/// What holds in each phase of a transaction that began with `orig` at the
/// target and `backup0` at the backup path, writing `staged`.
pub open spec fn replace_inv(
    t: ReplaceTxn,
    fs: ReplaceFiles,
    orig: Option<Seq<u8>>,
    backup0: Option<Seq<u8>>,
    staged: Seq<u8>,
) -> bool {
    &&& t.wf()
    &&& t.target_existed == (orig is Some)
    &&& !t.target_existed ==> fs.backup == backup0
    &&& match t.phase {
        ReplacePhase::SafetyCopy => fs.target == orig,
        ReplacePhase::Staging => fs.target == orig,
        ReplacePhase::BackingUp => fs.target == orig && fs.temp == Some(staged),
        ReplacePhase::Swapping => fs.target == orig && fs.temp == Some(staged) && (
        t.target_existed ==> fs.backup == orig),
        ReplacePhase::Removing { .. } => fs.target == orig && fs.temp == Some(staged)
            && fs.backup == orig,
        ReplacePhase::Renaming { .. } => fs.target is None && fs.temp == Some(staged) && (
        t.target_existed ==> fs.backup == orig),
        ReplacePhase::RollingBack { .. } => fs.target is None && fs.backup == orig,
        ReplacePhase::Cleaning => fs.target == Some(staged) && fs.temp is None,
        ReplacePhase::Committed => fs.target == Some(staged) && fs.temp is None,
        ReplacePhase::Aborted { .. } => fs.target == orig,
        ReplacePhase::RolledBack { .. } => fs.target == orig,
        ReplacePhase::RollbackFailed { .. } => true,
    }
}

proof fn lemma_step_inv(
    t: ReplaceTxn,
    fs: ReplaceFiles,
    orig: Option<Seq<u8>>,
    backup0: Option<Seq<u8>>,
    staged: Seq<u8>,
    obs: Observed,
)
    requires
        replace_inv(t, fs, orig, backup0, staged),
    ensures
        replace_inv(t.advanced(obs.outcome), step_files(t, fs, staged, obs), orig, backup0, staged),
{
}

/// The invariant, once it holds, holds after any outcomes.
proof fn lemma_run_inv(
    t: ReplaceTxn,
    fs: ReplaceFiles,
    staged: Seq<u8>,
    trace: Seq<Observed>,
    orig: Option<Seq<u8>>,
    backup0: Option<Seq<u8>>,
)
    requires
        replace_inv(t, fs, orig, backup0, staged),
    ensures
        replace_inv(run(t, fs, staged, trace).0, run(t, fs, staged, trace).1, orig, backup0, staged),
    decreases trace.len(),
{
    if trace.len() > 0 {
        lemma_run_inv(t, fs, staged, trace.drop_last(), orig, backup0);
        let (t1, fs1) = run(t, fs, staged, trace.drop_last());
        lemma_step_inv(t1, fs1, orig, backup0, staged, trace.last());
    }
}

/// Transactions as the constructors make them, on files whose target is
/// present exactly when the caller said so.
pub open spec fn fresh_txn(t: ReplaceTxn, fs: ReplaceFiles) -> bool {
    &&& (t == ReplaceTxn::at_runtime_spec(fs.target is Some) || t == ReplaceTxn::at_startup_spec(
        fs.target is Some,
    ))
}

impl ReplaceTxn {
    /// The transaction that [`ReplaceTxn::at_runtime`] returns.
    pub open spec fn at_runtime_spec(target_exists: bool) -> ReplaceTxn {
        ReplaceTxn { target_existed: target_exists, phase: ReplacePhase::Staging }
    }

    /// The transaction that [`ReplaceTxn::at_startup`] returns.
    pub open spec fn at_startup_spec(target_exists: bool) -> ReplaceTxn {
        ReplaceTxn {
            target_existed: target_exists,
            phase: if target_exists {
                ReplacePhase::SafetyCopy
            } else {
                ReplacePhase::Staging
            },
        }
    }
}

/// At every point of a replace, the target holds its old content or the new
/// one; it is absent only in the fallback gap, between removing the old file
/// and renaming the new one into place (or restoring the old one).
pub proof fn lemma_target_never_lost(
    t: ReplaceTxn,
    fs: ReplaceFiles,
    staged: Seq<u8>,
    trace: Seq<Observed>,
)
    requires
        fresh_txn(t, fs),
    ensures
        forall|k: int|
            #![trigger run(t, fs, staged, trace.take(k))]
            0 <= k <= trace.len() ==> {
                let (tk, fk) = run(t, fs, staged, trace.take(k));
                fk.target == fs.target || fk.target == Some(staged) || (fk.target is None
                    && in_fallback_gap(tk.phase)) || tk.phase is RollbackFailed
            },
{
    assert forall|k: int|
        #![trigger run(t, fs, staged, trace.take(k))]
        0 <= k <= trace.len() implies {
            let (tk, fk) = run(t, fs, staged, trace.take(k));
            fk.target == fs.target || fk.target == Some(staged) || (fk.target is None
                && in_fallback_gap(tk.phase)) || tk.phase is RollbackFailed
        } by {
        lemma_run_inv(t, fs, staged, trace.take(k), fs.target, fs.backup);
    }
}

proof fn lemma_finished_persists(
    t: ReplaceTxn,
    fs: ReplaceFiles,
    staged: Seq<u8>,
    trace: Seq<Observed>,
    k: int,
)
    requires
        0 <= k <= trace.len(),
        pending_op(run(t, fs, staged, trace.take(k)).0.phase) is None,
    ensures
        run(t, fs, staged, trace).0 == run(t, fs, staged, trace.take(k)).0,
    decreases trace.len() - k,
{
    if k == trace.len() {
        assert(trace.take(k) =~= trace);
    } else {
        let d = trace.drop_last();
        assert(d.take(k) =~= trace.take(k));
        lemma_finished_persists(t, fs, staged, d, k);
    }
}

/// Along a replace that ends committed, the target holds its old content or
/// the new one at every point, and is absent only between removing the old
/// file and renaming the new one into place.
pub proof fn lemma_committed_replace_never_loses_target(
    t: ReplaceTxn,
    fs: ReplaceFiles,
    staged: Seq<u8>,
    trace: Seq<Observed>,
)
    requires
        fresh_txn(t, fs),
        run(t, fs, staged, trace).0.phase is Committed,
    ensures
        forall|k: int|
            #![trigger run(t, fs, staged, trace.take(k))]
            0 <= k <= trace.len() ==> {
                let (tk, fk) = run(t, fs, staged, trace.take(k));
                fk.target == fs.target || fk.target == Some(staged) || (fk.target is None
                    && tk.phase is Renaming)
            },
{
    assert forall|k: int|
        #![trigger run(t, fs, staged, trace.take(k))]
        0 <= k <= trace.len() implies {
            let (tk, fk) = run(t, fs, staged, trace.take(k));
            fk.target == fs.target || fk.target == Some(staged) || (fk.target is None
                && tk.phase is Renaming)
        } by {
        lemma_run_inv(t, fs, staged, trace.take(k), fs.target, fs.backup);
        let tk = run(t, fs, staged, trace.take(k)).0;
        if tk.phase is RollbackFailed {
            lemma_finished_persists(t, fs, staged, trace, k);
        }
        if tk.phase is RollingBack {
            assert(k < trace.len()) by {
                if k == trace.len() {
                    assert(trace.take(k) =~= trace);
                }
            }
            let d = trace.take(k + 1);
            assert(d.drop_last() =~= trace.take(k));
            assert(d.last() == trace[k]);
            lemma_finished_persists(t, fs, staged, trace, k + 1);
        }
    }
}

/// A target that existed enters the fallback gap only through a successful
/// removal of it: while the single-step rename is used, it is never absent.
pub proof fn lemma_gap_only_after_removal(t: ReplaceTxn, outcome: Result<(), String>)
    requires
        t.wf(),
        t.target_existed,
        !in_fallback_gap(t.phase),
        in_fallback_gap(t.advanced(outcome).phase),
    ensures
        t.phase is Removing,
        outcome is Ok,
{
}

/// A replace whose outcomes end in success leaves exactly the new content at
/// the target and no temporary file; where the target did not exist, the
/// backup path is left as it was (no backup artifact is made).
pub proof fn lemma_commit_installs_content(
    t: ReplaceTxn,
    fs: ReplaceFiles,
    staged: Seq<u8>,
    trace: Seq<Observed>,
)
    requires
        fresh_txn(t, fs),
        run(t, fs, staged, trace).0.phase is Committed,
    ensures
        run(t, fs, staged, trace).1.target == Some(staged),
        run(t, fs, staged, trace).1.temp is None,
        fs.target is None ==> run(t, fs, staged, trace).1.backup == fs.backup,
{
    lemma_run_inv(t, fs, staged, trace, fs.target, fs.backup);
}

/// Outcomes that all report success.
pub open spec fn all_succeed(trace: Seq<Observed>) -> bool {
    forall|i: int| 0 <= i < trace.len() ==> (#[trigger] trace[i]).outcome is Ok
}

/// On a target that does not exist yet, a replace whose operations succeed
/// commits after two of them (staging and the rename), and stays committed.
pub proof fn lemma_fresh_target_commits(
    fs: ReplaceFiles,
    staged: Seq<u8>,
    trace: Seq<Observed>,
)
    requires
        fs.target is None,
        trace.len() >= 2,
        all_succeed(trace),
    ensures
        run(ReplaceTxn::at_runtime_spec(false), fs, staged, trace).0.phase is Committed,
        run(ReplaceTxn::at_startup_spec(false), fs, staged, trace).0.phase is Committed,
    decreases trace.len(),
{
    let t = ReplaceTxn::at_runtime_spec(false);
    assert(ReplaceTxn::at_startup_spec(false) == t);
    let d1 = trace.drop_last();
    assert(trace.last() == trace[trace.len() - 1]);
    assert(trace.last().outcome is Ok);
    if trace.len() == 2 {
        let d0 = d1.drop_last();
        assert(d0.len() == 0);
        assert(run(t, fs, staged, d0) == (t, fs));
        assert(d1.last() == trace[0]);
        assert(trace[0].outcome is Ok);
        assert(run(t, fs, staged, d1).0.phase is Swapping);
    } else {
        assert(all_succeed(d1)) by {
            assert forall|i: int| 0 <= i < d1.len() implies (#[trigger] d1[i]).outcome is Ok by {
                assert(d1[i] == trace[i]);
            }
        }
        lemma_fresh_target_commits(fs, staged, d1);
    }
}

/// A replace that fails with the target restored, or before the target was
/// touched, leaves the target byte-for-byte as it was.
pub proof fn lemma_failure_restores_target(
    t: ReplaceTxn,
    fs: ReplaceFiles,
    staged: Seq<u8>,
    trace: Seq<Observed>,
)
    requires
        fresh_txn(t, fs),
        run(t, fs, staged, trace).0.phase is Aborted || run(t, fs, staged, trace).0.phase is RolledBack,
    ensures
        run(t, fs, staged, trace).1.target == fs.target,
{
    lemma_run_inv(t, fs, staged, trace, fs.target, fs.backup);
}

/// The one failure that may leave the target unrestored is reached only when
/// restoring it from the backup failed.
pub proof fn lemma_unrestored_only_if_restore_failed(t: ReplaceTxn, outcome: Result<(), String>)
    requires
        !(t.phase is RollbackFailed),
        t.advanced(outcome).phase is RollbackFailed,
    ensures
        t.phase is RollingBack,
        outcome is Err,
{
}

/// Every failure reports the cause that made the replace fail: a failed
/// rollback does not mask it.
pub proof fn lemma_rollback_keeps_cause(t: ReplaceTxn, outcome: Result<(), String>)
    requires
        t.phase is RollingBack,
    ensures
        t.advanced(outcome).action_spec() == ReplaceAction::Finish(
            Err(StoreError::ReplaceFailed(t.phase->RollingBack_cause)),
        ),
{
}

} // verus!
