//! The checkpoint coordinator: which statements flush the write-ahead log of
//! a database into its main file, in what order, and how their outcomes are
//! reported. A checkpoint never fails its caller; problems become warnings.
use vstd::prelude::*;

verus! {

/// How thoroughly to flush.
#[derive(Debug, Clone, Copy, PartialEq, Eq)]
pub enum CheckpointMode {
    /// Before a snapshot: commit, then a `RESTART` checkpoint.
    Light,
    /// Before a destructive replace: as `Light`, then `TRUNCATE` and a final `FULL`.
    Heavy,
}

/// One statement of a checkpoint run.
#[derive(Debug, Clone, Copy, PartialEq, Eq)]
pub enum CheckpointStep {
    /// An empty immediate transaction, to settle any straggling writer state.
    CommitPending,
    /// Flush the log and keep it open for further writes.
    Restart,
    /// Flush the log and truncate it to zero length.
    Truncate,
    /// A second, full flush.
    Full,
}

/// A step, with the pause to take before it.
#[derive(Debug, Clone, Copy, PartialEq, Eq)]
pub struct PlannedStep {
    pub step: CheckpointStep,
    pub pause_ms: u64,
}

/// Pause between the steps of a heavy checkpoint, to let the system release
/// transient locks.
pub const STEP_PAUSE_MS: u64 = 50;

/// Busy timeout of the connection used for a light checkpoint.
pub const LIGHT_BUSY_TIMEOUT_MS: u64 = 10000;

/// Busy timeout of the connection used for a heavy checkpoint.
pub const HEAVY_BUSY_TIMEOUT_MS: u64 = 60000;

/// The steps of a checkpoint in `mode`, in order.
pub open spec fn plan_spec(mode: CheckpointMode) -> Seq<PlannedStep> {
    match mode {
        CheckpointMode::Light => seq![
            PlannedStep { step: CheckpointStep::CommitPending, pause_ms: 0 },
            PlannedStep { step: CheckpointStep::Restart, pause_ms: 0 },
        ],
        CheckpointMode::Heavy => seq![
            PlannedStep { step: CheckpointStep::CommitPending, pause_ms: 0 },
            PlannedStep { step: CheckpointStep::Restart, pause_ms: STEP_PAUSE_MS },
            PlannedStep { step: CheckpointStep::Truncate, pause_ms: STEP_PAUSE_MS },
            PlannedStep { step: CheckpointStep::Full, pause_ms: STEP_PAUSE_MS },
        ],
    }
}

/// The steps of a checkpoint in `mode`, in order.
pub fn checkpoint_plan(mode: CheckpointMode) -> (r: Vec<PlannedStep>)
    ensures
        r@ == plan_spec(mode),
{
    let mut r: Vec<PlannedStep> = Vec::new();
    r.push(PlannedStep { step: CheckpointStep::CommitPending, pause_ms: 0 });
    match mode {
        CheckpointMode::Light => {
            r.push(PlannedStep { step: CheckpointStep::Restart, pause_ms: 0 });
        },
        CheckpointMode::Heavy => {
            r.push(PlannedStep { step: CheckpointStep::Restart, pause_ms: STEP_PAUSE_MS });
            r.push(PlannedStep { step: CheckpointStep::Truncate, pause_ms: STEP_PAUSE_MS });
            r.push(PlannedStep { step: CheckpointStep::Full, pause_ms: STEP_PAUSE_MS });
        },
    }
    assert(r@ =~= plan_spec(mode));
    r
}

/// The busy timeout of the connection that runs a checkpoint in `mode`.
pub fn busy_timeout_ms(mode: CheckpointMode) -> (r: u64)
    ensures
        r == match mode {
            CheckpointMode::Light => LIGHT_BUSY_TIMEOUT_MS,
            CheckpointMode::Heavy => HEAVY_BUSY_TIMEOUT_MS,
        },
{
    match mode {
        CheckpointMode::Light => LIGHT_BUSY_TIMEOUT_MS,
        CheckpointMode::Heavy => HEAVY_BUSY_TIMEOUT_MS,
    }
}

/// The SQL text of a step.
pub open spec fn step_sql_spec(step: CheckpointStep) -> Seq<char> {
    match step {
        CheckpointStep::CommitPending => "BEGIN IMMEDIATE; COMMIT;"@,
        CheckpointStep::Restart => "PRAGMA wal_checkpoint(RESTART);"@,
        CheckpointStep::Truncate => "PRAGMA wal_checkpoint(TRUNCATE);"@,
        CheckpointStep::Full => "PRAGMA wal_checkpoint(FULL);"@,
    }
}

impl CheckpointStep {
    /// The SQL text that performs the step.
    pub fn sql(&self) -> (r: &'static str)
        ensures
            r@ == step_sql_spec(*self),
    {
        match self {
            CheckpointStep::CommitPending => "BEGIN IMMEDIATE; COMMIT;",
            CheckpointStep::Restart => "PRAGMA wal_checkpoint(RESTART);",
            CheckpointStep::Truncate => "PRAGMA wal_checkpoint(TRUNCATE);",
            CheckpointStep::Full => "PRAGMA wal_checkpoint(FULL);",
        }
    }
}

/// How a checkpoint went. A warning degrades what a later snapshot can
/// promise, but never stops the caller.
#[derive(Debug, Clone, PartialEq, Eq)]
pub enum CheckpointReport {
    /// Every step succeeded.
    Clean,
    /// The failures met, in order.
    Warning(Vec<String>),
}

/// The error texts of the failed steps among `results`, in order.
pub open spec fn failures(results: Seq<Result<(), String>>) -> Seq<Seq<char>>
    decreases results.len(),
{
    if results.len() == 0 {
        Seq::empty()
    } else {
        failures(results.drop_last()) + match results.last() {
            Ok(_) => Seq::empty(),
            Err(e) => seq![e@],
        }
    }
}

/// The report of a checkpoint whose connection opened as `opened` and whose
/// steps ended as `results`. When the connection did not open, no step ran
/// and its error is the one warning.
pub fn checkpoint_report(opened: Result<(), String>, results: &Vec<Result<(), String>>) -> (r:
    CheckpointReport)
    ensures
        opened matches Err(e) ==> (r matches CheckpointReport::Warning(w) && w@.map_values(
            |s: String| s@,
        ) == seq![e@]),
        opened is Ok && failures(results@).len() == 0 ==> r == CheckpointReport::Clean,
        opened is Ok && failures(results@).len() > 0 ==> (r matches CheckpointReport::Warning(w)
            && w@.map_values(|s: String| s@) == failures(results@)),
{
    match opened {
        Err(e) => {
            let w = vec![e];
            assert(w@.map_values(|s: String| s@) =~= seq![w@[0]@]);
            CheckpointReport::Warning(w)
        },
        Ok(_) => {
            let mut w: Vec<String> = Vec::new();
            let mut i: usize = 0;
            while i < results.len()
                invariant
                    i <= results@.len(),
                    w@.map_values(|s: String| s@) == failures(results@.take(i as int)),
                decreases results@.len() - i,
            {
                assert(results@.take(i + 1).drop_last() =~= results@.take(i as int));
                match &results[i] {
                    Ok(_) => {},
                    Err(e) => {
                        w.push(e.clone());
                    },
                }
                i = i + 1;
                assert(w@.map_values(|s: String| s@) =~= failures(results@.take(i as int)));
            }
            assert(results@.take(results@.len() as int) =~= results@);
            if w.len() == 0 {
                CheckpointReport::Clean
            } else {
                CheckpointReport::Warning(w)
            }
        },
    }
}

} // verus!
