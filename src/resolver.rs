//! The directory resolver: finds a writable application-data directory
//! through a fixed chain of fallbacks.
//!
//! The roots come from an explicit [`StorageConfig`] rather than from the
//! process environment. Each candidate directory is probed in priority order:
//! the directory is created if absent, a marker file is written into it and
//! removed again. The first candidate whose write and removal both succeed is
//! chosen. The caller performs the probes that [`DirResolver`] asks for.
use vstd::prelude::*;

use crate::error::StoreError;

verus! {

/// Which root a candidate directory derives from, in priority order.
#[derive(Debug, Clone, Copy, PartialEq, Eq)]
pub enum RootSource {
    PrimaryAppData,
    SecondaryAppData,
    UserDocuments,
    TempFallback,
    CurrentDirFallback,
}

/// The roots a resolution may use; `None` where the platform provides none.
#[derive(Debug, Clone)]
pub struct StorageConfig {
    /// The application-identifier segment joined to each root.
    pub app_name: String,
    pub primary_root: Option<String>,
    pub secondary_root: Option<String>,
    /// The user's profile directory; its `Documents` folder is used.
    pub profile_root: Option<String>,
    pub temp_root: Option<String>,
    /// The working directory; its `data` folder is used.
    pub current_dir: Option<String>,
}

/// A directory to probe: `root` followed by the path `segments`.
#[derive(Debug, Clone)]
pub struct DirectoryCandidate {
    pub source: RootSource,
    pub root: String,
    pub segments: Vec<String>,
}

/// A candidate as plain values.
pub struct CandidateView {
    pub source: RootSource,
    pub root: Seq<char>,
    pub segments: Seq<Seq<char>>,
}

impl View for DirectoryCandidate {
    type V = CandidateView;

    open spec fn view(&self) -> CandidateView {
        CandidateView {
            source: self.source,
            root: self.root@,
            segments: self.segments@.map_values(|s: String| s@),
        }
    }
}

/// The candidate for `root`, if it is set.
pub open spec fn candidate_for(
    root: Option<String>,
    source: RootSource,
    segments: Seq<Seq<char>>,
) -> Seq<CandidateView> {
    match root {
        Some(r) => seq![CandidateView { source, root: r@, segments }],
        None => Seq::empty(),
    }
}

/// The candidates of `c`, in the order in which they are tried.
pub open spec fn candidates_spec(c: StorageConfig) -> Seq<CandidateView> {
    let app = c.app_name@;
    candidate_for(c.primary_root, RootSource::PrimaryAppData, seq![app]) + candidate_for(
        c.secondary_root,
        RootSource::SecondaryAppData,
        seq![app],
    ) + candidate_for(c.profile_root, RootSource::UserDocuments, seq!["Documents"@, app])
        + candidate_for(c.temp_root, RootSource::TempFallback, seq![app]) + candidate_for(
        c.current_dir,
        RootSource::CurrentDirFallback,
        seq!["data"@, app],
    )
}

fn push_candidate(
    out: &mut Vec<DirectoryCandidate>,
    root: &Option<String>,
    source: RootSource,
    segments: Vec<String>,
)
    ensures
        final(out)@.map_values(|d: DirectoryCandidate| d@) == old(out)@.map_values(
            |d: DirectoryCandidate| d@,
        ) + candidate_for(*root, source, segments@.map_values(|s: String| s@)),
{
    let ghost before = out@;
    match root {
        Some(r) => {
            out.push(DirectoryCandidate { source, root: r.clone(), segments });
            assert(out@.map_values(|d: DirectoryCandidate| d@) =~= before.map_values(
                |d: DirectoryCandidate| d@,
            ) + candidate_for(*root, source, segments@.map_values(|s: String| s@)));
        },
        None => {
            assert(out@.map_values(|d: DirectoryCandidate| d@) =~= before.map_values(
                |d: DirectoryCandidate| d@,
            ) + candidate_for(*root, source, segments@.map_values(|s: String| s@)));
        },
    }
}

/// The candidate directories of `config`, in priority order: the primary and
/// secondary app-data roots, the user's documents, the temporary root, and
/// the working directory; unset roots are left out.
pub fn candidate_dirs(config: &StorageConfig) -> (r: Vec<DirectoryCandidate>)
    ensures
        r@.map_values(|d: DirectoryCandidate| d@) == candidates_spec(*config),
{
    let mut out: Vec<DirectoryCandidate> = Vec::new();
    let app = &config.app_name;
    let ghost a = app@;
    assert(out@.map_values(|d: DirectoryCandidate| d@) =~= Seq::<CandidateView>::empty());

    let segs = vec![app.clone()];
    assert(segs@.map_values(|s: String| s@) =~= seq![a]);
    push_candidate(&mut out, &config.primary_root, RootSource::PrimaryAppData, segs);

    let segs = vec![app.clone()];
    assert(segs@.map_values(|s: String| s@) =~= seq![a]);
    push_candidate(&mut out, &config.secondary_root, RootSource::SecondaryAppData, segs);

    let segs = vec![String::from_str("Documents"), app.clone()];
    assert(segs@.map_values(|s: String| s@) =~= seq!["Documents"@, a]);
    push_candidate(&mut out, &config.profile_root, RootSource::UserDocuments, segs);

    let segs = vec![app.clone()];
    assert(segs@.map_values(|s: String| s@) =~= seq![a]);
    push_candidate(&mut out, &config.temp_root, RootSource::TempFallback, segs);

    let segs = vec![String::from_str("data"), app.clone()];
    assert(segs@.map_values(|s: String| s@) =~= seq!["data"@, a]);
    push_candidate(&mut out, &config.current_dir, RootSource::CurrentDirFallback, segs);

    assert(Seq::<CandidateView>::empty() + candidate_for(
        config.primary_root,
        RootSource::PrimaryAppData,
        seq![a],
    ) =~= candidate_for(config.primary_root, RootSource::PrimaryAppData, seq![a]));
    out
}

/// A probe step on one candidate directory.
#[derive(Debug, Clone, Copy, PartialEq, Eq)]
pub enum ProbeOp {
    /// Create the directory, with its parents, if it does not exist.
    EnsureDir,
    /// Write the marker file into it.
    WriteMarker,
    /// Remove the marker file.
    RemoveMarker,
}

/// Where a resolution stands.
#[derive(Debug, Clone, PartialEq, Eq)]
pub enum ResolvePhase {
    Ensuring { index: usize },
    Writing { index: usize },
    /// Removing the marker; `write_error` holds the failure of the write, if it failed.
    Cleaning { index: usize, write_error: Option<String> },
    /// The candidate at `index` passed its probe.
    Found { index: usize },
    /// Every candidate failed.
    Exhausted,
}

/// What the caller does next.
#[derive(Debug, PartialEq, Eq)]
pub enum ResolveAction {
    /// Perform `op` on the candidate at `candidate`, and report the outcome.
    Probe { candidate: usize, op: ProbeOp },
    /// The resolution is over: the index of the chosen candidate, or the failure.
    Finish(Result<usize, StoreError>),
}

/// One resolution over `count` candidates.
#[derive(Debug, Clone, PartialEq, Eq)]
pub struct DirResolver {
    pub count: usize,
    pub phase: ResolvePhase,
    /// The last failure seen, kept for the report.
    pub last_error: Option<String>,
}

/// The phase that tries the candidate at `index`, if there is one.
pub open spec fn try_from(index: int, count: usize) -> ResolvePhase {
    if index < count {
        ResolvePhase::Ensuring { index: index as usize }
    } else {
        ResolvePhase::Exhausted
    }
}

impl DirResolver {
    /// Indices name candidates.
    pub open spec fn wf(&self) -> bool {
        match self.phase {
            ResolvePhase::Ensuring { index } => index < self.count,
            ResolvePhase::Writing { index } => index < self.count,
            ResolvePhase::Cleaning { index, .. } => index < self.count,
            ResolvePhase::Found { index } => index < self.count,
            ResolvePhase::Exhausted => true,
        }
    }

    /// The action that the resolution asks for in its current phase.
    pub open spec fn action_spec(&self) -> ResolveAction {
        match self.phase {
            ResolvePhase::Ensuring { index } => ResolveAction::Probe {
                candidate: index,
                op: ProbeOp::EnsureDir,
            },
            ResolvePhase::Writing { index } => ResolveAction::Probe {
                candidate: index,
                op: ProbeOp::WriteMarker,
            },
            ResolvePhase::Cleaning { index, .. } => ResolveAction::Probe {
                candidate: index,
                op: ProbeOp::RemoveMarker,
            },
            ResolvePhase::Found { index } => ResolveAction::Finish(Ok(index)),
            ResolvePhase::Exhausted => ResolveAction::Finish(
                Err(StoreError::NoWritableLocation(self.last_error)),
            ),
        }
    }

    /// The resolution after the pending probe step finished with `outcome`.
    /// A candidate is accepted only when both its marker write and the
    /// marker's removal succeeded. A finished resolution stays as it is.
    pub open spec fn advanced(&self, outcome: Result<(), String>) -> DirResolver {
        match self.phase {
            ResolvePhase::Ensuring { index } => match outcome {
                Ok(_) => DirResolver { phase: ResolvePhase::Writing { index }, ..*self },
                Err(e) => DirResolver {
                    phase: try_from(index + 1, self.count),
                    last_error: Some(e),
                    ..*self
                },
            },
            ResolvePhase::Writing { index } => DirResolver {
                phase: ResolvePhase::Cleaning {
                    index,
                    write_error: match outcome {
                        Ok(_) => None,
                        Err(e) => Some(e),
                    },
                },
                ..*self
            },
            ResolvePhase::Cleaning { index, write_error } => match write_error {
                Some(w) => DirResolver {
                    phase: try_from(index + 1, self.count),
                    last_error: Some(w),
                    ..*self
                },
                None => match outcome {
                    Ok(_) => DirResolver { phase: ResolvePhase::Found { index }, ..*self },
                    Err(e) => DirResolver {
                        phase: try_from(index + 1, self.count),
                        last_error: Some(e),
                        ..*self
                    },
                },
            },
            _ => *self,
        }
    }

    /// A resolution over `count` candidates, starting with the first.
    pub fn begin(count: usize) -> (r: DirResolver)
        ensures
            r == (DirResolver { count, phase: try_from(0, count), last_error: None }),
            r.wf(),
    {
        let phase = if 0 < count {
            ResolvePhase::Ensuring { index: 0 }
        } else {
            ResolvePhase::Exhausted
        };
        DirResolver { count, phase, last_error: None }
    }

    fn try_next(index: usize, count: usize) -> (r: ResolvePhase)
        requires
            index < count,
        ensures
            r == try_from(index + 1, count),
    {
        if index + 1 < count {
            ResolvePhase::Ensuring { index: index + 1 }
        } else {
            ResolvePhase::Exhausted
        }
    }

    /// What to do next.
    pub fn action(&self) -> (r: ResolveAction)
        ensures
            r == self.action_spec(),
    {
        match &self.phase {
            ResolvePhase::Ensuring { index } => ResolveAction::Probe {
                candidate: *index,
                op: ProbeOp::EnsureDir,
            },
            ResolvePhase::Writing { index } => ResolveAction::Probe {
                candidate: *index,
                op: ProbeOp::WriteMarker,
            },
            ResolvePhase::Cleaning { index, .. } => ResolveAction::Probe {
                candidate: *index,
                op: ProbeOp::RemoveMarker,
            },
            ResolvePhase::Found { index } => ResolveAction::Finish(Ok(*index)),
            ResolvePhase::Exhausted => ResolveAction::Finish(
                Err(StoreError::NoWritableLocation(self.last_error.clone())),
            ),
        }
    }

    /// Takes the outcome of the pending probe step and returns what to do next.
    pub fn advance(&mut self, outcome: Result<(), String>) -> (r: ResolveAction)
        requires
            old(self).wf(),
        ensures
            *final(self) == old(self).advanced(outcome),
            final(self).wf(),
            r == final(self).action_spec(),
    {
        let count = self.count;
        match &self.phase {
            ResolvePhase::Ensuring { index } => {
                let index = *index;
                match outcome {
                    Ok(_) => {
                        self.phase = ResolvePhase::Writing { index };
                    },
                    Err(e) => {
                        self.phase = Self::try_next(index, count);
                        self.last_error = Some(e);
                    },
                }
            },
            ResolvePhase::Writing { index } => {
                let index = *index;
                let write_error = match outcome {
                    Ok(_) => None,
                    Err(e) => Some(e),
                };
                self.phase = ResolvePhase::Cleaning { index, write_error };
            },
            ResolvePhase::Cleaning { index, write_error } => {
                let index = *index;
                match write_error {
                    Some(w) => {
                        let w = w.clone();
                        self.phase = Self::try_next(index, count);
                        self.last_error = Some(w);
                    },
                    None => match outcome {
                        Ok(_) => {
                            self.phase = ResolvePhase::Found { index };
                        },
                        Err(e) => {
                            self.phase = Self::try_next(index, count);
                            self.last_error = Some(e);
                        },
                    },
                }
            },
            ResolvePhase::Found { .. } => {},
            ResolvePhase::Exhausted => {},
        }
        self.action()
    }

    /// Whether the resolution is over.
    pub fn is_finished(&self) -> (r: bool)
        ensures
            r == (self.phase is Found || self.phase is Exhausted),
    {
        match &self.phase {
            ResolvePhase::Found { .. } => true,
            ResolvePhase::Exhausted => true,
            _ => false,
        }
    }
}

/// The outcome of the pending step where the candidate at `i` is writable
/// exactly when `writable[i]`; every step on an unwritable one fails with `e`.
pub open spec fn world_outcome(r: DirResolver, writable: Seq<bool>, e: String) -> Result<(), String> {
    let i = match r.phase {
        ResolvePhase::Ensuring { index } => index as int,
        ResolvePhase::Writing { index } => index as int,
        ResolvePhase::Cleaning { index, .. } => index as int,
        _ => 0,
    };
    if writable[i] {
        Ok(())
    } else {
        Err(e)
    }
}

/// The marker files present after the pending step, given its outcome.
pub open spec fn step_markers(r: DirResolver, markers: Set<int>, outcome: Result<(), String>) -> Set<
    int,
> {
    match r.phase {
        ResolvePhase::Writing { index } => if outcome is Ok {
            markers.insert(index as int)
        } else {
            markers
        },
        ResolvePhase::Cleaning { index, .. } => if outcome is Ok {
            markers.remove(index as int)
        } else {
            markers
        },
        _ => markers,
    }
}

/// The resolution, and the candidates holding a marker file, after `fuel`
/// steps against the candidates that `writable` describes.
pub open spec fn run_resolve(
    r: DirResolver,
    markers: Set<int>,
    writable: Seq<bool>,
    e: String,
    fuel: nat,
) -> (DirResolver, Set<int>)
    decreases fuel,
{
    if fuel == 0 {
        (r, markers)
    } else {
        let o = world_outcome(r, writable, e);
        run_resolve(r.advanced(o), step_markers(r, markers, o), writable, e, (fuel - 1) as nat)
    }
}

/// The first writable candidate at `i` or after it.
pub open spec fn first_writable(writable: Seq<bool>, i: int) -> Option<int>
    decreases writable.len() - i,
{
    if i < 0 || i >= writable.len() {
        None
    } else if writable[i] {
        Some(i)
    } else {
        first_writable(writable, i + 1)
    }
}

proof fn lemma_finished_stays(
    r: DirResolver,
    markers: Set<int>,
    writable: Seq<bool>,
    e: String,
    fuel: nat,
)
    requires
        r.phase is Found || r.phase is Exhausted,
    ensures
        run_resolve(r, markers, writable, e, fuel) == (r, markers),
    decreases fuel,
{
    if fuel > 0 {
        lemma_finished_stays(r, markers, writable, e, (fuel - 1) as nat);
    }
}

proof fn lemma_probe_from(
    r: DirResolver,
    writable: Seq<bool>,
    e: String,
    fuel: nat,
    i: int,
)
    requires
        r.count == writable.len(),
        0 <= i < r.count,
        r.phase == (ResolvePhase::Ensuring { index: i as usize }),
        fuel >= 3 * (r.count - i),
    ensures
        run_resolve(r, Set::empty(), writable, e, fuel).1 == Set::<int>::empty(),
        run_resolve(r, Set::empty(), writable, e, fuel).0.phase == (match first_writable(
            writable,
            i,
        ) {
            Some(j) => ResolvePhase::Found { index: j as usize },
            None => ResolvePhase::Exhausted,
        }),
    decreases r.count - i,
{
    let m0 = Set::<int>::empty();
    if writable[i] {
        let o = world_outcome(r, writable, e);
        let r1 = r.advanced(o);
        let m1 = step_markers(r, m0, o);
        let r2 = r1.advanced(world_outcome(r1, writable, e));
        let m2 = step_markers(r1, m1, world_outcome(r1, writable, e));
        let r3 = r2.advanced(world_outcome(r2, writable, e));
        let m3 = step_markers(r2, m2, world_outcome(r2, writable, e));
        assert(r3.phase == (ResolvePhase::Found { index: i as usize }));
        assert(m3 =~= Set::<int>::empty());
        lemma_finished_stays(r3, m3, writable, e, (fuel - 3) as nat);
        assert(run_resolve(r, m0, writable, e, fuel) == run_resolve(r1, m1, writable, e, (fuel
            - 1) as nat));
        assert(run_resolve(r1, m1, writable, e, (fuel - 1) as nat) == run_resolve(
            r2,
            m2,
            writable,
            e,
            (fuel - 2) as nat,
        ));
    } else {
        let o = world_outcome(r, writable, e);
        let r1 = r.advanced(o);
        assert(step_markers(r, m0, o) == m0);
        if i + 1 < r.count {
            lemma_probe_from(r1, writable, e, (fuel - 1) as nat, i + 1);
        } else {
            lemma_finished_stays(r1, m0, writable, e, (fuel - 1) as nat);
        }
    }
}

/// A resolution chooses the first candidate, in priority order, that can be
/// written to, and fails only where none can. It leaves no marker file
/// behind in any candidate it probed. Three probe steps per candidate are
/// enough to finish.
pub proof fn lemma_resolve_picks_first_writable(
    count: usize,
    writable: Seq<bool>,
    e: String,
    fuel: nat,
)
    requires
        writable.len() == count,
        fuel >= 3 * count,
    ensures
        ({
            let (r, markers) = run_resolve(
                DirResolver { count, phase: try_from(0, count), last_error: None },
                Set::empty(),
                writable,
                e,
                fuel,
            );
            &&& markers == Set::<int>::empty()
            &&& r.phase == match first_writable(writable, 0) {
                Some(j) => ResolvePhase::Found { index: j as usize },
                None => ResolvePhase::Exhausted,
            }
        }),
{
    let r = DirResolver { count, phase: try_from(0, count), last_error: None };
    if count > 0 {
        lemma_probe_from(r, writable, e, fuel, 0);
    } else {
        lemma_finished_stays(r, Set::empty(), writable, e, fuel);
    }
}

} // verus!
