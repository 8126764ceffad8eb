use vstd::prelude::*;

use crate::errors::ArchiveError;

verus! {

/// Milliseconds the driver waits before each per-id fetch.
pub const PACE_MILLIS: u64 = 200;

/// Seconds the supervisor waits between whole runs.
pub const RUN_INTERVAL_SECS: u64 = 60;

/// How one attempt to fetch and extract an artifact ended. Every outcome is
/// non-fatal: artifacts are a best-effort mirror, not the system of record.
#[derive(Clone, Copy, Debug, PartialEq, Eq, Structural)]
pub enum ArtifactOutcome {
    /// The bytes were fetched and every entry was expanded.
    Extracted,
    /// The bytes were fetched but could not be opened as an archive, or an
    /// entry failed to extract; the artifact was skipped.
    Skipped,
    /// The bytes could not be fetched.
    FetchFailed,
}

impl ArtifactOutcome {
    /// The outcome of one artifact attempt, from what the driver managed:
    /// unfetched bytes are a fetch failure; fetched bytes that would not open
    /// as a valid archive, or an entry that failed to extract, mean the
    /// artifact is skipped. No shape is an error.
    pub open spec fn spec_classify(fetched: bool, opened: bool, extracted: bool) -> ArtifactOutcome {
        if !fetched {
            ArtifactOutcome::FetchFailed
        } else if opened && extracted {
            ArtifactOutcome::Extracted
        } else {
            ArtifactOutcome::Skipped
        }
    }

    /// Classify one artifact attempt: were the bytes fetched, did they open as
    /// a valid archive, did every entry extract.
    pub fn classify(fetched: bool, opened: bool, extracted: bool) -> (o: ArtifactOutcome)
        ensures
            o == ArtifactOutcome::spec_classify(fetched, opened, extracted),
    {
        if !fetched {
            ArtifactOutcome::FetchFailed
        } else if opened && extracted {
            ArtifactOutcome::Extracted
        } else {
            ArtifactOutcome::Skipped
        }
    }
}

/// What the walk asks its driver to do next.
#[derive(Clone, Copy, Debug, PartialEq, Eq, Structural)]
pub enum Action {
    /// Pace, fetch the body for `id`, and insert it durably.
    IngestBody {
        /// The id whose body is pending.
        id: u64,
    },
    /// Fetch the artifact for `id` and extract it, swallowing every failure.
    HandleArtifact {
        /// The id whose artifact is pending.
        id: u64,
    },
    /// The run is over, completed or aborted; control returns to the
    /// supervisor.
    Stop,
}

/// What the driver reports back after performing an action.
#[derive(Clone, Copy, Debug, PartialEq, Eq, Structural)]
pub enum Event {
    /// The body for the pending id was fetched, parsed and durably inserted.
    BodyIngested,
    /// Fetching, parsing or inserting the body for the pending id failed.
    BodyFailed {
        /// What went wrong.
        error: ArchiveError,
    },
    /// The artifact attempt for the newly stored id finished, however it went.
    ArtifactHandled {
        /// How the attempt ended; the walk advances the same way regardless.
        outcome: ArtifactOutcome,
    },
}

/// Where one run stands.
#[derive(Clone, Copy, Debug, PartialEq, Eq, Structural)]
pub enum RunPhase {
    /// The body for `watermark + 1` is pending.
    AwaitingBody,
    /// The body for `watermark` was just stored; its artifact is pending.
    AwaitingArtifact,
    /// The watermark reached the ceiling, or there was nothing to do.
    Complete,
    /// A body ingestion failed; the run stopped where it stood.
    Aborted {
        /// The failure that stopped the run.
        error: ArchiveError,
    },
}

/// One archiver run: a resumable walk from the watermark the run started at
/// up to a fixed ceiling. The watermark is the highest contiguously stored id;
/// it advances only when a body is durably stored, never past a failure.
#[derive(Clone, Copy, Debug, PartialEq, Eq, Structural)]
pub struct RunState {
    /// The watermark the run started from, as derived from the store.
    pub started_at: u64,
    /// The highest contiguously stored id.
    pub watermark: u64,
    /// The highest id considered safe to ingest this run.
    pub ceiling: u64,
    /// Where the run stands.
    pub phase: RunPhase,
}

impl RunState {
    /// The ids stored during this run: exactly the contiguous range from one
    /// past the starting watermark up to the current one.
    pub open spec fn stored_this_run(self) -> Set<int> {
        Set::new(|i: int| self.started_at < i <= self.watermark)
    }

    /// Well-formedness of a run state. `new` establishes it and `step`
    /// preserves it.
    pub open spec fn inv(self) -> bool {
        &&& self.started_at <= self.watermark
        &&& match self.phase {
            RunPhase::AwaitingBody => self.watermark < self.ceiling,
            RunPhase::AwaitingArtifact => self.started_at < self.watermark && self.watermark
                <= self.ceiling,
            RunPhase::Complete => self.watermark == if self.started_at <= self.ceiling {
                self.ceiling
            } else {
                self.started_at
            },
            RunPhase::Aborted { .. } => self.watermark < self.ceiling,
        }
    }

    /// The state a fresh run starts in: nothing stored yet, and nothing to do
    /// at all when the watermark already reached the ceiling.
    pub open spec fn spec_new(watermark: u64, ceiling: u64) -> RunState {
        RunState {
            started_at: watermark,
            watermark: watermark,
            ceiling: ceiling,
            phase: if watermark < ceiling {
                RunPhase::AwaitingBody
            } else {
                RunPhase::Complete
            },
        }
    }

    /// Start a run at the watermark the store reported, toward `ceiling`.
    pub fn new(watermark: u64, ceiling: u64) -> (s: RunState)
        ensures
            s == RunState::spec_new(watermark, ceiling),
            s.inv(),
            s.stored_this_run() =~= Set::<int>::empty(),
    {
        if watermark < ceiling {
            RunState { started_at: watermark, watermark, ceiling, phase: RunPhase::AwaitingBody }
        } else {
            RunState { started_at: watermark, watermark, ceiling, phase: RunPhase::Complete }
        }
    }

    /// What the driver is asked to do in this state.
    pub open spec fn spec_action(self) -> Action {
        match self.phase {
            RunPhase::AwaitingBody => if self.watermark < self.ceiling {
                Action::IngestBody { id: (self.watermark + 1) as u64 }
            } else {
                Action::Stop
            },
            RunPhase::AwaitingArtifact => Action::HandleArtifact { id: self.watermark },
            RunPhase::Complete => Action::Stop,
            RunPhase::Aborted { .. } => Action::Stop,
        }
    }

    /// Ask what to do next: ingest the body one past the watermark, handle the
    /// artifact of the id just stored, or stop.
    pub fn next_action(&self) -> (a: Action)
        ensures
            a == self.spec_action(),
    {
        match self.phase {
            RunPhase::AwaitingBody => if self.watermark < self.ceiling {
                Action::IngestBody { id: self.watermark + 1 }
            } else {
                Action::Stop
            },
            RunPhase::AwaitingArtifact => Action::HandleArtifact { id: self.watermark },
            RunPhase::Complete => Action::Stop,
            RunPhase::Aborted { .. } => Action::Stop,
        }
    }

    /// The walk's transition rule. A stored body advances the watermark by
    /// exactly one and makes that id's artifact pending; a failed body aborts
    /// the run with the watermark unchanged; a handled artifact, however it
    /// went, moves on to the next body or completes the run. An event that
    /// does not answer the pending action leaves the state unchanged.
    pub open spec fn spec_step(self, e: Event) -> RunState {
        match (self.phase, e) {
            (RunPhase::AwaitingBody, Event::BodyIngested) => if self.watermark < self.ceiling {
                RunState {
                    watermark: (self.watermark + 1) as u64,
                    phase: RunPhase::AwaitingArtifact,
                    ..self
                }
            } else {
                self
            },
            (RunPhase::AwaitingBody, Event::BodyFailed { error }) => RunState {
                phase: RunPhase::Aborted { error },
                ..self
            },
            (RunPhase::AwaitingArtifact, Event::ArtifactHandled { .. }) => if self.watermark
                < self.ceiling {
                RunState { phase: RunPhase::AwaitingBody, ..self }
            } else {
                RunState { phase: RunPhase::Complete, ..self }
            },
            _ => self,
        }
    }

    /// Apply one driver report to the run.
    pub fn step(&self, e: &Event) -> (s: RunState)
        ensures
            s == self.spec_step(*e),
    {
        match (self.phase, *e) {
            (RunPhase::AwaitingBody, Event::BodyIngested) => if self.watermark < self.ceiling {
                RunState {
                    watermark: self.watermark + 1,
                    phase: RunPhase::AwaitingArtifact,
                    ..*self
                }
            } else {
                *self
            },
            (RunPhase::AwaitingBody, Event::BodyFailed { error }) => RunState {
                phase: RunPhase::Aborted { error },
                ..*self
            },
            (RunPhase::AwaitingArtifact, Event::ArtifactHandled { .. }) => if self.watermark
                < self.ceiling {
                RunState { phase: RunPhase::AwaitingBody, ..*self }
            } else {
                RunState { phase: RunPhase::Complete, ..*self }
            },
            _ => *self,
        }
    }
}

/// The measure that shrinks as a run makes progress: two steps remain per id
/// not yet stored, plus one for a pending artifact.
spec fn walk_measure(s: RunState) -> int {
    2 * (s.ceiling - s.watermark) + if s.phase is AwaitingArtifact {
        1int
    } else {
        0int
    }
}

/// Law (progress): a run in which every body is stored and every artifact
/// attempt comes back reaches completion on its own, stopping exactly at the
/// ceiling -- or where it began, when there was nothing to do -- with the ids
/// between stored. This drives the walk wholly in memory; the archiver's
/// driver performs the same steps against the real collaborators.
pub fn run_all_success(watermark: u64, ceiling: u64) -> (s: RunState)
    ensures
        s.started_at == watermark,
        s.ceiling == ceiling,
        s.phase is Complete,
        s.watermark == if watermark <= ceiling {
            ceiling
        } else {
            watermark
        },
        s.stored_this_run() =~= Set::new(|i: int| watermark < i <= ceiling),
{
    let mut s = RunState::new(watermark, ceiling);
    loop
        invariant
            s.inv(),
            s.started_at == watermark,
            s.ceiling == ceiling,
            !(s.phase is Aborted),
        ensures
            s.inv(),
            s.started_at == watermark,
            s.ceiling == ceiling,
            s.phase is Complete,
        decreases walk_measure(s),
    {
        match s.next_action() {
            Action::IngestBody { id: _ } => {
                s = s.step(&Event::BodyIngested);
            },
            Action::HandleArtifact { id: _ } => {
                s = s.step(&Event::ArtifactHandled { outcome: ArtifactOutcome::Extracted });
            },
            Action::Stop => {
                break;
            },
        }
    }
    s
}

/// The state after a whole sequence of driver reports, applied in order.
pub open spec fn run_events(s: RunState, events: Seq<Event>) -> RunState
    decreases events.len(),
{
    if events.len() == 0 {
        s
    } else {
        run_events(s.spec_step(events[0]), events.drop_first())
    }
}

/// Law: every step preserves the run invariant, and the watermark never moves
/// backward nor past the ceiling it was under.
pub proof fn lemma_step_preserves_inv(s: RunState, e: Event)
    requires
        s.inv(),
    ensures
        s.spec_step(e).inv(),
        s.spec_step(e).watermark >= s.watermark,
        s.spec_step(e).started_at == s.started_at,
        s.spec_step(e).ceiling == s.ceiling,
{
}

/// Law: the invariant holds after any sequence of driver reports, so it holds
/// at whatever point a run is interrupted or resumed.
pub proof fn lemma_run_preserves_inv(s: RunState, events: Seq<Event>)
    requires
        s.inv(),
    ensures
        run_events(s, events).inv(),
        run_events(s, events).started_at == s.started_at,
        run_events(s, events).ceiling == s.ceiling,
    decreases events.len(),
{
    if events.len() > 0 {
        lemma_step_preserves_inv(s, events[0]);
        lemma_run_preserves_inv(s.spec_step(events[0]), events.drop_first());
    }
}

/// Law (idempotent resume, one run): a completed run that started at watermark
/// `w` under ceiling `f >= w` has stored exactly the ids in `(w, f]`: each id
/// once, no duplicates, no gaps.
pub proof fn lemma_completed_run_covers_range(s: RunState)
    requires
        s.inv(),
        s.phase is Complete,
        s.started_at <= s.ceiling,
    ensures
        s.watermark == s.ceiling,
        s.stored_this_run() =~= Set::new(|i: int| s.started_at < i <= s.ceiling),
        forall|i: int| s.started_at < i <= s.ceiling ==> s.stored_this_run().contains(i),
        forall|i: int| s.stored_this_run().contains(i) ==> s.started_at < i <= s.ceiling,
{
}

/// Law (idempotent resume, across runs): a later run started from the
/// watermark an earlier run left behind stores only new ids, and together the
/// two runs cover one contiguous range with no gap and no overlap -- however
/// many aborted runs came before.
pub proof fn lemma_resume_contiguous(prior: RunState, next: RunState)
    requires
        prior.inv(),
        next.inv(),
        next.started_at == prior.watermark,
    ensures
        prior.stored_this_run().disjoint(next.stored_this_run()),
        prior.stored_this_run().union(next.stored_this_run()) =~= Set::new(
            |i: int| prior.started_at < i <= next.watermark,
        ),
{
}

/// Law (abort-on-first-failure contiguity): when ingesting the body for id
/// `started_at + k` fails, the run aborts with the watermark exactly
/// `started_at + k - 1`: the ids `started_at + 1 ..= started_at + k - 1` are
/// stored and nothing at or beyond the failed id is.
pub proof fn lemma_abort_contiguity(s: RunState, err: ArchiveError, k: int)
    requires
        s.inv(),
        s.phase is AwaitingBody,
        k == s.watermark - s.started_at + 1,
    ensures
        ({
            let t = s.spec_step(Event::BodyFailed { error: err });
            &&& t.phase == (RunPhase::Aborted { error: err })
            &&& t.watermark == s.started_at + k - 1
            &&& t.stored_this_run() =~= Set::new(
                |i: int| s.started_at < i <= s.started_at + k - 1,
            )
            &&& forall|i: int| i >= s.started_at + k ==> !t.stored_this_run().contains(i)
        }),
{
}

/// Law (artifact independence): the walk advances the same way whatever became
/// of an artifact -- extracted, skipped as corrupt, or never fetched. The body
/// already stored for that id stays stored, and when the ceiling is not yet
/// reached the next action is to ingest the following id.
pub proof fn lemma_artifact_independence(s: RunState, o1: ArtifactOutcome, o2: ArtifactOutcome)
    ensures
        s.spec_step(Event::ArtifactHandled { outcome: o1 }) == s.spec_step(
            Event::ArtifactHandled { outcome: o2 },
        ),
        s.spec_step(Event::ArtifactHandled { outcome: o1 }).watermark == s.watermark,
        s.spec_step(Event::ArtifactHandled { outcome: o1 }).stored_this_run()
            =~= s.stored_this_run(),
        s.phase is AwaitingArtifact && s.watermark < s.ceiling ==> s.spec_step(
            Event::ArtifactHandled { outcome: o1 },
        ).spec_action() == (Action::IngestBody { id: (s.watermark + 1) as u64 }),
{
}

/// Law (artifact independence, in general): no artifact outcome is ever fatal.
/// Whatever one attempt came to -- the bytes unfetched, the archive corrupt, an
/// entry unextracted, or all well -- the walk neither aborts nor moves the
/// watermark: the body stored for that id stays stored, and the run goes on to
/// ingest the next id, or completes when the ceiling is reached.
pub proof fn lemma_artifact_never_fatal(s: RunState, o: ArtifactOutcome)
    ensures
        ({
            let t = s.spec_step(Event::ArtifactHandled { outcome: o });
            &&& t.phase is Aborted <==> s.phase is Aborted
            &&& t.watermark == s.watermark
            &&& t.stored_this_run() =~= s.stored_this_run()
            &&& s.phase is AwaitingArtifact && s.watermark < s.ceiling ==> t.spec_action() == (
            Action::IngestBody { id: (s.watermark + 1) as u64 })
            &&& s.phase is AwaitingArtifact && s.watermark >= s.ceiling ==> t.phase is Complete
        }),
{
}

/// Law (empty-range no-op): a run whose starting watermark already equals the
/// ceiling is complete at once: its first action is to stop and it stores
/// nothing.
pub proof fn lemma_empty_range_noop(w: u64)
    ensures
        RunState::spec_new(w, w).phase is Complete,
        RunState::spec_new(w, w).spec_action() == Action::Stop,
        RunState::spec_new(w, w).stored_this_run() =~= Set::<int>::empty(),
{
}

} // verus!
