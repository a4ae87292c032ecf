//! The bootstrap of a `ClusterRepository` through a mover Job, as a machine:
//! what was observed goes in, and the next thing to do comes out.
use crate::bootstrap::{phase_word, MoverJobTerminal, RepositoryPhase};
use crate::seed::{
    copy_opt, marker_of, opt_seed, seed_marker_patch, SeedMode, SeedStatus, SeedStatusView,
};
use crate::status::{no_patch, CatalogPatch, CatalogPatchView, HealthPatch, HealthPatchView, StatusPatch, StatusPatchView};
use crate::text::{filled, opt_text};
use vstd::prelude::*;

verus! {

/// How soon a Job that was just recycled is looked at again, in seconds.
pub const RECYCLE_REQUEUE_SECS: u64 = 5;

/// How soon a running or a new Job is looked at again, in seconds.
pub const JOB_REQUEUE_SECS: u64 = 15;

/// How soon a repository that waits for its seed source is looked at again, in
/// seconds.
pub const SEED_PARK_REQUEUE_SECS: u64 = 15;

/// What the health probe of a repository wants.
#[derive(Clone, Copy, Debug, PartialEq, Eq, Structural)]
pub enum ProbeAction {
    Idle,
    Launch,
    AwaitingResult,
}

impl ProbeAction {
    /// Whether a probe is to be launched.
    pub fn launches(&self) -> (yes: bool)
        ensures
            yes == (*self == ProbeAction::Launch),
    {
        match self {
            ProbeAction::Launch => true,
            _ => false,
        }
    }

    /// Whether a launched probe's result is awaited.
    pub fn awaits_result(&self) -> (yes: bool)
        ensures
            yes == (*self == ProbeAction::AwaitingResult),
    {
        match self {
            ProbeAction::AwaitingResult => true,
            _ => false,
        }
    }
}

/// What a bootstrap decision reads of the repository.
pub struct BootstrapInputs {
    pub prior_phase: Option<RepositoryPhase>,
    pub unique_id: Option<String>,
    pub generation: Option<i64>,
    pub observed_generation: Option<i64>,
    /// A re-probe was requested and is due.
    pub reverify: bool,
    pub probe_enabled: bool,
    pub probe: ProbeAction,
    pub seed_armed: bool,
    /// The deadline of a bootstrap Job that names none of its own.
    pub base_deadline_secs: i64,
}

/// Whether the repository is `Ready`.
pub open spec fn already_ready(i: BootstrapInputs) -> bool {
    i.prior_phase is Some && i.prior_phase->0 is Ready
}

/// Whether the repository was bootstrapped before.
pub open spec fn bootstrapped_before(i: BootstrapInputs) -> bool {
    i.unique_id is Some
}

/// Whether the spec changed since it was last observed.
pub open spec fn spec_changed(i: BootstrapInputs) -> bool {
    i.generation != i.observed_generation
}

/// Whether a finished Job is read as the result of a probe.
pub open spec fn probe_run(i: BootstrapInputs) -> bool {
    i.probe == ProbeAction::AwaitingResult && !spec_changed(i) && !i.reverify
}

/// Whether a launch is made as a probe.
pub open spec fn probe_style_launch(i: BootstrapInputs) -> bool {
    i.probe_enabled && bootstrapped_before(i) && already_ready(i) && !i.reverify && !spec_changed(i)
}

fn is_ready(phase: &Option<RepositoryPhase>) -> (yes: bool)
    ensures
        yes == (*phase is Some && (*phase)->0 is Ready),
{
    match phase {
        Some(RepositoryPhase::Ready) => true,
        _ => false,
    }
}

fn generations_differ(a: Option<i64>, b: Option<i64>) -> (differ: bool)
    ensures
        differ == (a != b),
{
    match (a, b) {
        (Some(x), Some(y)) => x != y,
        (None, None) => false,
        _ => true,
    }
}

impl BootstrapInputs {
    /// Whether a finished Job is read as the result of a probe.
    pub fn is_probe_run(&self) -> (yes: bool)
        ensures
            yes == probe_run(*self),
    {
        self.probe.awaits_result() && !generations_differ(
            self.generation,
            self.observed_generation,
        ) && !self.reverify
    }

    /// Whether a launch is made as a probe.
    pub fn is_probe_style_launch(&self) -> (yes: bool)
        ensures
            yes == probe_style_launch(*self),
    {
        self.probe_enabled && self.unique_id.is_some() && is_ready(&self.prior_phase)
            && !self.reverify && !generations_differ(self.generation, self.observed_generation)
    }
}

/// What a launch still has to do, fixed when its seed was prepared.
#[derive(Clone, Copy, Debug, PartialEq, Eq, Structural)]
pub struct LaunchPlan {
    pub probe_only: bool,
    /// The seed's attempt is to be marked before the Job exists.
    pub marker_due: bool,
    /// How many of the seed's Secrets were copied in.
    pub projected: u64,
}

/// Where a bootstrap pass stands.
#[derive(Clone, Copy, Debug, PartialEq, Eq, Structural)]
pub enum BootstrapStage {
    /// The Job is to be looked up.
    Observe,
    /// A Job of the former name is to be looked up.
    Legacy { create_due: bool },
    /// The authority that signs the backend's endpoint is to be read.
    Authority { create_due: bool },
    /// The seed is to be armed.
    Seed { create_due: bool },
    /// The Secrets are to be looked up.
    Credentials { plan: LaunchPlan },
    /// The run's identity is to be put in place.
    Identity { plan: LaunchPlan },
    /// The seed's attempt is to be marked.
    Marker { plan: LaunchPlan },
    /// The Job is to be created.
    Launch,
    /// The pass is over.
    Done,
}

/// What became of the seed of a launch.
#[derive(Clone, Copy, Debug, PartialEq, Eq, Structural)]
pub enum SeedPreparation {
    NotArmed,
    /// It is held back.
    Parked,
    Armed { marker_due: bool, projected: u64 },
}

/// What became of a seed that was armed: its attempt is to be marked where
/// there is a marker to stamp.
pub open spec fn seed_prepared(
    existing: Option<SeedStatusView>,
    mode: SeedMode,
    source: Seq<char>,
    now: Seq<char>,
    projected: u64,
) -> SeedPreparation {
    SeedPreparation::Armed { marker_due: marker_of(existing, mode, source, now) is Some, projected }
}

/// What became of a seed that was armed, for the launch to go on with.
pub fn prepare_seed(
    existing: &Option<SeedStatus>,
    mode: SeedMode,
    source_description: &str,
    now: &str,
    projected: u64,
) -> (seed: SeedPreparation)
    ensures
        seed == seed_prepared(opt_seed(*existing), mode, source_description@, now@, projected),
{
    let marker = seed_marker_patch(existing, mode, source_description, now);
    SeedPreparation::Armed { marker_due: marker.is_some(), projected }
}

/// What the outside answered.
#[derive(Clone, Copy, Debug, PartialEq, Eq, Structural)]
pub enum BootstrapEvent {
    /// There is no Job. `create_due`: the catalog wants one; `holdoff_secs`:
    /// how long a strict retry is still held back.
    JobMissing { create_due: bool, holdoff_secs: Option<u64> },
    JobRunning,
    /// The Job has finished. `stale`: it was launched for an older generation;
    /// `recycle_due`: the catalog wants a fresh one.
    JobFinished {
        stale: bool,
        recycle_due: bool,
        terminal: MoverJobTerminal,
        deadline_secs: Option<i64>,
    },
    LegacyChecked { cleared: bool },
    AuthorityRead,
    SeedPrepared { seed: SeedPreparation },
    /// Every Secret that the mover loads is there.
    CredentialsPresent,
    IdentityEnsured,
    MarkerStamped,
    JobCreated,
    /// The step failed.
    Failed,
}

/// What to do next.
#[derive(Clone, Copy, Debug, PartialEq, Eq, Structural)]
pub enum BootstrapAction {
    /// Delete the Job and look again after `requeue_secs`.
    RecycleJob { requeue_secs: u64 },
    /// Wait for the Job, writing the launch phase and the progress of a seed
    /// where asked.
    AwaitJob { write_phase: bool, write_seeding: bool, requeue_secs: u64 },
    /// Reflect the finished Job into the status.
    FinalizeJob { terminal: MoverJobTerminal, deadline_secs: i64, probe_run: bool },
    /// Nothing to launch: refresh the standing conditions and the maintenance.
    KeepSteady,
    /// Come back when the retry may run.
    HoldOff { secs: u64 },
    CheckLegacyJob,
    /// The former Job is not gone yet.
    AwaitLegacyJob { requeue_secs: u64 },
    ReadAuthority,
    PrepareSeed,
    /// Write the condition that holds the seed back.
    ParkOnSeed { requeue_secs: u64 },
    CheckCredentials,
    /// Put the run's identity in place; count the seed's Secrets that were
    /// copied in, where any were.
    EnsureIdentity { count_projected: Option<u64> },
    /// Mark the seed's attempt.
    StampMarker,
    CreateJob { probe_only: bool },
    /// Record the launch.
    RecordLaunch { requeue_secs: u64 },
    /// The failure comes out.
    Fail,
    /// The event does not belong to the stage.
    Ignore,
}

/// What a launch still has to do once its seed was prepared.
pub open spec fn launch_plan(
    i: BootstrapInputs,
    create_due: bool,
    seed: SeedPreparation,
) -> LaunchPlan {
    LaunchPlan {
        probe_only: probe_style_launch(i) && !create_due,
        marker_due: seed is Armed && seed->marker_due,
        projected: if seed is Armed {
            seed->projected
        } else {
            0
        },
    }
}

/// The next stage and action.
pub open spec fn bootstrap_next(
    i: BootstrapInputs,
    stage: BootstrapStage,
    event: BootstrapEvent,
) -> (BootstrapStage, BootstrapAction) {
    match (stage, event) {
        (BootstrapStage::Done, _) => (stage, BootstrapAction::Ignore),
        (_, BootstrapEvent::Failed) => (BootstrapStage::Done, BootstrapAction::Fail),
        (BootstrapStage::Observe, BootstrapEvent::JobRunning) => (
            BootstrapStage::Done,
            BootstrapAction::AwaitJob {
                write_phase: !already_ready(i),
                write_seeding: i.seed_armed,
                requeue_secs: JOB_REQUEUE_SECS,
            },
        ),
        (
            BootstrapStage::Observe,
            BootstrapEvent::JobFinished { stale, recycle_due, terminal, deadline_secs },
        ) => (
            BootstrapStage::Done,
            if stale || i.reverify || i.probe == ProbeAction::Launch || recycle_due {
                BootstrapAction::RecycleJob { requeue_secs: RECYCLE_REQUEUE_SECS }
            } else {
                BootstrapAction::FinalizeJob {
                    terminal,
                    deadline_secs: match deadline_secs {
                        Some(n) => n,
                        None => i.base_deadline_secs,
                    },
                    probe_run: probe_run(i),
                }
            },
        ),
        (BootstrapStage::Observe, BootstrapEvent::JobMissing { create_due, holdoff_secs }) => if !(
        i.reverify || i.probe == ProbeAction::Launch || create_due) {
            (BootstrapStage::Done, BootstrapAction::KeepSteady)
        } else if !spec_changed(i) && holdoff_secs is Some {
            (BootstrapStage::Done, BootstrapAction::HoldOff { secs: holdoff_secs->0 })
        } else {
            (BootstrapStage::Legacy { create_due }, BootstrapAction::CheckLegacyJob)
        },
        (BootstrapStage::Legacy { create_due }, BootstrapEvent::LegacyChecked { cleared }) =>
        if cleared {
            (BootstrapStage::Authority { create_due }, BootstrapAction::ReadAuthority)
        } else {
            (
                BootstrapStage::Done,
                BootstrapAction::AwaitLegacyJob { requeue_secs: RECYCLE_REQUEUE_SECS },
            )
        },
        (BootstrapStage::Authority { create_due }, BootstrapEvent::AuthorityRead) => (
            BootstrapStage::Seed { create_due },
            BootstrapAction::PrepareSeed,
        ),
        (BootstrapStage::Seed { create_due }, BootstrapEvent::SeedPrepared { seed }) => if seed
            is Parked {
            (BootstrapStage::Done, BootstrapAction::ParkOnSeed { requeue_secs: SEED_PARK_REQUEUE_SECS })
        } else {
            (
                BootstrapStage::Credentials { plan: launch_plan(i, create_due, seed) },
                BootstrapAction::CheckCredentials,
            )
        },
        (BootstrapStage::Credentials { plan }, BootstrapEvent::CredentialsPresent) => (
            BootstrapStage::Identity { plan },
            BootstrapAction::EnsureIdentity {
                count_projected: if plan.projected > 0 {
                    Some(plan.projected)
                } else {
                    None
                },
            },
        ),
        (BootstrapStage::Identity { plan }, BootstrapEvent::IdentityEnsured) => if plan.marker_due {
            (BootstrapStage::Marker { plan }, BootstrapAction::StampMarker)
        } else {
            (BootstrapStage::Launch, BootstrapAction::CreateJob { probe_only: plan.probe_only })
        },
        (BootstrapStage::Marker { plan }, BootstrapEvent::MarkerStamped) => (
            BootstrapStage::Launch,
            BootstrapAction::CreateJob { probe_only: plan.probe_only },
        ),
        (BootstrapStage::Launch, BootstrapEvent::JobCreated) => (
            BootstrapStage::Done,
            BootstrapAction::RecordLaunch { requeue_secs: JOB_REQUEUE_SECS },
        ),
        _ => (stage, BootstrapAction::Ignore),
    }
}

/// Takes one step of a bootstrap pass.
pub fn bootstrap_cluster_via_mover(
    i: &BootstrapInputs,
    stage: BootstrapStage,
    event: BootstrapEvent,
) -> (next: (BootstrapStage, BootstrapAction))
    ensures
        next == bootstrap_next(*i, stage, event),
{
    match (stage, event) {
        (BootstrapStage::Done, _) => (stage, BootstrapAction::Ignore),
        (_, BootstrapEvent::Failed) => (BootstrapStage::Done, BootstrapAction::Fail),
        (BootstrapStage::Observe, BootstrapEvent::JobRunning) => (
            BootstrapStage::Done,
            BootstrapAction::AwaitJob {
                write_phase: !is_ready(&i.prior_phase),
                write_seeding: i.seed_armed,
                requeue_secs: JOB_REQUEUE_SECS,
            },
        ),
        (
            BootstrapStage::Observe,
            BootstrapEvent::JobFinished { stale, recycle_due, terminal, deadline_secs },
        ) => {
            if stale || i.reverify || i.probe.launches() || recycle_due {
                (
                    BootstrapStage::Done,
                    BootstrapAction::RecycleJob { requeue_secs: RECYCLE_REQUEUE_SECS },
                )
            } else {
                let deadline: i64 = match deadline_secs {
                    Some(n) => n,
                    None => i.base_deadline_secs,
                };
                (
                    BootstrapStage::Done,
                    BootstrapAction::FinalizeJob {
                        terminal,
                        deadline_secs: deadline,
                        probe_run: i.is_probe_run(),
                    },
                )
            }
        },
        (BootstrapStage::Observe, BootstrapEvent::JobMissing { create_due, holdoff_secs }) => {
            if !(i.reverify || i.probe.launches() || create_due) {
                return (BootstrapStage::Done, BootstrapAction::KeepSteady);
            }
            if !generations_differ(i.generation, i.observed_generation) {
                if let Some(secs) = holdoff_secs {
                    return (BootstrapStage::Done, BootstrapAction::HoldOff { secs });
                }
            }
            (BootstrapStage::Legacy { create_due }, BootstrapAction::CheckLegacyJob)
        },
        (BootstrapStage::Legacy { create_due }, BootstrapEvent::LegacyChecked { cleared }) => {
            if cleared {
                (BootstrapStage::Authority { create_due }, BootstrapAction::ReadAuthority)
            } else {
                (
                    BootstrapStage::Done,
                    BootstrapAction::AwaitLegacyJob { requeue_secs: RECYCLE_REQUEUE_SECS },
                )
            }
        },
        (BootstrapStage::Authority { create_due }, BootstrapEvent::AuthorityRead) => (
            BootstrapStage::Seed { create_due },
            BootstrapAction::PrepareSeed,
        ),
        (BootstrapStage::Seed { create_due }, BootstrapEvent::SeedPrepared { seed }) => {
            let probe_only = i.is_probe_style_launch() && !create_due;
            let plan = match seed {
                SeedPreparation::Parked => {
                    return (
                        BootstrapStage::Done,
                        BootstrapAction::ParkOnSeed { requeue_secs: SEED_PARK_REQUEUE_SECS },
                    );
                },
                SeedPreparation::NotArmed => LaunchPlan {
                    probe_only,
                    marker_due: false,
                    projected: 0,
                },
                SeedPreparation::Armed { marker_due, projected } => LaunchPlan {
                    probe_only,
                    marker_due,
                    projected,
                },
            };
            (BootstrapStage::Credentials { plan }, BootstrapAction::CheckCredentials)
        },
        (BootstrapStage::Credentials { plan }, BootstrapEvent::CredentialsPresent) => {
            let count_projected: Option<u64> = if plan.projected > 0 {
                Some(plan.projected)
            } else {
                None
            };
            (
                BootstrapStage::Identity { plan },
                BootstrapAction::EnsureIdentity { count_projected },
            )
        },
        (BootstrapStage::Identity { plan }, BootstrapEvent::IdentityEnsured) => {
            if plan.marker_due {
                (BootstrapStage::Marker { plan }, BootstrapAction::StampMarker)
            } else {
                (BootstrapStage::Launch, BootstrapAction::CreateJob { probe_only: plan.probe_only })
            }
        },
        (BootstrapStage::Marker { plan }, BootstrapEvent::MarkerStamped) => (
            BootstrapStage::Launch,
            BootstrapAction::CreateJob { probe_only: plan.probe_only },
        ),
        (BootstrapStage::Launch, BootstrapEvent::JobCreated) => (
            BootstrapStage::Done,
            BootstrapAction::RecordLaunch { requeue_secs: JOB_REQUEUE_SECS },
        ),
        _ => (stage, BootstrapAction::Ignore),
    }
}

/// The stage and the actions that a run of events leads to from the start.
pub open spec fn bootstrap_trace(
    i: BootstrapInputs,
    events: Seq<BootstrapEvent>,
) -> (BootstrapStage, Seq<BootstrapAction>)
    decreases events.len(),
{
    if events.len() == 0 {
        (BootstrapStage::Observe, Seq::empty())
    } else {
        let (stage, actions) = bootstrap_trace(i, events.drop_last());
        let (next, action) = bootstrap_next(i, stage, events.last());
        (next, actions.push(action))
    }
}

/// Whether some answer was that there is no Job.
pub open spec fn job_was_missing(events: Seq<BootstrapEvent>) -> bool {
    exists|k: int| 0 <= k < events.len() && (#[trigger] events[k]) is JobMissing
}

/// Whether the answers contain a Job that is missing and a former Job that is
/// gone.
pub open spec fn clear_to_launch(events: Seq<BootstrapEvent>) -> bool {
    &&& job_was_missing(events)
    &&& events.contains(BootstrapEvent::LegacyChecked { cleared: true })
}

/// Whether the answers contain Secrets that are there and an identity that is
/// in place.
pub open spec fn provided_for(events: Seq<BootstrapEvent>) -> bool {
    &&& events.contains(BootstrapEvent::CredentialsPresent)
    &&& events.contains(BootstrapEvent::IdentityEnsured)
}

/// Whether the answers contain a seed whose attempt is not to be marked.
pub open spec fn markerless_seed(events: Seq<BootstrapEvent>) -> bool {
    exists|k: int|
        0 <= k < events.len() && (#[trigger] events[k]) is SeedPrepared && !(
        events[k]->seed is Armed && events[k]->seed->marker_due)
}

/// What the answers have to contain at a stage.
pub open spec fn stage_backed(stage: BootstrapStage, events: Seq<BootstrapEvent>) -> bool {
    match stage {
        BootstrapStage::Observe => true,
        BootstrapStage::Legacy { .. } => job_was_missing(events),
        BootstrapStage::Authority { .. } => clear_to_launch(events),
        BootstrapStage::Seed { .. } => clear_to_launch(events),
        BootstrapStage::Credentials { plan } => clear_to_launch(events) && (plan.marker_due
            || markerless_seed(events)),
        BootstrapStage::Identity { plan } => clear_to_launch(events) && events.contains(
            BootstrapEvent::CredentialsPresent,
        ) && (plan.marker_due || markerless_seed(events)),
        BootstrapStage::Marker { plan } => clear_to_launch(events) && provided_for(events),
        BootstrapStage::Launch => launch_backed(events),
        BootstrapStage::Done => true,
    }
}

/// What the answers have to contain before a Job is created.
pub open spec fn launch_backed(events: Seq<BootstrapEvent>) -> bool {
    &&& clear_to_launch(events)
    &&& provided_for(events)
    &&& events.contains(BootstrapEvent::MarkerStamped) || markerless_seed(events)
}

/// What a run of answers contains, a longer one contains too.
proof fn longer_run_contains(front: Seq<BootstrapEvent>, events: Seq<BootstrapEvent>)
    requires
        events.len() > 0,
        front == events.drop_last(),
    ensures
        forall|e: BootstrapEvent| front.contains(e) ==> #[trigger] events.contains(e),
        events.contains(events.last()),
        job_was_missing(front) ==> job_was_missing(events),
        markerless_seed(front) ==> markerless_seed(events),
{
    assert(events[events.len() - 1] == events.last());
    assert forall|e: BootstrapEvent| front.contains(e) implies #[trigger] events.contains(e) by {
        let k = choose|k: int| 0 <= k < front.len() && front[k] == e;
        assert(events[k] == e);
    }
    if job_was_missing(front) {
        let k = choose|k: int| 0 <= k < front.len() && (#[trigger] front[k]) is JobMissing;
        assert(events[k] is JobMissing);
    }
    if markerless_seed(front) {
        let k = choose|k: int|
            0 <= k < front.len() && (#[trigger] front[k]) is SeedPrepared && !(
            front[k]->seed is Armed && front[k]->seed->marker_due);
        assert(events[k] == front[k]);
    }
}

/// What holds at every stage of a run of events.
proof fn trace_invariant(i: BootstrapInputs, events: Seq<BootstrapEvent>)
    ensures
        bootstrap_trace(i, events).1.len() == events.len(),
        stage_backed(bootstrap_trace(i, events).0, events),
        forall|k: int|
            0 <= k < bootstrap_trace(i, events).1.len() && (#[trigger] bootstrap_trace(
                i,
                events,
            ).1[k]) is CreateJob ==> launch_backed(events),
    decreases events.len(),
{
    if events.len() > 0 {
        let front = events.drop_last();
        trace_invariant(i, front);
        longer_run_contains(front, events);
        let (stage, actions) = bootstrap_trace(i, front);
        let all = bootstrap_trace(i, events).1;
        let last = events.len() - 1;
        assert(events[last] == events.last());
        assert forall|k: int|
            0 <= k < all.len() && (#[trigger] all[k]) is CreateJob implies launch_backed(
            events,
        ) by {
            if k < actions.len() {
                assert(all[k] == actions[k]);
                assert(launch_backed(front));
            }
        }
    }
}

/// What is done at a step depends on the answers up to it alone.
proof fn later_answers_change_nothing(i: BootstrapInputs, events: Seq<BootstrapEvent>, k: int)
    requires
        0 <= k < events.len(),
    ensures
        bootstrap_trace(i, events).1.len() == events.len(),
        bootstrap_trace(i, events.take(k + 1)).1.len() == k + 1,
        bootstrap_trace(i, events.take(k + 1)).1[k] == bootstrap_trace(i, events).1[k],
    decreases events.len(),
{
    trace_invariant(i, events);
    trace_invariant(i, events.take(k + 1));
    if k + 1 == events.len() {
        assert(events.take(k + 1) =~= events);
    } else {
        let front = events.drop_last();
        later_answers_change_nothing(i, front, k);
        assert(front.take(k + 1) =~= events.take(k + 1));
        assert(bootstrap_trace(i, events).1[k] == bootstrap_trace(i, front).1[k]);
    }
}

/// What the answers up to the creation of a Job contain.
proof fn launch_is_backed(i: BootstrapInputs, events: Seq<BootstrapEvent>, k: int)
    requires
        0 <= k < bootstrap_trace(i, events).1.len(),
        bootstrap_trace(i, events).1[k] is CreateJob,
    ensures
        k < events.len(),
        launch_backed(events.take(k + 1)),
{
    trace_invariant(i, events);
    later_answers_change_nothing(i, events, k);
    trace_invariant(i, events.take(k + 1));
}

/// Two movers never run against one repository: whatever the answers, a Job is
/// created only after the Job was found missing and the former Job gone.
pub proof fn no_two_movers(i: BootstrapInputs, events: Seq<BootstrapEvent>, k: int)
    requires
        0 <= k < bootstrap_trace(i, events).1.len(),
        bootstrap_trace(i, events).1[k] is CreateJob,
    ensures
        clear_to_launch(events.take(k + 1)),
{
    launch_is_backed(i, events, k);
}

/// A Job is created only after its Secrets were found and its identity was put
/// in place.
pub proof fn launch_is_provided_for(i: BootstrapInputs, events: Seq<BootstrapEvent>, k: int)
    requires
        0 <= k < bootstrap_trace(i, events).1.len(),
        bootstrap_trace(i, events).1[k] is CreateJob,
    ensures
        provided_for(events.take(k + 1)),
{
    launch_is_backed(i, events, k);
}

/// A seed's attempt is marked before its Job exists: where no answer was a
/// seed without a mark to set, a Job is created only after the mark was set.
pub proof fn marker_goes_before_the_job(i: BootstrapInputs, events: Seq<BootstrapEvent>, k: int)
    requires
        0 <= k < bootstrap_trace(i, events).1.len(),
        bootstrap_trace(i, events).1[k] is CreateJob,
        !markerless_seed(events.take(k + 1)),
    ensures
        events.take(k + 1).contains(BootstrapEvent::MarkerStamped),
{
    launch_is_backed(i, events, k);
}

/// Whether every seed among the answers was prepared like this.
pub open spec fn seeds_are(events: Seq<BootstrapEvent>, seed: SeedPreparation) -> bool {
    forall|k: int|
        0 <= k < events.len() && (#[trigger] events[k]) is SeedPrepared ==> events[k]->seed == seed
}

/// No seeding Job exists without a start on record: when it is created, the
/// marker that bears the start was stamped, or the status holds a start and
/// nothing in it was to change. A status that holds an end holds a start too.
pub proof fn seeding_job_has_a_start(
    i: BootstrapInputs,
    events: Seq<BootstrapEvent>,
    k: int,
    existing: Option<SeedStatusView>,
    mode: SeedMode,
    source: Seq<char>,
    now: Seq<char>,
    projected: u64,
)
    requires
        0 <= k < bootstrap_trace(i, events).1.len(),
        bootstrap_trace(i, events).1[k] is CreateJob,
        seeds_are(events.take(k + 1), seed_prepared(existing, mode, source, now, projected)),
        now.len() > 0,
        existing is Some && filled(existing->0.seeded_at) ==> filled(existing->0.started_at),
    ensures
        match marker_of(existing, mode, source, now) {
            Some(marker) => filled(marker.started_at) && events.take(k + 1).contains(
                BootstrapEvent::MarkerStamped,
            ),
            None => existing is Some && filled(existing->0.started_at),
        },
{
    launch_is_backed(i, events, k);
}

/// A pass that failed creates nothing more.
pub proof fn failure_ends_the_pass(
    i: BootstrapInputs,
    stage: BootstrapStage,
    event: BootstrapEvent,
)
    ensures
        !(stage is Done) ==> bootstrap_next(i, stage, BootstrapEvent::Failed) == (
            BootstrapStage::Done,
            BootstrapAction::Fail,
        ),
        bootstrap_next(i, BootstrapStage::Done, event) == (
            BootstrapStage::Done,
            BootstrapAction::Ignore,
        ),
{
}

/// A probe terminates: once its Job was launched, the finished Job is
/// reflected into the status, and recycled only for another reason.
pub proof fn awaited_probe_is_finalized(
    i: BootstrapInputs,
    terminal: MoverJobTerminal,
    deadline_secs: Option<i64>,
)
    requires
        i.probe == ProbeAction::AwaitingResult,
        !i.reverify,
    ensures
        bootstrap_next(
            i,
            BootstrapStage::Observe,
            BootstrapEvent::JobFinished {
                stale: false,
                recycle_due: false,
                terminal,
                deadline_secs,
            },
        ).1 is FinalizeJob,
{
}

/// A finished Job is read as a probe only where a probe is awaited, the spec
/// stands as observed and no strict re-probe was asked for.
pub proof fn strict_results_stay_strict(
    i: BootstrapInputs,
    stage: BootstrapStage,
    event: BootstrapEvent,
)
    ensures
        bootstrap_next(i, stage, event).1 matches BootstrapAction::FinalizeJob { probe_run: p, .. }
            && p ==> i.probe == ProbeAction::AwaitingResult && i.generation
            == i.observed_generation && !i.reverify,
{
}

/// A running Job never moves a repository out of `Ready`.
pub proof fn running_job_keeps_ready(
    i: BootstrapInputs,
    stage: BootstrapStage,
    event: BootstrapEvent,
)
    requires
        already_ready(i),
    ensures
        bootstrap_next(i, stage, event).1 matches BootstrapAction::AwaitJob { write_phase, .. }
            ==> !write_phase,
{
}

/// A launch that catalog work asked for is never a mere probe, and neither is
/// the launch of a repository that was never bootstrapped.
pub proof fn catalog_work_is_never_a_probe(
    i: BootstrapInputs,
    create_due: bool,
    seed: SeedPreparation,
)
    requires
        create_due || !bootstrapped_before(i) || !already_ready(i),
    ensures
        bootstrap_next(
            i,
            BootstrapStage::Seed { create_due },
            BootstrapEvent::SeedPrepared { seed },
        ).0 matches BootstrapStage::Credentials { plan } ==> !plan.probe_only,
{
}

/// A spec change is never held off.
pub proof fn spec_change_bypasses_holdoff(
    i: BootstrapInputs,
    stage: BootstrapStage,
    event: BootstrapEvent,
)
    requires
        spec_changed(i),
    ensures
        !(bootstrap_next(i, stage, event).1 is HoldOff),
{
}

/// A seed that is held back launches nothing.
pub proof fn parked_seed_launches_nothing(i: BootstrapInputs, create_due: bool)
    ensures
        bootstrap_next(
            i,
            BootstrapStage::Seed { create_due },
            BootstrapEvent::SeedPrepared { seed: SeedPreparation::Parked },
        ) == (
            BootstrapStage::Done,
            BootstrapAction::ParkOnSeed { requeue_secs: SEED_PARK_REQUEUE_SECS },
        ),
{
}

/// A finished Job is finalized by how it ended: the terminal state that was
/// read is the one handed on, with the Job's own deadline where it names one
/// and the base deadline where it does not. It is read as a probe exactly where
/// a probe was awaited of a spec that stands as observed.
pub proof fn finished_job_is_finalized_by_how_it_ended(
    i: BootstrapInputs,
    stage: BootstrapStage,
    event: BootstrapEvent,
)
    ensures
        bootstrap_next(i, stage, event).1 matches BootstrapAction::FinalizeJob {
            terminal,
            deadline_secs,
            probe_run: as_probe,
        } ==> {
            &&& stage is Observe
            &&& event is JobFinished
            &&& terminal == event->JobFinished_terminal
            &&& event->JobFinished_deadline_secs is Some ==> deadline_secs
                == event->JobFinished_deadline_secs->0
            &&& event->JobFinished_deadline_secs is None ==> deadline_secs == i.base_deadline_secs
            &&& !event->JobFinished_stale && !event->JobFinished_recycle_due
            &&& !i.reverify && i.probe != ProbeAction::Launch
            &&& as_probe <==> i.probe == ProbeAction::AwaitingResult && i.generation
                == i.observed_generation
            &&& bootstrap_next(i, stage, event).0 is Done
        },
{
}

/// A finished Job is dealt with at once: it is recycled where it is stale,
/// where a fresh result was asked for, or where the catalog wants a fresh one,
/// and finalized in every other case. No other Job is recycled.
pub proof fn finished_job_is_recycled_or_finalized(
    i: BootstrapInputs,
    stage: BootstrapStage,
    event: BootstrapEvent,
)
    ensures
        ({
            let (next, action) = bootstrap_next(i, stage, event);
            let outdated = event->JobFinished_stale || event->JobFinished_recycle_due || i.reverify
                || i.probe == ProbeAction::Launch;
            &&& stage is Observe && event is JobFinished && outdated ==> action
                == (BootstrapAction::RecycleJob { requeue_secs: 5 }) && next is Done
            &&& stage is Observe && event is JobFinished && !outdated ==> action is FinalizeJob
            &&& action is RecycleJob ==> stage is Observe && event is JobFinished && outdated
        }),
{
}

/// A running Job is waited for, and nothing but a running Job: its phase is
/// written unless the repository is `Ready`, its progress where it seeds.
pub proof fn running_job_is_awaited(
    i: BootstrapInputs,
    stage: BootstrapStage,
    event: BootstrapEvent,
)
    ensures
        ({
            let (next, action) = bootstrap_next(i, stage, event);
            &&& action is AwaitJob <==> stage is Observe && event is JobRunning
            &&& action matches BootstrapAction::AwaitJob {
                write_phase,
                write_seeding,
                requeue_secs,
            } ==> {
                &&& write_phase <==> i.prior_phase != Some(RepositoryPhase::Ready)
                &&& write_seeding == i.seed_armed
                &&& requeue_secs == 15
                &&& next is Done
            }
        }),
{
}

/// A missing Job is launched where anything asks for it: a re-probe, a probe or
/// the catalog. Only a retry of an unchanged spec is held off, for as long as
/// it was told; where nothing asks, the repository is kept steady.
pub proof fn missing_job_is_launched_where_asked_for(
    i: BootstrapInputs,
    stage: BootstrapStage,
    event: BootstrapEvent,
)
    ensures
        ({
            let (next, action) = bootstrap_next(i, stage, event);
            let asked = i.reverify || i.probe == ProbeAction::Launch
                || event->JobMissing_create_due;
            let held = i.generation == i.observed_generation && event->JobMissing_holdoff_secs
                is Some;
            &&& action is KeepSteady <==> stage is Observe && event is JobMissing && !asked
            &&& action is HoldOff <==> stage is Observe && event is JobMissing && asked && held
            &&& action is CheckLegacyJob <==> stage is Observe && event is JobMissing && asked
                && !held
            &&& action matches BootstrapAction::HoldOff { secs } ==> Some(secs)
                == event->JobMissing_holdoff_secs
            &&& action is KeepSteady || action is HoldOff ==> next is Done
            &&& action is CheckLegacyJob ==> next == (BootstrapStage::Legacy {
                create_due: event->JobMissing_create_due,
            })
        }),
{
}

/// The steps of a launch follow each other: the former Job, the authority, the
/// seed, the Secrets, the identity, the marker, the Job and its record. Each is
/// taken on the answer to the one before and on no other, and what was planned
/// is handed on unchanged.
pub proof fn launch_takes_its_steps_in_order(
    i: BootstrapInputs,
    stage: BootstrapStage,
    event: BootstrapEvent,
)
    ensures
        ({
            let (next, action) = bootstrap_next(i, stage, event);
            &&& action is ReadAuthority <==> stage is Legacy && event
                == (BootstrapEvent::LegacyChecked { cleared: true })
            &&& action is AwaitLegacyJob <==> stage is Legacy && event
                == (BootstrapEvent::LegacyChecked { cleared: false })
            &&& action is PrepareSeed <==> stage is Authority && event is AuthorityRead
            &&& action is ParkOnSeed <==> stage is Seed && event
                == (BootstrapEvent::SeedPrepared { seed: SeedPreparation::Parked })
            &&& action is CheckCredentials <==> stage is Seed && event is SeedPrepared && event->seed
                != SeedPreparation::Parked
            &&& action is EnsureIdentity <==> stage is Credentials && event is CredentialsPresent
            &&& action is StampMarker <==> stage is Identity && event is IdentityEnsured
                && stage->Identity_plan.marker_due
            &&& action is CreateJob <==> {
                ||| stage is Identity && event is IdentityEnsured && !stage->Identity_plan.marker_due
                ||| stage is Marker && event is MarkerStamped
            }
            &&& action is RecordLaunch <==> stage is Launch && event is JobCreated
            &&& action is ReadAuthority ==> next == (BootstrapStage::Authority {
                create_due: stage->Legacy_create_due,
            })
            &&& action is PrepareSeed ==> next == (BootstrapStage::Seed {
                create_due: stage->Authority_create_due,
            })
            &&& action is CheckCredentials ==> next is Credentials
            &&& action is EnsureIdentity ==> next == (BootstrapStage::Identity {
                plan: stage->Credentials_plan,
            })
            &&& action is StampMarker ==> next == (BootstrapStage::Marker {
                plan: stage->Identity_plan,
            })
            &&& action matches BootstrapAction::CreateJob { probe_only } ==> next is Launch
                && probe_only == (if stage is Identity {
                stage->Identity_plan.probe_only
            } else {
                stage->Marker_plan.probe_only
            })
            &&& action is AwaitLegacyJob || action is ParkOnSeed || action is RecordLaunch ==> next
                is Done
            &&& action matches BootstrapAction::AwaitLegacyJob { requeue_secs } ==> requeue_secs
                == 5
            &&& action matches BootstrapAction::ParkOnSeed { requeue_secs } ==> requeue_secs == 15
            &&& action matches BootstrapAction::RecordLaunch { requeue_secs } ==> requeue_secs
                == 15
        }),
{
}

/// What a launch plans: it is a mere probe exactly where probes are enabled,
/// the repository was bootstrapped and is `Ready`, and neither a re-probe, a
/// changed spec nor the catalog wants more; an armed seed decides whether its
/// attempt is marked and how many Secrets are counted, and no other seed does.
pub proof fn launch_is_planned_from_its_seed(
    i: BootstrapInputs,
    create_due: bool,
    seed: SeedPreparation,
)
    requires
        seed != SeedPreparation::Parked,
    ensures
        ({
            let next = bootstrap_next(
                i,
                BootstrapStage::Seed { create_due },
                BootstrapEvent::SeedPrepared { seed },
            ).0;
            &&& next is Credentials
            &&& next->Credentials_plan.probe_only <==> i.probe_enabled && i.unique_id is Some
                && i.prior_phase == Some(RepositoryPhase::Ready) && !i.reverify && i.generation
                == i.observed_generation && !create_due
            &&& seed matches SeedPreparation::Armed { marker_due, projected } ==> {
                &&& next->Credentials_plan.marker_due == marker_due
                &&& next->Credentials_plan.projected == projected
            }
            &&& seed is NotArmed ==> !next->Credentials_plan.marker_due
                && next->Credentials_plan.projected == 0
        }),
{
}

/// Secrets that were copied in are counted, and nothing else is.
pub proof fn copied_secrets_are_counted(i: BootstrapInputs, plan: LaunchPlan)
    ensures
        ({
            let action = bootstrap_next(
                i,
                BootstrapStage::Credentials { plan },
                BootstrapEvent::CredentialsPresent,
            ).1;
            &&& action is EnsureIdentity
            &&& plan.projected > 0 ==> action->count_projected == Some(plan.projected)
            &&& plan.projected == 0 ==> action->count_projected is None
        }),
{
}

/// An answer that belongs to another stage changes nothing, and a pass that is
/// not over fails on no answer but a failure.
pub proof fn stray_answer_changes_nothing(
    i: BootstrapInputs,
    stage: BootstrapStage,
    event: BootstrapEvent,
)
    ensures
        bootstrap_next(i, stage, event).1 is Ignore ==> bootstrap_next(i, stage, event).0 == stage,
        bootstrap_next(i, stage, event).1 is Fail <==> event is Failed && !(stage is Done),
{
}

/// A launch that nothing stands in the way of is carried out: the answers that
/// it asks for lead to its Job and to the record of it, with the mark of an
/// armed seed where one is due.
pub proof fn unhindered_launch_creates_its_job(
    i: BootstrapInputs,
    create_due: bool,
    seed: SeedPreparation,
)
    requires
        i.reverify || i.probe == ProbeAction::Launch || create_due,
        seed != SeedPreparation::Parked,
    ensures
        ({
            let ready = seq![
                BootstrapEvent::JobMissing { create_due, holdoff_secs: None },
                BootstrapEvent::LegacyChecked { cleared: true },
                BootstrapEvent::AuthorityRead,
                BootstrapEvent::SeedPrepared { seed },
                BootstrapEvent::CredentialsPresent,
                BootstrapEvent::IdentityEnsured,
            ];
            let asked = if seed is Armed && seed->marker_due {
                ready.push(BootstrapEvent::MarkerStamped)
            } else {
                ready
            };
            let (stage, actions) = bootstrap_trace(i, asked);
            let (end, all) = bootstrap_trace(i, asked.push(BootstrapEvent::JobCreated));
            &&& stage is Launch
            &&& actions.last() is CreateJob
            &&& seed is Armed && seed->marker_due ==> bootstrap_trace(i, ready).1.last()
                is StampMarker
            &&& end is Done
            &&& all.last() is RecordLaunch
        }),
{
    let e0 = BootstrapEvent::JobMissing { create_due, holdoff_secs: None };
    let e1 = BootstrapEvent::LegacyChecked { cleared: true };
    let e2 = BootstrapEvent::AuthorityRead;
    let e3 = BootstrapEvent::SeedPrepared { seed };
    let e4 = BootstrapEvent::CredentialsPresent;
    let e5 = BootstrapEvent::IdentityEnsured;
    let s0 = Seq::<BootstrapEvent>::empty();
    let s1 = s0.push(e0);
    let s2 = s1.push(e1);
    let s3 = s2.push(e2);
    let s4 = s3.push(e3);
    let s5 = s4.push(e4);
    let s6 = s5.push(e5);
    assert(bootstrap_trace(i, s0).0 is Observe);
    one_more_answer(i, s0, e0);
    one_more_answer(i, s1, e1);
    one_more_answer(i, s2, e2);
    one_more_answer(i, s3, e3);
    one_more_answer(i, s4, e4);
    one_more_answer(i, s5, e5);
    one_more_answer(i, s6, BootstrapEvent::MarkerStamped);
    one_more_answer(i, s6, BootstrapEvent::JobCreated);
    one_more_answer(i, s6.push(BootstrapEvent::MarkerStamped), BootstrapEvent::JobCreated);
    assert(seq![e0, e1, e2, e3, e4, e5] =~= s6);
}

/// One more answer takes one more step.
proof fn one_more_answer(i: BootstrapInputs, events: Seq<BootstrapEvent>, event: BootstrapEvent)
    ensures
        bootstrap_trace(i, events.push(event)).0 == bootstrap_next(
            i,
            bootstrap_trace(i, events).0,
            event,
        ).0,
        bootstrap_trace(i, events.push(event)).1 == bootstrap_trace(i, events).1.push(
            bootstrap_next(i, bootstrap_trace(i, events).0, event).1,
        ),
{
    assert(events.push(event).drop_last() =~= events);
}

/// What the launch of a Job records.
pub struct LaunchRecord {
    pub backend: String,
    pub launch_phase: RepositoryPhase,
    pub reverify_token: Option<String>,
    /// A probe attempt was stamped before.
    pub probe_stamped: bool,
    /// The launch is due to a scan request.
    pub scan_requested: bool,
    pub now: String,
}

/// The status patch that records a launch.
pub open spec fn launch_patch(i: BootstrapInputs, r: LaunchRecord) -> StatusPatchView {
    StatusPatchView {
        phase: if probe_style_launch(i) {
            None
        } else {
            Some(phase_word(r.launch_phase))
        },
        backend: Some(r.backend@),
        last_reverify_at: opt_text(r.reverify_token),
        health: if i.probe_enabled || r.probe_stamped {
            Some(
                HealthPatchView::ProbeAttempt(
                    if probe_style_launch(i) {
                        Some(r.now@)
                    } else {
                        None
                    },
                ),
            )
        } else {
            None
        },
        catalog: if r.scan_requested {
            Some(
                CatalogPatchView {
                    discovered_backup_count: None,
                    foreign_snapshot_count: None,
                    last_refresh_at: None,
                    scan_request_honored: None,
                    scan_request_attempt_at: Some(r.now@),
                },
            )
        } else {
            None
        },
        ..no_patch()
    }
}

/// The status patch that records a launch: a probe keeps the phase and stamps
/// its attempt, any other launch writes its phase and clears a stale stamp.
pub fn launch_status(i: &BootstrapInputs, r: &LaunchRecord) -> (patch: StatusPatch)
    ensures
        patch@ == launch_patch(*i, *r),
{
    let probe = i.is_probe_style_launch();
    let mut patch = StatusPatch::new();
    if !probe {
        patch.phase = Some(r.launch_phase.label());
    }
    patch.backend = Some(r.backend.clone());
    patch.last_reverify_at = copy_opt(&r.reverify_token);
    if i.probe_enabled || r.probe_stamped {
        let stamp = if probe {
            Some(r.now.clone())
        } else {
            None
        };
        patch.health = Some(HealthPatch::ProbeAttempt(stamp));
    }
    if r.scan_requested {
        patch.catalog = Some(
            CatalogPatch {
                discovered_backup_count: None,
                foreign_snapshot_count: None,
                last_refresh_at: None,
                scan_request_honored: None,
                scan_request_attempt_at: Some(r.now.clone()),
            },
        );
    }
    proof {
        assert(patch@ =~= launch_patch(*i, *r));
    }
    patch
}

/// A launch that is no probe leaves no attempt stamp behind, so that its
/// result is not taken for a probe's.
pub proof fn strict_launch_clears_the_stamp(i: BootstrapInputs, r: LaunchRecord)
    requires
        !probe_style_launch(i),
        r.probe_stamped,
    ensures
        launch_patch(i, r).health == Some(HealthPatchView::ProbeAttempt(None)),
{
}

/// A probe keeps the phase while it connects.
pub proof fn probe_launch_keeps_the_phase(i: BootstrapInputs, r: LaunchRecord)
    requires
        probe_style_launch(i),
    ensures
        launch_patch(i, r).phase is None,
        launch_patch(i, r).health == Some(HealthPatchView::ProbeAttempt(Some(r.now@))),
{
}

/// What the record of a launch names: the backend, the token that asked for it
/// and, for a launch that is no probe, the phase. A probe attempt is stamped or
/// cleared where probes are enabled or one was stamped, and a scan's attempt
/// exactly where a scan was asked for; nothing else of the status is touched.
pub proof fn launch_records_its_own_keys(i: BootstrapInputs, r: LaunchRecord)
    ensures
        ({
            let p = launch_patch(i, r);
            let probe = i.probe_enabled && i.unique_id is Some && i.prior_phase == Some(
                RepositoryPhase::Ready,
            ) && !i.reverify && i.generation == i.observed_generation;
            &&& p.backend == Some(r.backend@)
            &&& p.last_reverify_at == opt_text(r.reverify_token)
            &&& probe ==> p.phase is None
            &&& !probe ==> p.phase == Some(phase_word(r.launch_phase))
            &&& p.health is Some <==> i.probe_enabled || r.probe_stamped
            &&& p.health is Some ==> p.health->0 == HealthPatchView::ProbeAttempt(
                if probe {
                    Some(r.now@)
                } else {
                    None
                },
            )
            &&& p.catalog is Some <==> r.scan_requested
            &&& p.catalog is Some ==> {
                &&& p.catalog->0.scan_request_attempt_at == Some(r.now@)
                &&& p.catalog->0.scan_request_honored is None
                &&& p.catalog->0.last_refresh_at is None
                &&& p.catalog->0.discovered_backup_count is None
                &&& p.catalog->0.foreign_snapshot_count is None
            }
            &&& p.unique_id is None && p.observed_generation is None && p.conditions is None
            &&& p.allowed_namespace_count is None && p.resolved_credential_version is None
            &&& p.storage_stats is None && p.parameters is None && p.seed is None
        }),
{
}

/// A seed that was armed is marked exactly where there is a marker to stamp,
/// and as many Secrets are counted as were copied in for it.
pub proof fn armed_seed_is_marked_where_due(
    existing: Option<SeedStatusView>,
    mode: SeedMode,
    source: Seq<char>,
    now: Seq<char>,
    projected: u64,
)
    requires
        now.len() > 0,
    ensures
        ({
            let seed = seed_prepared(existing, mode, source, now, projected);
            let finished = existing is Some && filled(existing->0.seeded_at);
            let on_record = existing is Some && filled(existing->0.started_at) && existing->0.mode
                == Some(mode) && existing->0.source == Some(source);
            &&& seed is Armed
            &&& seed->marker_due <==> !finished && !on_record
            &&& seed->projected == projected
        }),
{
}

} // verus!
