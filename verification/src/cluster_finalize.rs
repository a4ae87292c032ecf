//! A finished bootstrap of a `ClusterRepository`, reflected into its status:
//! the healthy fold, and every way a failure is written down.
use crate::bootstrap::{
    phase_outcome, phase_word, ready_outcome_for_phase, route_of, BootstrapFailure,
    BootstrapOutcome, BootstrapOutcomeView, FailureRoute, RepositoryPhase,
};
use crate::conditions::{
    condition_of, ready_folded, set_ready, upsert_condition, upserted, views, Condition,
    ConditionView, ReadyOutcome,
};
use crate::seed::{
    copy_opt, drop_seed_condition, folded_status, merge_seed_status, opt_seed, seed_condition_fold, seed_mode_of,
    seed_folded, seed_success_fold, seeded_text, already_initialized_text, SeedMode, SeedOutcome,
    SeedOutcomeLabel, SeedStatus, SeedSuccess, ADOPT_HISTORY_ADVICE, ALREADY_INITIALIZED_REASON,
    SEEDED_CONDITION, SEEDED_REASON,
};
use crate::conditions::without;
use crate::status::{
    no_patch, HealthPatch, HealthPatchView, Parameters, ParametersView, StatusPatch,
    StatusPatchView, StorageStats,
};
use crate::text::{opt_str, opt_text, same_text};
use vstd::prelude::*;
use vstd::string::StringExecFns;

verus! {

/// `type` of the condition that records how a bootstrap went.
pub const REPOSITORY_BOOTSTRAPPED_CONDITION: &'static str = "Bootstrapped";

/// How soon a repository whose bootstrap failed is looked at again, in
/// seconds.
pub const FAILED_REQUEUE_SECS: u64 = 120;

/// How soon a result that cannot be read yet is looked at again, in seconds.
pub const RESULT_PENDING_REQUEUE_SECS: u64 = 5;

/// What the status writers read of a repository.
pub struct RepositoryState {
    pub generation: Option<i64>,
    pub phase: Option<RepositoryPhase>,
    pub unique_id: Option<String>,
    pub conditions: Vec<Condition>,
    pub seed: Option<SeedStatus>,
}

/// Writes the `Bootstrapped` condition over a repository's own.
pub fn cluster_bootstrap_condition(
    repo: &RepositoryState,
    status: bool,
    reason: &str,
    message: &str,
    now: &str,
) -> (out: Vec<Condition>)
    ensures
        views(out@) == upserted(
            views(repo.conditions@),
            condition_of(
                REPOSITORY_BOOTSTRAPPED_CONDITION@,
                status,
                reason@,
                message@,
                repo.generation,
                now@,
            ),
        ),
{
    upsert_condition(
        &repo.conditions,
        REPOSITORY_BOOTSTRAPPED_CONDITION,
        status,
        reason,
        message,
        repo.generation,
        now,
    )
}

/// Which namespaces may use a repository.
pub enum AllowedNamespaces {
    List(Vec<String>),
    All(bool),
    Selector,
}

/// How many namespaces a gate admits: the length of a list, -1 for all of
/// them, and 0 where none is named or a selector would have to be evaluated.
pub open spec fn namespace_count(allowed: AllowedNamespaces) -> int {
    match allowed {
        AllowedNamespaces::List(ns) => ns@.len() as int,
        AllowedNamespaces::All(all) => if all { -1 } else { 0 },
        AllowedNamespaces::Selector => 0,
    }
}

/// How many namespaces a gate admits, as far as it says.
pub fn allowed_namespace_count(allowed: &AllowedNamespaces) -> (count: i64)
    requires
        namespace_count(*allowed) <= i64::MAX,
    ensures
        count == namespace_count(*allowed),
{
    match allowed {
        AllowedNamespaces::List(ns) => ns.len() as i64,
        AllowedNamespaces::All(all) => if *all { -1 } else { 0 },
        AllowedNamespaces::Selector => 0,
    }
}

/// What a successful bootstrap reported.
pub struct BootstrapResult {
    pub created: bool,
    pub unique_id: Option<String>,
    /// Absent where the listing did not run.
    pub snapshot_count: Option<i64>,
    pub index_blob_count: Option<i64>,
    pub epoch: Option<String>,
    pub blob_retention: Option<String>,
    /// Why the parameters of the spec were not applied.
    pub parameters_error: Option<String>,
    pub seed: Option<SeedOutcome>,
}

/// What is said of a repository that is up.
pub open spec fn connected_text(created: bool) -> Seq<char> {
    if created {
        "created a new repository"@
    } else {
        "connected to the existing repository"@
    }
}

fn connected_message(created: bool) -> (message: &'static str)
    ensures
        message@ == connected_text(created),
{
    if created {
        "created a new repository"
    } else {
        "connected to the existing repository"
    }
}

/// The first conditions of a healthy finalize: `Bootstrapped` is true.
pub fn finalize_conditions(repo: &RepositoryState, created: bool, now: &str) -> (out: Vec<
    Condition,
>)
    ensures
        views(out@) == upserted(
            views(repo.conditions@),
            condition_of(
                REPOSITORY_BOOTSTRAPPED_CONDITION@,
                true,
                "Bootstrapped"@,
                connected_text(created),
                repo.generation,
                now@,
            ),
        ),
{
    cluster_bootstrap_condition(repo, true, "Bootstrapped", connected_message(created), now)
}

/// The storage figures of a result: each is written only where it was taken.
pub fn finalize_storage_stats(result: &BootstrapResult) -> (stats: StorageStats)
    ensures
        stats.snapshot_count == result.snapshot_count,
        stats.index_blob_count == result.index_blob_count,
        stats.total_size_bytes is None,
{
    StorageStats {
        snapshot_count: result.snapshot_count,
        index_blob_count: result.index_blob_count,
        total_size_bytes: None,
    }
}

/// The conditions of a healthy finalize, after the other folds: the seed's
/// story (or none), then the standard conditions of a ready repository.
pub open spec fn healthy_conditions(
    folded: Seq<ConditionView>,
    generation: Option<i64>,
    result: BootstrapResult,
    now: Seq<char>,
) -> Seq<ConditionView> {
    let seeded = match result.seed {
        Some(outcome) => upserted(
            folded,
            condition_of(
                SEEDED_CONDITION@,
                true,
                if outcome.performed {
                    SEEDED_REASON@
                } else {
                    ALREADY_INITIALIZED_REASON@
                },
                if outcome.performed {
                    seeded_text(outcome)
                } else {
                    already_initialized_text(outcome)
                },
                generation,
                now,
            ),
        ),
        None => without(folded, SEEDED_CONDITION@),
    };
    ready_folded(
        seeded,
        generation,
        ReadyOutcome::Ready,
        "Bootstrapped"@,
        connected_text(result.created),
        now,
    )
}

/// The identity a finalize writes: a probe never rebinds one that is pinned.
pub open spec fn finalized_identity(
    pinned: Option<Seq<char>>,
    observed: Option<Seq<char>>,
    probe_run: bool,
) -> Option<Seq<char>> {
    if probe_run && pinned is Some {
        pinned
    } else {
        observed
    }
}

/// The status patch of a healthy finalize.
pub open spec fn healthy_patch(
    repo: RepositoryState,
    backend: Seq<char>,
    result: BootstrapResult,
    probe_run: bool,
    allowed_count: i64,
    folded: Seq<ConditionView>,
    health: Option<Seq<char>>,
    now: Seq<char>,
) -> StatusPatchView {
    StatusPatchView {
        phase: Some("Ready"@),
        observed_generation: Some(repo.generation),
        backend: Some(backend),
        unique_id: Some(
            finalized_identity(opt_text(repo.unique_id), opt_text(result.unique_id), probe_run),
        ),
        allowed_namespace_count: Some(allowed_count),
        storage_stats: Some(
            StorageStats {
                snapshot_count: result.snapshot_count,
                index_blob_count: result.index_blob_count,
                total_size_bytes: None,
            },
        ),
        conditions: Some(healthy_conditions(folded, repo.generation, result, now)),
        parameters: if result.epoch is Some || result.blob_retention is Some {
            Some(
                ParametersView {
                    epoch: opt_text(result.epoch),
                    blob_retention: opt_text(result.blob_retention),
                },
            )
        } else {
            None
        },
        health: match health {
            Some(h) => Some(HealthPatchView::Fold(h)),
            None => None,
        },
        seed: match result.seed {
            Some(outcome) => Some(folded_status(outcome, opt_seed(repo.seed), now)),
            None => None,
        },
        ..no_patch()
    }
}

/// What a healthy finalize writes, and what it says of the seed.
pub struct FinalizePlan {
    pub patch: StatusPatch,
    pub seed_fold: Option<SeedSuccess>,
}

/// Plans the status write of a healthy finalize. `folded` are the conditions
/// of [`finalize_conditions`] after the index, probe and deletion folds, and
/// `health` the probe fold, where there was one.
pub fn finalize_cluster_bootstrap(
    repo: &RepositoryState,
    backend: &str,
    result: &BootstrapResult,
    probe_run: bool,
    allowed_count: i64,
    folded: &Vec<Condition>,
    health: &Option<String>,
    now: &str,
) -> (plan: FinalizePlan)
    ensures
        plan.patch@ == healthy_patch(
            *repo,
            backend@,
            *result,
            probe_run,
            allowed_count,
            views(folded@),
            opt_text(*health),
            now@,
        ),
        plan.seed_fold is Some <==> result.seed is Some,
        result.seed is Some ==> {
            let outcome = result.seed->0;
            let fold = plan.seed_fold->0;
            &&& fold.status@ == folded_status(outcome, opt_seed(repo.seed), now@)
            &&& outcome.performed ==> fold.outcome == SeedOutcomeLabel::Seeded && opt_text(
                fold.event,
            ) == Some(seeded_text(outcome) + ADOPT_HISTORY_ADVICE@)
            &&& !outcome.performed ==> fold.outcome == SeedOutcomeLabel::AlreadyInitialized
                && fold.event is None
        },
{
    let seed_fold = match &result.seed {
        Some(outcome) => Some(seed_success_fold(outcome, &repo.seed, now)),
        None => None,
    };
    let seeded = match &seed_fold {
        Some(fold) => upsert_condition(
            folded,
            SEEDED_CONDITION,
            true,
            fold.reason,
            fold.message.as_str(),
            repo.generation,
            now,
        ),
        None => drop_seed_condition(folded),
    };
    let conditions = set_ready(
        &seeded,
        repo.generation,
        ReadyOutcome::Ready,
        "Bootstrapped",
        connected_message(result.created),
        now,
    );
    let mut patch = StatusPatch::new();
    patch.phase = Some("Ready".to_owned());
    patch.observed_generation = Some(repo.generation);
    patch.backend = Some(backend.to_owned());
    patch.unique_id = Some(copy_opt(&result.unique_id));
    patch.allowed_namespace_count = Some(allowed_count);
    patch.storage_stats = Some(finalize_storage_stats(result));
    patch.conditions = Some(conditions);
    if result.epoch.is_some() || result.blob_retention.is_some() {
        patch.parameters = Some(
            Parameters {
                epoch: copy_opt(&result.epoch),
                blob_retention: copy_opt(&result.blob_retention),
            },
        );
    }
    if let Some(h) = health {
        patch.health = Some(HealthPatch::Fold(h.clone()));
    }
    if probe_run && repo.unique_id.is_some() {
        patch.unique_id = Some(copy_opt(&repo.unique_id));
    }
    if let Some(fold) = &seed_fold {
        let mut seed: Option<SeedStatus> = None;
        merge_seed_status(&mut seed, &Some(fold.status.clone()));
        patch.seed = seed;
    }
    proof {
        assert(patch@ =~= healthy_patch(
            *repo,
            backend@,
            *result,
            probe_run,
            allowed_count,
            views(folded@),
            opt_text(*health),
            now@,
        ));
    }
    FinalizePlan { patch, seed_fold }
}

/// What follows the write of a healthy finalize.
#[derive(Clone, Copy, Debug, PartialEq, Eq)]
pub struct FinalizeEffects {
    /// Warn that the parameters of the spec were not applied.
    pub warn_parameters: bool,
    /// Count the seed, announce it, and reap its projected credentials.
    pub announce_seed: Option<(SeedMode, SeedOutcomeLabel)>,
    /// Scan the listing of the result into the catalog.
    pub scan: bool,
    /// Delete the Job, whose result is consumed.
    pub delete_job: bool,
}

/// What follows the write of a healthy finalize: a seed is announced only
/// where the write changed something, a listing is scanned only where one was
/// taken and a scan is due, and a probe consumes its Job.
pub open spec fn finalize_follow_up(
    result: BootstrapResult,
    probe_run: bool,
    wrote: bool,
    scan_due: bool,
) -> FinalizeEffects {
    FinalizeEffects {
        warn_parameters: result.parameters_error is Some,
        announce_seed: match result.seed {
            Some(outcome) => if wrote {
                Some(
                    (
                        outcome.mode,
                        if outcome.performed {
                            SeedOutcomeLabel::Seeded
                        } else {
                            SeedOutcomeLabel::AlreadyInitialized
                        },
                    ),
                )
            } else {
                None
            },
            None => None,
        },
        scan: result.snapshot_count is Some && scan_due,
        delete_job: probe_run,
    }
}

/// What follows the write of a healthy finalize.
pub fn finalize_effects(
    result: &BootstrapResult,
    probe_run: bool,
    wrote: bool,
    scan_due: bool,
) -> (effects: FinalizeEffects)
    ensures
        effects == finalize_follow_up(*result, probe_run, wrote, scan_due),
{
    let announce_seed = match &result.seed {
        Some(outcome) => if wrote {
            let label = if outcome.performed {
                SeedOutcomeLabel::Seeded
            } else {
                SeedOutcomeLabel::AlreadyInitialized
            };
            Some((seed_mode_of(outcome), label))
        } else {
            None
        },
        None => None,
    };
    FinalizeEffects {
        warn_parameters: result.parameters_error.is_some(),
        announce_seed,
        scan: result.snapshot_count.is_some() && scan_due,
        delete_job: probe_run,
    }
}

/// What is done about a failed bootstrap.
#[derive(Clone, Copy, Debug, PartialEq, Eq, Structural)]
pub enum FailureStep {
    ProbeFailure,
    RecycleOutage,
    Recycle { stamp_streak: bool },
    ParkTerminal,
}

/// What is done about a failed bootstrap. The result of a probe goes its own
/// way before any route is taken.
pub open spec fn failure_step(
    failure: crate::bootstrap::BootstrapFailureView,
    bootstrapped: bool,
    probe_run: bool,
) -> FailureStep {
    if probe_run {
        FailureStep::ProbeFailure
    } else {
        match route_of(failure, bootstrapped) {
            FailureRoute::OutageSensor => FailureStep::RecycleOutage,
            FailureRoute::Recycle => FailureStep::Recycle { stamp_streak: true },
            FailureRoute::SeedRetry => FailureStep::Recycle { stamp_streak: false },
            FailureRoute::Terminal => FailureStep::ParkTerminal,
        }
    }
}

/// Decides what is done about a failed bootstrap.
pub fn finalize_cluster_bootstrap_failure(
    repo: &RepositoryState,
    failure: &BootstrapFailure,
    probe_run: bool,
) -> (step: FailureStep)
    ensures
        step == failure_step(failure@, repo.unique_id is Some, probe_run),
{
    if probe_run {
        return FailureStep::ProbeFailure;
    }
    match failure.route(repo.unique_id.is_some()) {
        FailureRoute::OutageSensor => FailureStep::RecycleOutage,
        FailureRoute::Recycle => FailureStep::Recycle { stamp_streak: true },
        FailureRoute::SeedRetry => FailureStep::Recycle { stamp_streak: false },
        FailureRoute::Terminal => FailureStep::ParkTerminal,
    }
}

/// What is done about a finished bootstrap Job.
#[derive(Clone, Copy, Debug, PartialEq, Eq, Structural)]
pub enum FinalizeStep {
    /// The result cannot be read yet: nothing is written, and the Job is
    /// looked at again.
    AwaitResult { requeue_secs: u64 },
    /// The failure is handled.
    HandleFailure { step: FailureStep },
    /// The success is written down.
    WriteSuccess,
}

/// What is done about a finished bootstrap Job.
pub open spec fn step_of_outcome(
    outcome: BootstrapOutcomeView,
    bootstrapped: bool,
    probe_run: bool,
) -> FinalizeStep {
    match outcome {
        BootstrapOutcomeView::ResultPending => FinalizeStep::AwaitResult {
            requeue_secs: RESULT_PENDING_REQUEUE_SECS,
        },
        BootstrapOutcomeView::Failed(failure) => FinalizeStep::HandleFailure {
            step: failure_step(failure, bootstrapped, probe_run),
        },
        BootstrapOutcomeView::Succeeded => FinalizeStep::WriteSuccess,
    }
}

/// Decides what is done about a finished bootstrap Job.
pub fn finalize_step(repo: &RepositoryState, outcome: &BootstrapOutcome, probe_run: bool) -> (step:
    FinalizeStep)
    ensures
        step == step_of_outcome(outcome@, repo.unique_id is Some, probe_run),
{
    match outcome {
        BootstrapOutcome::ResultPending => FinalizeStep::AwaitResult {
            requeue_secs: RESULT_PENDING_REQUEUE_SECS,
        },
        BootstrapOutcome::Failed(failure) => FinalizeStep::HandleFailure {
            step: finalize_cluster_bootstrap_failure(repo, failure, probe_run),
        },
        BootstrapOutcome::Succeeded => FinalizeStep::WriteSuccess,
    }
}

/// Whether the failed Job is deleted: every way but the terminal one consumes
/// it, which leaves its logs to be read.
pub fn failure_consumes_job(step: FailureStep) -> (consumes: bool)
    ensures
        consumes == !(step is ParkTerminal),
{
    match step {
        FailureStep::ParkTerminal => false,
        _ => true,
    }
}

/// How a failure is written down: its reason and message, and its reason as a
/// failure of the seed where it is one.
pub struct FailureText {
    pub reason: String,
    pub message: String,
    pub seed_reason: Option<String>,
}

fn borrowed(o: &Option<String>) -> (b: Option<&str>)
    ensures
        opt_str(b) == opt_text(*o),
{
    match o {
        Some(s) => Some(s.as_str()),
        None => None,
    }
}

/// The conditions of a failed bootstrap: `Bootstrapped` is false, the seed's
/// story follows, and the standard conditions show the phase.
pub open spec fn failed_conditions(
    repo: RepositoryState,
    text: FailureText,
    outcome: ReadyOutcome,
    now: Seq<char>,
) -> Seq<ConditionView> {
    let bootstrapped = upserted(
        views(repo.conditions@),
        condition_of(
            REPOSITORY_BOOTSTRAPPED_CONDITION@,
            false,
            text.reason@,
            text.message@,
            repo.generation,
            now,
        ),
    );
    let seeded = seed_folded(
        bootstrapped,
        repo.generation,
        opt_text(text.seed_reason),
        text.message@,
        now,
    );
    ready_folded(seeded, repo.generation, outcome, text.reason@, text.message@, now)
}

fn failure_conditions(
    repo: &RepositoryState,
    text: &FailureText,
    outcome: ReadyOutcome,
    now: &str,
) -> (out: Vec<Condition>)
    ensures
        views(out@) == failed_conditions(*repo, *text, outcome, now@),
{
    let bootstrapped = cluster_bootstrap_condition(
        repo,
        false,
        text.reason.as_str(),
        text.message.as_str(),
        now,
    );
    let seeded = seed_condition_fold(
        repo.generation,
        borrowed(&text.seed_reason),
        text.message.as_str(),
        &bootstrapped,
        now,
    );
    set_ready(
        &seeded,
        repo.generation,
        outcome,
        text.reason.as_str(),
        text.message.as_str(),
        now,
    )
}

/// A status write together with when to look again.
pub struct WritePlan {
    pub patch: StatusPatch,
    pub requeue_secs: u64,
}

/// The failure streak, stamped: the health fold that records it, and how long
/// the next strict retry backs off.
pub struct StreakStamp {
    pub health: String,
    pub backoff_secs: u64,
}

/// Which step of the backoff a streak of failures is at.
pub open spec fn backoff_step(consecutive: Option<u32>) -> u32 {
    match consecutive {
        Some(n) => if n == 0 { 0 } else { (n - 1) as u32 },
        None => 0,
    }
}

/// Which step of the backoff a streak of failures is at.
pub fn retry_backoff_step(consecutive: Option<u32>) -> (step: u32)
    ensures
        step == backoff_step(consecutive),
{
    match consecutive {
        Some(n) => if n == 0 { 0 } else { n - 1 },
        None => 0,
    }
}

/// The status patch of a recycled bootstrap.
pub open spec fn recycled_patch(
    repo: RepositoryState,
    backend: Seq<char>,
    text: FailureText,
    streak: Option<StreakStamp>,
    now: Seq<char>,
) -> StatusPatchView {
    StatusPatchView {
        phase: Some("Degraded"@),
        backend: Some(backend),
        observed_generation: Some(repo.generation),
        conditions: Some(failed_conditions(repo, text, ReadyOutcome::Reconciling, now)),
        health: match streak {
            Some(s) => Some(HealthPatchView::Fold(s.health@)),
            None => None,
        },
        ..no_patch()
    }
}

/// Plans the write of a bootstrap that is recycled and retried: with a stamped
/// streak the retry backs off, without one it comes at the flat cadence.
pub fn recycle_failed_cluster_bootstrap(
    repo: &RepositoryState,
    backend: &str,
    text: &FailureText,
    streak: &Option<StreakStamp>,
    now: &str,
) -> (plan: WritePlan)
    ensures
        plan.patch@ == recycled_patch(*repo, backend@, *text, *streak, now@),
        plan.requeue_secs == (match *streak {
            Some(s) => s.backoff_secs,
            None => FAILED_REQUEUE_SECS,
        }),
{
    let conditions = failure_conditions(
        repo,
        text,
        ready_outcome_for_phase(&RepositoryPhase::Degraded),
        now,
    );
    let mut patch = StatusPatch::new();
    patch.phase = Some("Degraded".to_owned());
    patch.backend = Some(backend.to_owned());
    patch.observed_generation = Some(repo.generation);
    patch.conditions = Some(conditions);
    let mut requeue_secs: u64 = FAILED_REQUEUE_SECS;
    if let Some(s) = streak {
        requeue_secs = s.backoff_secs;
        patch.health = Some(HealthPatch::Fold(s.health.clone()));
    }
    proof {
        assert(patch@ =~= recycled_patch(*repo, backend@, *text, *streak, now@));
    }
    WritePlan { patch, requeue_secs }
}

/// Whether a condition records a bootstrap that failed.
pub open spec fn is_failed_bootstrap(c: ConditionView) -> bool {
    c.type_ == REPOSITORY_BOOTSTRAPPED_CONDITION@ && c.status == "False"@
}

/// The reason of the first condition that records a failed bootstrap.
pub open spec fn standing_reason(conds: Seq<ConditionView>) -> Option<Seq<char>>
    decreases conds.len(),
{
    if conds.len() == 0 {
        None
    } else if is_failed_bootstrap(conds[0]) {
        Some(conds[0].reason)
    } else {
        standing_reason(conds.skip(1))
    }
}

/// Whether a failed bootstrap already stands on record under a reason.
fn stands_under(conds: &Vec<Condition>, reason: &str) -> (yes: bool)
    ensures
        yes == (standing_reason(views(conds@)) == Some(reason@)),
{
    let mut i: usize = 0;
    proof {
        assert(views(conds@).skip(0) =~= views(conds@));
    }
    while i < conds.len()
        invariant
            i <= conds.len(),
            standing_reason(views(conds@)) == standing_reason(views(conds@).skip(i as int)),
        decreases conds.len() - i,
    {
        let ghost rest = views(conds@).skip(i as int);
        proof {
            assert(rest[0] == conds@[i as int]@);
            assert(rest.skip(1) =~= views(conds@).skip(i + 1));
        }
        if same_text(conds[i].type_.as_str(), REPOSITORY_BOOTSTRAPPED_CONDITION) && same_text(
            conds[i].status.as_str(),
            "False",
        ) {
            return same_text(conds[i].reason.as_str(), reason);
        }
        i = i + 1;
    }
    false
}

/// Whether the write of a recycled bootstrap is announced: always where no
/// streak is stamped, else only on the way into this very failure.
pub open spec fn recycle_is_news(
    repo: RepositoryState,
    reason: Seq<char>,
    stamp_streak: bool,
    wrote: bool,
) -> bool {
    wrote && (!stamp_streak || !(repo.phase is Some && repo.phase->0 is Degraded)
        || standing_reason(views(repo.conditions@)) != Some(reason))
}

/// Whether the write of a recycled bootstrap is announced.
pub fn recycle_announces(
    repo: &RepositoryState,
    reason: &str,
    stamp_streak: bool,
    wrote: bool,
) -> (announce: bool)
    ensures
        announce == recycle_is_news(*repo, reason@, stamp_streak, wrote),
{
    let degraded = match &repo.phase {
        Some(RepositoryPhase::Degraded) => true,
        _ => false,
    };
    wrote && (!stamp_streak || !degraded || !stands_under(&repo.conditions, reason))
}

/// The status patch of a bootstrap that is parked for good.
pub open spec fn parked_patch(
    repo: RepositoryState,
    backend: Seq<char>,
    text: FailureText,
    now: Seq<char>,
) -> StatusPatchView {
    StatusPatchView {
        phase: Some("Failed"@),
        backend: Some(backend),
        observed_generation: Some(repo.generation),
        conditions: Some(failed_conditions(repo, text, ReadyOutcome::Stalled, now)),
        ..no_patch()
    }
}

/// Plans the write of a bootstrap that no retry can help. It is announced
/// where the write changed something.
pub fn park_terminal_cluster_bootstrap(
    repo: &RepositoryState,
    backend: &str,
    text: &FailureText,
    now: &str,
) -> (plan: WritePlan)
    ensures
        plan.patch@ == parked_patch(*repo, backend@, *text, now@),
        plan.requeue_secs == FAILED_REQUEUE_SECS,
{
    let conditions = failure_conditions(
        repo,
        text,
        ready_outcome_for_phase(&RepositoryPhase::Failed),
        now,
    );
    let mut patch = StatusPatch::new();
    patch.phase = Some("Failed".to_owned());
    patch.backend = Some(backend.to_owned());
    patch.observed_generation = Some(repo.generation);
    patch.conditions = Some(conditions);
    proof {
        assert(patch@ =~= parked_patch(*repo, backend@, *text, now@));
    }
    WritePlan { patch, requeue_secs: FAILED_REQUEUE_SECS }
}

/// A backend verdict, folded by the sensor: the conditions with its own, the
/// health fold, and whether it raised an alert.
pub struct SensorFold {
    pub conditions: Vec<Condition>,
    pub health: String,
    pub alert: bool,
}

/// Where the breaker's verdict puts a repository.
pub struct BreakerPhase {
    pub phase: RepositoryPhase,
    pub opened: bool,
    pub ready_reason: String,
    pub ready_message: String,
    pub requeue_secs: u64,
}

/// The status patch of an outage of a repository that was bootstrapped.
pub open spec fn outage_patch(
    repo: RepositoryState,
    backend: Seq<char>,
    text: FailureText,
    sensor: SensorFold,
    breaker: BreakerPhase,
    now: Seq<char>,
) -> StatusPatchView {
    let recorded = if breaker.opened {
        upserted(
            views(sensor.conditions@),
            condition_of(
                REPOSITORY_BOOTSTRAPPED_CONDITION@,
                false,
                text.reason@,
                text.message@,
                repo.generation,
                now,
            ),
        )
    } else {
        views(sensor.conditions@)
    };
    StatusPatchView {
        phase: Some(phase_word(breaker.phase)),
        backend: Some(backend),
        observed_generation: Some(repo.generation),
        health: Some(HealthPatchView::Fold(sensor.health@)),
        conditions: Some(
            ready_folded(
                recorded,
                repo.generation,
                phase_outcome(breaker.phase),
                breaker.ready_reason@,
                breaker.ready_message@,
                now,
            ),
        ),
        ..no_patch()
    }
}

/// Plans the write of an outage: only an open breaker records the failed
/// bootstrap and retries by the strict backoff, otherwise the sensor alone
/// tells the story at its own cadence.
pub fn recycle_cluster_bootstrap_outage(
    repo: &RepositoryState,
    backend: &str,
    text: &FailureText,
    sensor: &SensorFold,
    breaker: &BreakerPhase,
    strict_backoff_secs: u64,
    now: &str,
) -> (plan: WritePlan)
    ensures
        plan.patch@ == outage_patch(*repo, backend@, *text, *sensor, *breaker, now@),
        plan.requeue_secs == (if breaker.opened {
            strict_backoff_secs
        } else {
            breaker.requeue_secs
        }),
{
    let recorded = if breaker.opened {
        upsert_condition(
            &sensor.conditions,
            REPOSITORY_BOOTSTRAPPED_CONDITION,
            false,
            text.reason.as_str(),
            text.message.as_str(),
            repo.generation,
            now,
        )
    } else {
        crate::conditions::copy_conditions(&sensor.conditions)
    };
    let conditions = set_ready(
        &recorded,
        repo.generation,
        ready_outcome_for_phase(&breaker.phase),
        breaker.ready_reason.as_str(),
        breaker.ready_message.as_str(),
        now,
    );
    let mut patch = StatusPatch::new();
    patch.phase = Some(breaker.phase.label());
    patch.backend = Some(backend.to_owned());
    patch.observed_generation = Some(repo.generation);
    patch.health = Some(HealthPatch::Fold(sensor.health.clone()));
    patch.conditions = Some(conditions);
    proof {
        assert(patch@ =~= outage_patch(*repo, backend@, *text, *sensor, *breaker, now@));
    }
    let requeue_secs: u64 = if breaker.opened {
        strict_backoff_secs
    } else {
        breaker.requeue_secs
    };
    WritePlan { patch, requeue_secs }
}

/// The status patch of a probe that failed.
pub open spec fn probe_failure_patch(
    repo: RepositoryState,
    sensor: SensorFold,
    breaker: BreakerPhase,
    now: Seq<char>,
) -> StatusPatchView {
    StatusPatchView {
        phase: Some(phase_word(breaker.phase)),
        health: Some(HealthPatchView::Fold(sensor.health@)),
        conditions: Some(
            ready_folded(
                views(sensor.conditions@),
                repo.generation,
                phase_outcome(breaker.phase),
                breaker.ready_reason@,
                breaker.ready_message@,
                now,
            ),
        ),
        ..no_patch()
    }
}

/// Plans the write of a probe that failed: the phase follows the breaker.
pub fn finalize_cluster_probe_failure(
    repo: &RepositoryState,
    sensor: &SensorFold,
    breaker: &BreakerPhase,
    now: &str,
) -> (plan: WritePlan)
    ensures
        plan.patch@ == probe_failure_patch(*repo, *sensor, *breaker, now@),
        plan.requeue_secs == breaker.requeue_secs,
{
    let conditions = set_ready(
        &sensor.conditions,
        repo.generation,
        ready_outcome_for_phase(&breaker.phase),
        breaker.ready_reason.as_str(),
        breaker.ready_message.as_str(),
        now,
    );
    let mut patch = StatusPatch::new();
    patch.phase = Some(breaker.phase.label());
    patch.health = Some(HealthPatch::Fold(sensor.health.clone()));
    patch.conditions = Some(conditions);
    proof {
        assert(patch@ =~= probe_failure_patch(*repo, *sensor, *breaker, now@));
    }
    WritePlan { patch, requeue_secs: breaker.requeue_secs }
}

/// What is said when the breaker opens.
pub open spec fn breaker_text(open_message: Seq<char>, last_error: Seq<char>) -> Seq<char> {
    open_message + " Last error: "@ + last_error
}

/// What is said when the breaker opens.
pub fn breaker_note(open_message: &str, last_error: &str) -> (note: String)
    ensures
        note@ == breaker_text(open_message@, last_error@),
{
    let mut note = open_message.to_owned();
    note.append(" Last error: ");
    note.append(last_error);
    note
}

/// What follows the write of a backend verdict.
#[derive(Clone, Copy, Debug, PartialEq, Eq, Structural)]
pub struct SensorEffects {
    /// Count the alert.
    pub count_alert: bool,
    /// Publish the alert.
    pub publish_alert: bool,
    /// Count and publish that the breaker opened.
    pub trip: bool,
}

/// What follows the write of a backend verdict. The breaker trips only on the
/// way into `Degraded`.
pub open spec fn sensor_follow_up(
    repo: RepositoryState,
    alert: bool,
    opened: bool,
    wrote: bool,
) -> SensorEffects {
    SensorEffects {
        count_alert: alert,
        publish_alert: alert && wrote,
        trip: opened && wrote && !(repo.phase is Some && repo.phase->0 is Degraded),
    }
}

/// What follows the write of a backend verdict.
pub fn sensor_effects(repo: &RepositoryState, alert: bool, opened: bool, wrote: bool) -> (effects:
    SensorEffects)
    ensures
        effects == sensor_follow_up(*repo, alert, opened, wrote),
{
    let degraded = match &repo.phase {
        Some(RepositoryPhase::Degraded) => true,
        _ => false,
    };
    SensorEffects {
        count_alert: alert,
        publish_alert: alert && wrote,
        trip: opened && wrote && !degraded,
    }
}

} // verus!
