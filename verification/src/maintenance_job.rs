//! The Job of a maintenance run: what its mover is handed, how it is marked
//! and limited, and the order in which its prerequisites are established.
use crate::backend::Backend;
use crate::error::{Error, ErrorView};
use crate::instant::{four_digit_year, instant_in, on_the_clock, rfc3339_text, write_instant, Instant};
use crate::labels::{Labels, COMPONENT_LABEL};
use crate::maintenance_manual::JobState;
use crate::maintenance_schedule::MaintenanceMode;
use crate::rbac::{
    namespace_allows_privileged_movers, opted_in, privileged_mover_message, privileged_mover_text,
    MoverRunIdentity, NamespaceRead, AZURE_WORKLOAD_IDENTITY_LABEL, PRIVILEGED_MOVERS_ANNOTATION,
};
use crate::seed::copy_opt;
use crate::seed_run::{
    loads_plainly, mounts_own, plain_creds, repository_volume, CredsEnvFrom, FailurePolicy,
    JobLimits, RepositoryConnect, Throttle, VolumeMountSpec,
};
use crate::work_spec::{ResolvedIdentity, TargetRef, API_VERSION};
use vstd::prelude::*;
use vstd::string::StringExecFns;

verus! {

/// How long a finished maintenance Job is kept, in seconds.
pub const MAINTENANCE_JOB_TTL_SECS: i64 = 3600;

/// The component label's value on maintenance Jobs.
pub const MAINTENANCE_COMPONENT: &'static str = "maintenance";

/// The label that names the `Maintenance` of a Job.
pub const MAINTENANCE_INSTANCE_LABEL: &'static str = "kopiur.home-operations.com/maintenance";

/// The annotation that names the slot of a Job.
pub const MAINTENANCE_SLOT_ANNOTATION: &'static str = "kopiur.home-operations.com/maintenance-slot";

/// The ServiceAccount that movers have where none is configured.
pub const DEFAULT_MOVER_NAME: &'static str = "kopiur-mover";

/// Who maintains a repository. `takeover_policy` is the word that says whether
/// a lease that somebody else holds may be taken over.
pub struct Ownership {
    pub owner: String,
    pub owner_aliases: Vec<String>,
    pub takeover_policy: String,
}

/// What the mover of a maintenance run does.
pub struct MaintenanceOp {
    pub mode: MaintenanceMode,
    pub owner: String,
    pub owner_aliases: Vec<String>,
    pub takeover_policy: String,
}

/// Whether an operation carries an ownership as it is.
pub open spec fn carries(op: MaintenanceOp, ownership: Ownership, mode: MaintenanceMode) -> bool {
    &&& op.mode == mode
    &&& op.owner@ == ownership.owner@
    &&& op.owner_aliases@ == ownership.owner_aliases@
    &&& op.takeover_policy@ == ownership.takeover_policy@
}

fn copy_texts(list: &Vec<String>) -> (copy: Vec<String>)
    ensures
        copy@ == list@,
{
    let mut copy: Vec<String> = Vec::new();
    let mut i: usize = 0;
    while i < list.len()
        invariant
            i <= list.len(),
            copy@ == list@.take(i as int),
        decreases list.len() - i,
    {
        copy.push(list[i].clone());
        proof {
            assert(list@.take(i + 1) =~= list@.take(i as int).push(list@[i as int]));
        }
        i = i + 1;
    }
    proof {
        assert(list@.take(i as int) =~= list@);
    }
    copy
}

/// What the mover of a run does, with all that its lease decision needs.
pub fn maintenance_op(ownership: &Ownership, mode: MaintenanceMode) -> (op: MaintenanceOp)
    ensures
        carries(op, *ownership, mode),
{
    MaintenanceOp {
        mode,
        owner: ownership.owner.clone(),
        owner_aliases: copy_texts(&ownership.owner_aliases),
        takeover_policy: ownership.takeover_policy.clone(),
    }
}

/// What a maintenance mover is handed. `hook_plan`, `options` and `cache` are
/// settings as JSON text; where one is absent, the mover's default stands: no
/// hooks, no options, kopia's own cache.
pub struct MaintenanceWorkSpec {
    pub version: u32,
    pub operation: MaintenanceOp,
    pub identity: ResolvedIdentity,
    pub repository: RepositoryConnect,
    pub target_ref: TargetRef,
    pub hook_plan: Option<String>,
    pub options: Option<String>,
    pub cache: Option<String>,
    pub throttle: Throttle,
}

/// Builds what a maintenance mover is handed. It takes no snapshot, so that
/// its identity is a fixed one, told apart by the namespace.
pub fn maintenance_work_spec(
    namespace: &str,
    cr_name: &str,
    ownership: &Ownership,
    mode: MaintenanceMode,
    backend: Backend,
    ca_bundle_pem: Option<String>,
    cache: Option<String>,
    throttle: Throttle,
) -> (spec: MaintenanceWorkSpec)
    ensures
        spec.version == 1,
        carries(spec.operation, *ownership, mode),
        spec.identity.username@ == "kopiur-maintenance"@,
        spec.identity.hostname@ == namespace@,
        spec.identity.source_path@ == Seq::<char>::empty(),
        spec.repository == (RepositoryConnect { backend, ca_bundle_pem }),
        spec.target_ref.api_version@ == API_VERSION@,
        spec.target_ref.kind@ == "Maintenance"@,
        spec.target_ref.name@ == cr_name@,
        spec.target_ref.namespace@ == namespace@,
        spec.hook_plan is None,
        spec.options is None,
        spec.cache == cache,
        spec.throttle == throttle,
{
    MaintenanceWorkSpec {
        version: 1,
        operation: maintenance_op(ownership, mode),
        identity: ResolvedIdentity {
            username: "kopiur-maintenance".to_owned(),
            hostname: namespace.to_owned(),
            source_path: String::new(),
        },
        repository: RepositoryConnect { backend, ca_bundle_pem },
        target_ref: TargetRef {
            api_version: API_VERSION.to_owned(),
            kind: "Maintenance".to_owned(),
            name: cr_name.to_owned(),
            namespace: namespace.to_owned(),
        },
        hook_plan: None,
        options: None,
        cache,
        throttle,
    }
}

/// The labels of a maintenance Job.
pub open spec fn job_label_map(cr_name: Seq<char>) -> Map<Seq<char>, Seq<char>> {
    Map::empty().insert(COMPONENT_LABEL@, MAINTENANCE_COMPONENT@).insert(
        MAINTENANCE_INSTANCE_LABEL@,
        cr_name,
    )
}

/// The labels of a maintenance Job: these two, and no others, so that it is
/// never counted towards what a repository's pool allows.
pub fn maintenance_job_labels(cr_name: &str) -> (labels: Labels)
    ensures
        labels.wf(),
        labels@ == job_label_map(cr_name@),
{
    let mut labels = Labels::new();
    labels.insert(COMPONENT_LABEL, MAINTENANCE_COMPONENT);
    labels.insert(MAINTENANCE_INSTANCE_LABEL, cr_name);
    labels
}

/// The limits of a maintenance Job.
pub open spec fn job_limits(policy: Option<FailurePolicy>, base: JobLimits) -> JobLimits {
    match policy {
        Some(p) => JobLimits {
            backoff_limit: match p.backoff_limit {
                Some(n) => n,
                None => base.backoff_limit,
            },
            active_deadline_seconds: if p.active_deadline_seconds is Some {
                p.active_deadline_seconds
            } else {
                base.active_deadline_seconds
            },
            ttl_seconds_after_finished: Some(MAINTENANCE_JOB_TTL_SECS),
        },
        None => JobLimits {
            ttl_seconds_after_finished: Some(MAINTENANCE_JOB_TTL_SECS),
            ..base
        },
    }
}

/// The limits of a maintenance Job: what the failure policy says, or else the
/// defaults, and in any case a time after which it is removed.
pub fn maintenance_job_limits(policy: &Option<FailurePolicy>, base: JobLimits) -> (limits: JobLimits)
    ensures
        limits == job_limits(*policy, base),
{
    match policy {
        Some(p) => {
            let backoff_limit: i32 = match p.backoff_limit {
                Some(n) => n,
                None => base.backoff_limit,
            };
            let active_deadline_seconds: Option<i64> = if p.active_deadline_seconds.is_some() {
                p.active_deadline_seconds
            } else {
                base.active_deadline_seconds
            };
            JobLimits {
                backoff_limit,
                active_deadline_seconds,
                ttl_seconds_after_finished: Some(MAINTENANCE_JOB_TTL_SECS),
            }
        },
        None => JobLimits {
            backoff_limit: base.backoff_limit,
            active_deadline_seconds: base.active_deadline_seconds,
            ttl_seconds_after_finished: Some(MAINTENANCE_JOB_TTL_SECS),
        },
    }
}

/// The name of the cache claim of a `Maintenance`.
pub fn maintenance_cache_name(cr_name: &str) -> (name: String)
    ensures
        name@ == "kopiur-cache-"@ + cr_name@,
{
    let mut name = "kopiur-cache-".to_owned();
    name.append(cr_name);
    name
}

/// How a maintenance Job is marked, limited and run.
pub struct MaintenanceJobPlan {
    pub labels: Labels,
    pub annotations: Labels,
    pub repo_volume: Option<VolumeMountSpec>,
    pub creds_secrets: Vec<CredsEnvFrom>,
    pub limits: JobLimits,
    pub service_account: Option<String>,
}

/// The limits after the repository's defaults for movers were applied.
pub open spec fn with_ttl(limits: JobLimits, ttl: Option<i64>) -> JobLimits {
    JobLimits {
        ttl_seconds_after_finished: if ttl is Some {
            ttl
        } else {
            limits.ttl_seconds_after_finished
        },
        ..limits
    }
}

/// The annotations of a maintenance Job: its slot, as it is written.
pub open spec fn slot_annotations(written: Option<Seq<char>>) -> Map<Seq<char>, Seq<char>> {
    match written {
        Some(text) => Map::empty().insert(MAINTENANCE_SLOT_ANNOTATION@, text),
        None => Map::empty(),
    }
}

/// Plans the Job of a slot. A slot on the clock in a year of four digits reads
/// back from the annotation as it was. `resolved_ttl` is the time after which
/// movers are removed, where their defaults or the recipe say one.
pub fn maintenance_job_plan(
    cr_name: &str,
    slot: Instant,
    backend: &Backend,
    secret_names: &Vec<String>,
    identity: &MoverRunIdentity,
    policy: &Option<FailurePolicy>,
    base: JobLimits,
    resolved_ttl: Option<i64>,
) -> (plan: MaintenanceJobPlan)
    ensures
        plan.labels.wf(),
        plan.labels@ == (if identity.azure_workload_identity {
            job_label_map(cr_name@).insert(AZURE_WORKLOAD_IDENTITY_LABEL@, "true"@)
        } else {
            job_label_map(cr_name@)
        }),
        plan.annotations.wf(),
        plan.annotations@ == slot_annotations(rfc3339_text(slot.secs, slot.nanos)),
        four_digit_year(slot.secs) && on_the_clock(slot) ==> {
            &&& plan.annotations@.dom().contains(MAINTENANCE_SLOT_ANNOTATION@)
            &&& instant_in(Some(plan.annotations@[MAINTENANCE_SLOT_ANNOTATION@])) == Some(slot)
        },
        mounts_own(plan.repo_volume, *backend),
        loads_plainly(plan.creds_secrets@, secret_names@),
        plan.limits == with_ttl(job_limits(*policy, base), resolved_ttl),
        plan.service_account == identity.service_account,
{
    let mut labels = maintenance_job_labels(cr_name);
    identity.decorate_labels(&mut labels);
    let limits = maintenance_job_limits(policy, base);
    let ttl: Option<i64> = if resolved_ttl.is_some() {
        resolved_ttl
    } else {
        limits.ttl_seconds_after_finished
    };
    let mut annotations = Labels::new();
    if let Some(text) = write_instant(slot) {
        annotations.insert(MAINTENANCE_SLOT_ANNOTATION, text.as_str());
    }
    MaintenanceJobPlan {
        labels,
        annotations,
        repo_volume: repository_volume(backend),
        creds_secrets: plain_creds(secret_names),
        limits: JobLimits {
            backoff_limit: limits.backoff_limit,
            active_deadline_seconds: limits.active_deadline_seconds,
            ttl_seconds_after_finished: ttl,
        },
        service_account: copy_opt(&identity.service_account),
    }
}

/// Decides whether a privileged run is refused, and with what words. A run
/// that needs no privilege is let through without reading the namespace.
pub fn privileged_run_refused(
    requires_privilege: bool,
    read: &NamespaceRead,
    cr_name: &str,
    namespace: &str,
    mover_service_account: Option<&str>,
) -> (refused: Result<Option<String>, Error>)
    requires
        *read is Annotations ==> read->Annotations_0.wf(),
    ensures
        refused is Err <==> requires_privilege && *read is Failed,
        refused is Err ==> refused->Err_0@ == ErrorView::Kube(read->Failed_0@),
        refused is Ok ==> {
            &&& refused->Ok_0 is Some <==> requires_privilege && !opted_in(
                *read,
                PRIVILEGED_MOVERS_ANNOTATION@,
            )
            &&& refused->Ok_0 is Some ==> refused->Ok_0->0@ == privileged_mover_text(
                "Maintenance"@,
                cr_name@,
                namespace@,
                match mover_service_account {
                    Some(sa) => sa@,
                    None => DEFAULT_MOVER_NAME@,
                },
            )
        },
{
    if !requires_privilege {
        return Ok(None);
    }
    match namespace_allows_privileged_movers(read) {
        Err(e) => Err(e),
        Ok(allowed) => {
            if allowed {
                return Ok(None);
            }
            let sa = match mover_service_account {
                Some(s) => s,
                None => DEFAULT_MOVER_NAME,
            };
            Ok(Some(privileged_mover_message("Maintenance", cr_name, namespace, sa)))
        },
    }
}

/// Where the spawn of a Job stands.
#[derive(Clone, Copy, Debug, PartialEq, Eq, Structural)]
pub enum SpawnStage {
    Identity,
    Credentials,
    Cache,
    Contexts,
    Gate,
    Apply,
    Done,
}

/// What the outside answered.
#[derive(Clone, Copy, Debug, PartialEq, Eq, Structural)]
pub enum SpawnEvent {
    /// The run's identity is in place.
    IdentityEnsured,
    /// The run's Secrets were found; so many were copied in.
    CredentialsResolved { projected: u64 },
    CacheResolved,
    ContextsResolved { requires_privilege: bool },
    /// The namespace was asked whether it allows privileged movers.
    GateChecked { refused: bool },
    Applied,
    /// Any of these steps failed.
    Failed,
}

/// What to do next.
#[derive(Clone, Copy, Debug, PartialEq, Eq, Structural)]
pub enum SpawnAction {
    /// Find the run's Secrets.
    ResolveCredentials,
    /// Find the cache volume; count the Secrets that were copied in, where any
    /// were.
    ResolveCache { count_projected: Option<u64> },
    ResolveContexts,
    CheckGate,
    ApplyJob,
    /// The run is skipped, with a warning.
    Skip,
    Finish,
    /// The failure comes out.
    Fail,
    /// The event does not belong to the stage.
    Ignore,
}

/// The next stage and action of a spawn.
pub open spec fn spawn_next(stage: SpawnStage, event: SpawnEvent) -> (SpawnStage, SpawnAction) {
    if event is Failed && !(stage is Done) {
        (SpawnStage::Done, SpawnAction::Fail)
    } else {
        match (stage, event) {
            (SpawnStage::Identity, SpawnEvent::IdentityEnsured) => (
                SpawnStage::Credentials,
                SpawnAction::ResolveCredentials,
            ),
            (SpawnStage::Credentials, SpawnEvent::CredentialsResolved { projected }) => (
                SpawnStage::Cache,
                SpawnAction::ResolveCache {
                    count_projected: if projected > 0 {
                        Some(projected)
                    } else {
                        None
                    },
                },
            ),
            (SpawnStage::Cache, SpawnEvent::CacheResolved) => (
                SpawnStage::Contexts,
                SpawnAction::ResolveContexts,
            ),
            (SpawnStage::Contexts, SpawnEvent::ContextsResolved { requires_privilege }) =>
            if requires_privilege {
                (SpawnStage::Gate, SpawnAction::CheckGate)
            } else {
                (SpawnStage::Apply, SpawnAction::ApplyJob)
            },
            (SpawnStage::Gate, SpawnEvent::GateChecked { refused }) => if refused {
                (SpawnStage::Done, SpawnAction::Skip)
            } else {
                (SpawnStage::Apply, SpawnAction::ApplyJob)
            },
            (SpawnStage::Apply, SpawnEvent::Applied) => (SpawnStage::Done, SpawnAction::Finish),
            _ => (stage, SpawnAction::Ignore),
        }
    }
}

/// Takes one step of the spawn of a Job. The first thing to do is to put the
/// run's identity in place.
pub fn spawn_maintenance_job(stage: SpawnStage, event: SpawnEvent) -> (next: (
    SpawnStage,
    SpawnAction,
))
    ensures
        next == spawn_next(stage, event),
{
    match (stage, event) {
        (SpawnStage::Done, _) => (stage, SpawnAction::Ignore),
        (_, SpawnEvent::Failed) => (SpawnStage::Done, SpawnAction::Fail),
        (SpawnStage::Identity, SpawnEvent::IdentityEnsured) => (
            SpawnStage::Credentials,
            SpawnAction::ResolveCredentials,
        ),
        (SpawnStage::Credentials, SpawnEvent::CredentialsResolved { projected }) => {
            let count_projected: Option<u64> = if projected > 0 {
                Some(projected)
            } else {
                None
            };
            (SpawnStage::Cache, SpawnAction::ResolveCache { count_projected })
        },
        (SpawnStage::Cache, SpawnEvent::CacheResolved) => (
            SpawnStage::Contexts,
            SpawnAction::ResolveContexts,
        ),
        (SpawnStage::Contexts, SpawnEvent::ContextsResolved { requires_privilege }) => {
            if requires_privilege {
                (SpawnStage::Gate, SpawnAction::CheckGate)
            } else {
                (SpawnStage::Apply, SpawnAction::ApplyJob)
            }
        },
        (SpawnStage::Gate, SpawnEvent::GateChecked { refused }) => {
            if refused {
                (SpawnStage::Done, SpawnAction::Skip)
            } else {
                (SpawnStage::Apply, SpawnAction::ApplyJob)
            }
        },
        (SpawnStage::Apply, SpawnEvent::Applied) => (SpawnStage::Done, SpawnAction::Finish),
        _ => (stage, SpawnAction::Ignore),
    }
}

/// The stage and the actions that a run of events leads to from the start.
pub open spec fn spawn_trace(events: Seq<SpawnEvent>) -> (SpawnStage, Seq<SpawnAction>)
    decreases events.len(),
{
    if events.len() == 0 {
        (SpawnStage::Identity, Seq::empty())
    } else {
        let (stage, actions) = spawn_trace(events.drop_last());
        let (next, action) = spawn_next(stage, events.last());
        (next, actions.push(action))
    }
}

/// Whether a run of events lets a Job be applied: no privilege is needed, or
/// the namespace allows it.
pub open spec fn privilege_settled(events: Seq<SpawnEvent>) -> bool {
    ||| events.contains(SpawnEvent::ContextsResolved { requires_privilege: false })
    ||| events.contains(SpawnEvent::GateChecked { refused: false })
}

proof fn spawn_invariant(events: Seq<SpawnEvent>)
    ensures
        ({
            let (stage, actions) = spawn_trace(events);
            &&& actions.len() == events.len()
            &&& !(stage is Identity) && !(stage is Done) ==> events.contains(
                SpawnEvent::IdentityEnsured,
            )
            &&& forall|k: int|
                0 <= k < actions.len() && (#[trigger] actions[k]) is ResolveCredentials
                    ==> events.contains(SpawnEvent::IdentityEnsured)
            &&& forall|k: int|
                0 <= k < actions.len() && (#[trigger] actions[k]) is ApplyJob ==> events.contains(
                    SpawnEvent::IdentityEnsured,
                ) && privilege_settled(events)
        }),
    decreases events.len(),
{
    if events.len() > 0 {
        let front = events.drop_last();
        spawn_invariant(front);
        let (stage, actions) = spawn_trace(front);
        let all = spawn_trace(events).1;
        assert(events[events.len() - 1] == events.last());
        assert(events.contains(events.last()));
        assert forall|e: SpawnEvent| front.contains(e) implies #[trigger] events.contains(e) by {
            let k = choose|k: int| 0 <= k < front.len() && front[k] == e;
            assert(events[k] == e);
        }
        assert forall|k: int|
            0 <= k < all.len() && (#[trigger] all[k]) is ResolveCredentials implies events.contains(
            SpawnEvent::IdentityEnsured,
        ) by {
            if k < actions.len() {
                assert(all[k] == actions[k]);
            }
        }
        assert forall|k: int| 0 <= k < all.len() && (#[trigger] all[k]) is ApplyJob implies {
            events.contains(SpawnEvent::IdentityEnsured) && privilege_settled(events)
        } by {
            if k < actions.len() {
                assert(all[k] == actions[k]);
            }
        }
    }
}

/// What is done at a step depends on the answers up to it alone.
proof fn later_answers_change_nothing(events: Seq<SpawnEvent>, k: int)
    requires
        0 <= k < events.len(),
    ensures
        spawn_trace(events.take(k + 1)).1.len() == k + 1,
        spawn_trace(events.take(k + 1)).1[k] == spawn_trace(events).1[k],
    decreases events.len(),
{
    spawn_invariant(events);
    spawn_invariant(events.take(k + 1));
    if k + 1 == events.len() {
        assert(events.take(k + 1) =~= events);
    } else {
        let front = events.drop_last();
        later_answers_change_nothing(front, k);
        assert(front.take(k + 1) =~= events.take(k + 1));
        spawn_invariant(front);
        assert(spawn_trace(events).1[k] == spawn_trace(front).1[k]);
    }
}

/// The run's identity is in place before its Secrets are looked for, so that
/// missing Secrets never keep it from being established.
pub proof fn identity_goes_first(events: Seq<SpawnEvent>, k: int)
    requires
        0 <= k < spawn_trace(events).1.len(),
        spawn_trace(events).1[k] is ResolveCredentials,
    ensures
        events.take(k + 1).contains(SpawnEvent::IdentityEnsured),
{
    spawn_invariant(events);
    later_answers_change_nothing(events, k);
    spawn_invariant(events.take(k + 1));
}

/// A Job that needs privilege is applied only in a namespace that allows it.
pub proof fn privileged_job_needs_the_namespace(events: Seq<SpawnEvent>, k: int)
    requires
        0 <= k < spawn_trace(events).1.len(),
        spawn_trace(events).1[k] is ApplyJob,
    ensures
        privilege_settled(events.take(k + 1)),
        events.take(k + 1).contains(SpawnEvent::IdentityEnsured),
{
    spawn_invariant(events);
    later_answers_change_nothing(events, k);
    spawn_invariant(events.take(k + 1));
}

/// A finished maintenance Job is always removed after a time.
pub proof fn finished_job_is_removed(policy: Option<FailurePolicy>, base: JobLimits, ttl: Option<i64>)
    ensures
        with_ttl(job_limits(policy, base), ttl).ttl_seconds_after_finished is Some,
{
}

/// The query that finds the Jobs of a `Maintenance`.
pub fn active_job_selector(cr_name: &str) -> (query: String)
    ensures
        query@ == COMPONENT_LABEL@ + "="@ + MAINTENANCE_COMPONENT@ + ","@
            + MAINTENANCE_INSTANCE_LABEL@ + "="@ + cr_name@,
{
    let mut query = COMPONENT_LABEL.to_owned();
    query.append("=");
    query.append(MAINTENANCE_COMPONENT);
    query.append(",");
    query.append(MAINTENANCE_INSTANCE_LABEL);
    query.append("=");
    query.append(cr_name);
    query
}

/// Whether any of the Jobs that were found has not finished.
pub fn has_active_maintenance_job(jobs: &Vec<JobState>) -> (active: bool)
    ensures
        active == exists|k: int|
            0 <= k < jobs@.len() && #[trigger] jobs@[k] != JobState::Succeeded && jobs@[k]
                != JobState::Failed,
{
    let mut i: usize = 0;
    while i < jobs.len()
        invariant
            i <= jobs.len(),
            forall|k: int|
                0 <= k < i ==> #[trigger] jobs@[k] == JobState::Succeeded || jobs@[k]
                    == JobState::Failed,
        decreases jobs.len() - i,
    {
        let finished = match jobs[i] {
            JobState::Succeeded => true,
            JobState::Failed => true,
            _ => false,
        };
        if !finished {
            assert(jobs@[i as int] != JobState::Succeeded && jobs@[i as int] != JobState::Failed);
            return true;
        }
        i = i + 1;
    }
    false
}

/// The reclaimed bytes to publish after a reconcile: those of the last full
/// pass, where the reconcile went well.
pub fn record_maintenance_status_metrics(
    has_namespace: bool,
    ok: bool,
    last_content_reclaimed_bytes: Option<i64>,
) -> (bytes: Option<i64>)
    ensures
        bytes == (if has_namespace && ok {
            last_content_reclaimed_bytes
        } else {
            None
        }),
{
    if has_namespace && ok {
        last_content_reclaimed_bytes
    } else {
        None
    }
}

/// The steps of a spawn follow each other: the identity, the Secrets, the
/// cache, the contexts, the namespace's leave where privilege is needed, and
/// the Job. Each is taken on the answer to the one before and on no other.
pub proof fn spawn_takes_its_steps_in_order(stage: SpawnStage, event: SpawnEvent)
    ensures
        ({
            let (next, action) = spawn_next(stage, event);
            &&& action is ResolveCredentials <==> stage is Identity && event is IdentityEnsured
            &&& action is ResolveCredentials ==> next is Credentials
            &&& action is ResolveCache <==> stage is Credentials && event is CredentialsResolved
            &&& action matches SpawnAction::ResolveCache { count_projected } ==> {
                &&& next is Cache
                &&& event->CredentialsResolved_projected > 0 ==> count_projected == Some(
                    event->CredentialsResolved_projected,
                )
                &&& event->CredentialsResolved_projected == 0 ==> count_projected is None
            }
            &&& action is ResolveContexts <==> stage is Cache && event is CacheResolved
            &&& action is ResolveContexts ==> next is Contexts
            &&& action is CheckGate <==> stage is Contexts && event
                == (SpawnEvent::ContextsResolved { requires_privilege: true })
            &&& action is CheckGate ==> next is Gate
            &&& action is ApplyJob <==> {
                ||| stage is Contexts && event == (SpawnEvent::ContextsResolved {
                    requires_privilege: false,
                })
                ||| stage is Gate && event == (SpawnEvent::GateChecked { refused: false })
            }
            &&& action is ApplyJob ==> next is Apply
            &&& action is Skip <==> stage is Gate && event == (SpawnEvent::GateChecked {
                refused: true,
            })
            &&& action is Finish <==> stage is Apply && event is Applied
            &&& action is Fail <==> event is Failed && !(stage is Done)
            &&& action is Skip || action is Finish || action is Fail ==> next is Done
            &&& action is Ignore ==> next == stage
            &&& stage is Done ==> action is Ignore
        }),
{
}

/// A failure policy goes before the defaults, value by value, and a finished
/// Job is removed after its own time unless the movers' time is set.
pub proof fn failure_policy_goes_first(
    policy: Option<FailurePolicy>,
    base: JobLimits,
    ttl: Option<i64>,
)
    ensures
        ({
            let l = with_ttl(job_limits(policy, base), ttl);
            let backoff = policy is Some && policy->0.backoff_limit is Some;
            let deadline = policy is Some && policy->0.active_deadline_seconds is Some;
            &&& backoff ==> l.backoff_limit == policy->0.backoff_limit->0
            &&& !backoff ==> l.backoff_limit == base.backoff_limit
            &&& deadline ==> l.active_deadline_seconds == policy->0.active_deadline_seconds
            &&& !deadline ==> l.active_deadline_seconds == base.active_deadline_seconds
            &&& ttl is Some ==> l.ttl_seconds_after_finished == ttl
            &&& ttl is None ==> l.ttl_seconds_after_finished == Some(MAINTENANCE_JOB_TTL_SECS)
        }),
{
}

/// A maintenance Job bears the label of its kind and the one of its
/// `Maintenance`, and no other.
pub proof fn maintenance_job_bears_two_labels(cr_name: Seq<char>)
    ensures
        ({
            let labels = job_label_map(cr_name);
            &&& labels.dom() =~= set![COMPONENT_LABEL@, MAINTENANCE_INSTANCE_LABEL@]
            &&& labels[MAINTENANCE_INSTANCE_LABEL@] == cr_name
            &&& labels[COMPONENT_LABEL@] == MAINTENANCE_COMPONENT@
        }),
{
    reveal_strlit("app.kubernetes.io/component");
    reveal_strlit("kopiur.home-operations.com/maintenance");
    assert(COMPONENT_LABEL@[0] == 'a');
    assert(MAINTENANCE_INSTANCE_LABEL@[0] == 'k');
}

/// A Job's annotation is its slot as it was written, and there is none where
/// the slot cannot be written.
pub proof fn slot_is_annotated_as_written(written: Option<Seq<char>>)
    ensures
        written is Some ==> slot_annotations(written).dom() =~= set![MAINTENANCE_SLOT_ANNOTATION@]
            && slot_annotations(written)[MAINTENANCE_SLOT_ANNOTATION@] == written->0,
        written is None ==> slot_annotations(written).dom() =~= Set::empty(),
{
}

/// An operation that carries an ownership hands the mover all that its lease
/// decision needs: the owner, every alias and the policy, for this pass.
pub proof fn carried_ownership_is_whole(op: MaintenanceOp, o: Ownership, mode: MaintenanceMode)
    requires
        carries(op, o, mode),
    ensures
        op.mode == mode,
        op.owner@ == o.owner@,
        op.owner_aliases@ == o.owner_aliases@,
        op.takeover_policy@ == o.takeover_policy@,
{
}

} // verus!
