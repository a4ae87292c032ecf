//! The reconcile of a `ClusterRepository`, as a machine over what the cluster
//! and the repository answer, with the status writes of its way.
use crate::bootstrap::{
    gate_holds, phase_outcome, ready_outcome_for_phase, terminal_gate_holds, RepositoryPhase,
};
use crate::cluster_finalize::{
    cluster_bootstrap_condition, RepositoryState, REPOSITORY_BOOTSTRAPPED_CONDITION,
};
use crate::condition_laws::{
    outcome_is_shown_in_all_three, shows, upsert_keeps_other_types, written_condition_is_shown,
};
use crate::conditions::{
    condition_of, lookup, ready_folded, set_ready, upsert_gate, upserted, views, Condition, ConditionView,
    ReadyOutcome, StructuralGate,
};
use crate::error::Error;
use crate::seed::{copy_opt, seed_failure_recorded, seeding_gate, records_failure, SEEDED_CONDITION};
use crate::seed_messages::{seeding_message, seeding_text};
use crate::status::{no_patch, CatalogPatch, CatalogPatchView, StatusPatch, StatusPatchView, StorageStats};
use crate::text::{
    is_text, join, joined, mentions, opt_text, part_is_mentioned, same_text, texts,
};
use vstd::prelude::*;
use vstd::string::StringExecFns;

verus! {

/// How soon an object is looked at again after its finalizer was added, in
/// seconds.
pub const FINALIZER_REQUEUE_SECS: u64 = 2;

/// How soon a suspended object is looked at again, in seconds.
pub const SUSPENDED_REQUEUE_SECS: u64 = 300;

/// The finalizer that holds a `ClusterRepository` until what it left in other
/// namespaces is gone.
pub const SERVER_CLEANUP_FINALIZER: &'static str = "kopiur.home-operations.com/server-cleanup";

/// What is said where no namespace is known to read credentials from.
pub const NO_SECRET_NAMESPACE: &'static str = "no namespace to read the ClusterRepository's credential Secret from: encryption.passwordSecretRef.namespace is unset and the operator's namespace is unknown (KOPIUR_NAMESPACE unset), and a cluster-scoped resource has none of its own. Fix: set encryption.passwordSecretRef.namespace to the Secret's namespace, or set KOPIUR_NAMESPACE on the controller (the Helm chart does this).";

/// Which namespace a cluster-scoped repository reads its credentials from: the
/// one its reference names, else the operator's own.
pub fn cluster_secret_namespace(explicit: Option<&str>, operator_namespace: Option<&str>) -> (ns:
    Result<String, Error>)
    ensures
        explicit is Some ==> ns is Ok && ns->Ok_0@ == explicit->0@,
        explicit is None && operator_namespace is Some ==> ns is Ok && ns->Ok_0@
            == operator_namespace->0@,
        explicit is None && operator_namespace is None ==> ns is Err && ns->Err_0 is Validation
            && ns->Err_0.text() == NO_SECRET_NAMESPACE@,
{
    match explicit {
        Some(ns) => Ok(ns.to_owned()),
        None => match operator_namespace {
            Some(ns) => Ok(ns.to_owned()),
            None => Err(Error::Validation(NO_SECRET_NAMESPACE.to_owned())),
        },
    }
}

/// Where the managed maintenance of a cluster-scoped repository lives: in the
/// namespace its spec names, else in the operator's own.
pub fn cluster_maintenance_placement(
    spec_namespace: &Option<String>,
    operator_namespace: &Option<String>,
) -> (ns: Option<String>)
    ensures
        opt_text(ns) == (match *spec_namespace {
            Some(n) => Some(n@),
            None => opt_text(*operator_namespace),
        }),
{
    match spec_namespace {
        Some(n) => Some(n.clone()),
        None => copy_opt(operator_namespace),
    }
}

/// Whether a bootstrap may create a repository: only where creation is enabled
/// and none was ever bound.
pub open spec fn may_create(create_enabled: bool, unique_id: Option<String>) -> bool {
    create_enabled && unique_id is None
}

/// Whether a bootstrap may create a repository.
pub fn auto_create_allowed(create_enabled: bool, unique_id: &Option<String>) -> (allowed: bool)
    ensures
        allowed == may_create(create_enabled, *unique_id),
{
    create_enabled && unique_id.is_none()
}

/// How a backend is reached.
#[derive(Clone, Copy, Debug, PartialEq, Eq, Structural)]
pub enum BackendRoute {
    /// From the controller itself, at a path.
    InProcess,
    /// Through a mover Job.
    ViaMover,
}

/// How a backend is reached: only a filesystem without a volume is reachable
/// from the controller.
pub fn backend_route(is_filesystem: bool, has_volume: bool) -> (route: BackendRoute)
    ensures
        route == (if is_filesystem && !has_volume {
            BackendRoute::InProcess
        } else {
            BackendRoute::ViaMover
        }),
{
    if is_filesystem && !has_volume {
        BackendRoute::InProcess
    } else {
        BackendRoute::ViaMover
    }
}

/// What a reconcile decision reads of the repository.
pub struct ReconcileInputs {
    /// Whether the spec was refused.
    pub refused: bool,
    pub deleting: bool,
    pub server_enabled: bool,
    pub seed_armed: bool,
    pub suspended: bool,
    pub route: BackendRoute,
    pub create_enabled: bool,
    pub unique_id: Option<String>,
    pub phase: Option<RepositoryPhase>,
    pub generation: Option<i64>,
    pub observed_generation: Option<i64>,
    pub recorded_credential_version: Option<String>,
}

/// Whether the cleanup finalizer is held: while there is a server to take
/// down, or a seeding Job that may be in flight.
pub open spec fn holds_finalizer(i: ReconcileInputs) -> bool {
    i.server_enabled || i.seed_armed
}

/// Where a reconcile stands.
#[derive(Clone, Copy, Debug, PartialEq, Eq, Structural)]
pub enum ReconcileStage {
    Start,
    Finalizer,
    Server,
    Backend,
    Credential,
    Connect,
    Create,
    Reconnect,
    Status,
    Catalog,
    Done,
}

/// What the outside answered.
pub enum ReconcileEvent {
    Begin,
    FinalizerEnsured { added: bool },
    ServerReconciled { ok: bool },
    Proceed,
    CredentialRead { version: String },
    Connected,
    /// `creatable`: the failure is not one of a repository that is there.
    ConnectFailed { creatable: bool, retryable: bool },
    Created,
    CreateFailed { retryable: bool },
    StatusWritten { scan_due: bool },
    /// The step failed.
    Failed,
}

/// What to do next.
#[derive(Clone, Copy, Debug, PartialEq, Eq, Structural)]
pub enum ReconcileAction {
    RefuseSpec,
    HandleDeletion,
    EnsureFinalizer,
    Requeue { secs: u64 },
    /// Write the suspension and look again after `requeue_secs`.
    WriteSuspended { requeue_secs: u64 },
    ReconcileServer,
    /// Warn about a server that failed, release the finalizer, and go on.
    AfterServer { warn: bool, release_finalizer: bool },
    BootstrapViaMover,
    ReadCredential,
    /// Terminally failed with these very credentials: a quiet heartbeat.
    Heartbeat,
    Connect,
    Create,
    /// Write the failure; a retryable one is an error of the reconcile, any
    /// other ends in a heartbeat.
    WriteFailure { retryable: bool },
    /// Read the repository's own status and write that it is ready.
    WriteReady,
    /// Scan the catalog where due, project the maintenance, and look again at
    /// the steady cadence.
    FinishSteady { scan: bool },
    /// The failure comes out.
    Fail,
    /// The event does not belong to the stage.
    Ignore,
}

/// The stage and action that follow the finalizer.
pub open spec fn after_finalizer(i: ReconcileInputs) -> (ReconcileStage, ReconcileAction) {
    if i.suspended {
        (
            ReconcileStage::Done,
            ReconcileAction::WriteSuspended { requeue_secs: SUSPENDED_REQUEUE_SECS },
        )
    } else {
        (ReconcileStage::Server, ReconcileAction::ReconcileServer)
    }
}

/// The next stage and action.
pub open spec fn reconcile_next(
    i: ReconcileInputs,
    stage: ReconcileStage,
    event: ReconcileEvent,
) -> (ReconcileStage, ReconcileAction) {
    match (stage, event) {
        (ReconcileStage::Done, _) => (stage, ReconcileAction::Ignore),
        (_, ReconcileEvent::Failed) => (ReconcileStage::Done, ReconcileAction::Fail),
        (ReconcileStage::Start, ReconcileEvent::Begin) => if i.refused {
            (ReconcileStage::Done, ReconcileAction::RefuseSpec)
        } else if i.deleting {
            (ReconcileStage::Done, ReconcileAction::HandleDeletion)
        } else if holds_finalizer(i) {
            (ReconcileStage::Finalizer, ReconcileAction::EnsureFinalizer)
        } else {
            after_finalizer(i)
        },
        (ReconcileStage::Finalizer, ReconcileEvent::FinalizerEnsured { added }) => if added {
            (ReconcileStage::Done, ReconcileAction::Requeue { secs: FINALIZER_REQUEUE_SECS })
        } else {
            after_finalizer(i)
        },
        (ReconcileStage::Server, ReconcileEvent::ServerReconciled { ok }) => (
            ReconcileStage::Backend,
            ReconcileAction::AfterServer { warn: !ok, release_finalizer: !holds_finalizer(i) },
        ),
        (ReconcileStage::Backend, ReconcileEvent::Proceed) => match i.route {
            BackendRoute::ViaMover => (ReconcileStage::Done, ReconcileAction::BootstrapViaMover),
            BackendRoute::InProcess => (ReconcileStage::Credential, ReconcileAction::ReadCredential),
        },
        (ReconcileStage::Credential, ReconcileEvent::CredentialRead { version }) => if gate_holds(
            i.phase,
            i.observed_generation,
            i.generation,
            opt_text(i.recorded_credential_version),
            version@,
        ) {
            (ReconcileStage::Done, ReconcileAction::Heartbeat)
        } else {
            (ReconcileStage::Connect, ReconcileAction::Connect)
        },
        (ReconcileStage::Connect, ReconcileEvent::Connected) => (
            ReconcileStage::Status,
            ReconcileAction::WriteReady,
        ),
        (ReconcileStage::Connect, ReconcileEvent::ConnectFailed { creatable, retryable }) => if creatable
            && may_create(i.create_enabled, i.unique_id) {
            (ReconcileStage::Create, ReconcileAction::Create)
        } else {
            (ReconcileStage::Done, ReconcileAction::WriteFailure { retryable })
        },
        (ReconcileStage::Create, ReconcileEvent::Created) => (
            ReconcileStage::Reconnect,
            ReconcileAction::Connect,
        ),
        (ReconcileStage::Create, ReconcileEvent::CreateFailed { retryable }) => (
            ReconcileStage::Done,
            ReconcileAction::WriteFailure { retryable },
        ),
        (ReconcileStage::Reconnect, ReconcileEvent::Connected) => (
            ReconcileStage::Status,
            ReconcileAction::WriteReady,
        ),
        (ReconcileStage::Reconnect, ReconcileEvent::ConnectFailed { creatable: _, retryable }) => (
            ReconcileStage::Done,
            ReconcileAction::WriteFailure { retryable },
        ),
        (ReconcileStage::Status, ReconcileEvent::StatusWritten { scan_due }) => (
            ReconcileStage::Done,
            ReconcileAction::FinishSteady { scan: scan_due },
        ),
        _ => (stage, ReconcileAction::Ignore),
    }
}

fn step_after_finalizer(i: &ReconcileInputs) -> (next: (ReconcileStage, ReconcileAction))
    ensures
        next == after_finalizer(*i),
{
    if i.suspended {
        (
            ReconcileStage::Done,
            ReconcileAction::WriteSuspended { requeue_secs: SUSPENDED_REQUEUE_SECS },
        )
    } else {
        (ReconcileStage::Server, ReconcileAction::ReconcileServer)
    }
}

/// Takes one step of a reconcile.
pub fn reconcile_inner(i: &ReconcileInputs, stage: ReconcileStage, event: &ReconcileEvent) -> (next: (
    ReconcileStage,
    ReconcileAction,
))
    ensures
        next == reconcile_next(*i, stage, *event),
{
    match (stage, event) {
        (ReconcileStage::Done, _) => (stage, ReconcileAction::Ignore),
        (_, ReconcileEvent::Failed) => (ReconcileStage::Done, ReconcileAction::Fail),
        (ReconcileStage::Start, ReconcileEvent::Begin) => {
            if i.refused {
                (ReconcileStage::Done, ReconcileAction::RefuseSpec)
            } else if i.deleting {
                (ReconcileStage::Done, ReconcileAction::HandleDeletion)
            } else if i.server_enabled || i.seed_armed {
                (ReconcileStage::Finalizer, ReconcileAction::EnsureFinalizer)
            } else {
                step_after_finalizer(i)
            }
        },
        (ReconcileStage::Finalizer, ReconcileEvent::FinalizerEnsured { added }) => {
            if *added {
                (ReconcileStage::Done, ReconcileAction::Requeue { secs: FINALIZER_REQUEUE_SECS })
            } else {
                step_after_finalizer(i)
            }
        },
        (ReconcileStage::Server, ReconcileEvent::ServerReconciled { ok }) => (
            ReconcileStage::Backend,
            ReconcileAction::AfterServer {
                warn: !*ok,
                release_finalizer: !(i.server_enabled || i.seed_armed),
            },
        ),
        (ReconcileStage::Backend, ReconcileEvent::Proceed) => match i.route {
            BackendRoute::ViaMover => (ReconcileStage::Done, ReconcileAction::BootstrapViaMover),
            BackendRoute::InProcess => (ReconcileStage::Credential, ReconcileAction::ReadCredential),
        },
        (ReconcileStage::Credential, ReconcileEvent::CredentialRead { version }) => {
            if terminal_gate_holds(
                &i.phase,
                i.observed_generation,
                i.generation,
                &i.recorded_credential_version,
                version.as_str(),
            ) {
                (ReconcileStage::Done, ReconcileAction::Heartbeat)
            } else {
                (ReconcileStage::Connect, ReconcileAction::Connect)
            }
        },
        (ReconcileStage::Connect, ReconcileEvent::Connected) => (
            ReconcileStage::Status,
            ReconcileAction::WriteReady,
        ),
        (ReconcileStage::Connect, ReconcileEvent::ConnectFailed { creatable, retryable }) => {
            if *creatable && auto_create_allowed(i.create_enabled, &i.unique_id) {
                (ReconcileStage::Create, ReconcileAction::Create)
            } else {
                (ReconcileStage::Done, ReconcileAction::WriteFailure { retryable: *retryable })
            }
        },
        (ReconcileStage::Create, ReconcileEvent::Created) => (
            ReconcileStage::Reconnect,
            ReconcileAction::Connect,
        ),
        (ReconcileStage::Create, ReconcileEvent::CreateFailed { retryable }) => (
            ReconcileStage::Done,
            ReconcileAction::WriteFailure { retryable: *retryable },
        ),
        (ReconcileStage::Reconnect, ReconcileEvent::Connected) => (
            ReconcileStage::Status,
            ReconcileAction::WriteReady,
        ),
        (ReconcileStage::Reconnect, ReconcileEvent::ConnectFailed { creatable: _, retryable }) => (
            ReconcileStage::Done,
            ReconcileAction::WriteFailure { retryable: *retryable },
        ),
        (ReconcileStage::Status, ReconcileEvent::StatusWritten { scan_due }) => (
            ReconcileStage::Done,
            ReconcileAction::FinishSteady { scan: *scan_due },
        ),
        _ => (stage, ReconcileAction::Ignore),
    }
}

/// The stage and the actions that a run of events leads to from the start.
pub open spec fn reconcile_trace(
    i: ReconcileInputs,
    events: Seq<ReconcileEvent>,
) -> (ReconcileStage, Seq<ReconcileAction>)
    decreases events.len(),
{
    if events.len() == 0 {
        (ReconcileStage::Start, Seq::empty())
    } else {
        let (stage, actions) = reconcile_trace(i, events.drop_last());
        let (next, action) = reconcile_next(i, stage, events.last());
        (next, actions.push(action))
    }
}

/// Whether an action touches the backend.
pub open spec fn touches_backend(a: ReconcileAction) -> bool {
    a is Connect || a is Create || a is BootstrapViaMover || a is WriteReady
}

proof fn quiet_trace(i: ReconcileInputs, events: Seq<ReconcileEvent>)
    requires
        i.refused || i.deleting || i.suspended,
    ensures
        ({
            let (stage, actions) = reconcile_trace(i, events);
            &&& stage is Start || (stage is Finalizer && i.suspended) || stage is Done
            &&& forall|k: int|
                0 <= k < actions.len() ==> !touches_backend(#[trigger] actions[k])
        }),
    decreases events.len(),
{
    if events.len() > 0 {
        quiet_trace(i, events.drop_last());
        let (stage, actions) = reconcile_trace(i, events.drop_last());
        let all = reconcile_trace(i, events).1;
        assert forall|k: int| 0 <= k < all.len() implies !touches_backend(#[trigger] all[k]) by {
            if k < actions.len() {
                assert(all[k] == actions[k]);
            }
        }
    }
}

/// A repository that is refused, being deleted or suspended is never connected
/// to, created or bootstrapped, whatever the answers.
pub proof fn paused_repository_is_left_alone(
    i: ReconcileInputs,
    events: Seq<ReconcileEvent>,
    k: int,
)
    requires
        i.refused || i.deleting || i.suspended,
        0 <= k < reconcile_trace(i, events).1.len(),
    ensures
        !touches_backend(reconcile_trace(i, events).1[k]),
{
    quiet_trace(i, events);
}

proof fn no_create_trace(i: ReconcileInputs, events: Seq<ReconcileEvent>)
    requires
        !may_create(i.create_enabled, i.unique_id),
    ensures
        ({
            let (stage, actions) = reconcile_trace(i, events);
            &&& !(stage is Create) && !(stage is Reconnect)
            &&& forall|k: int| 0 <= k < actions.len() ==> !((#[trigger] actions[k]) is Create)
        }),
    decreases events.len(),
{
    if events.len() > 0 {
        no_create_trace(i, events.drop_last());
        let actions = reconcile_trace(i, events.drop_last()).1;
        let all = reconcile_trace(i, events).1;
        assert forall|k: int| 0 <= k < all.len() implies !((#[trigger] all[k]) is Create) by {
            if k < actions.len() {
                assert(all[k] == actions[k]);
            }
        }
    }
}

/// A repository whose identity was ever bound is never created anew, whatever
/// the answers: a backend that was wiped shows as a failure.
pub proof fn bound_repository_is_never_recreated(
    i: ReconcileInputs,
    events: Seq<ReconcileEvent>,
    k: int,
)
    requires
        i.unique_id is Some || !i.create_enabled,
        0 <= k < reconcile_trace(i, events).1.len(),
    ensures
        !(reconcile_trace(i, events).1[k] is Create),
{
    no_create_trace(i, events);
}

/// A step that failed ends the reconcile, and one that is over does nothing
/// more.
pub proof fn failure_ends_the_reconcile(
    i: ReconcileInputs,
    stage: ReconcileStage,
    event: ReconcileEvent,
)
    ensures
        !(stage is Done) ==> reconcile_next(i, stage, ReconcileEvent::Failed) == (
            ReconcileStage::Done,
            ReconcileAction::Fail,
        ),
        reconcile_next(i, ReconcileStage::Done, event) == (
            ReconcileStage::Done,
            ReconcileAction::Ignore,
        ),
{
}

/// The finalizer is asked for and released by the same rule: no pass does both,
/// and a pass that gets past the server does one of them.
pub proof fn finalizer_rule_is_symmetric(
    i: ReconcileInputs,
    stage: ReconcileStage,
    event: ReconcileEvent,
)
    ensures
        reconcile_next(i, stage, event).1 is EnsureFinalizer ==> holds_finalizer(i),
        reconcile_next(i, stage, event).1 matches ReconcileAction::AfterServer {
            release_finalizer,
            ..
        } ==> release_finalizer == !holds_finalizer(i),
{
}

/// A failing server never keeps a repository from its backend.
pub proof fn failing_server_degrades_only(i: ReconcileInputs)
    ensures
        reconcile_next(
            i,
            ReconcileStage::Server,
            ReconcileEvent::ServerReconciled { ok: false },
        ).0 == reconcile_next(
            i,
            ReconcileStage::Server,
            ReconcileEvent::ServerReconciled { ok: true },
        ).0,
{
}

/// A connection that succeeds makes the repository ready, whether it was there
/// or was just created, and nothing else does: readiness is written next, and
/// then the reconcile ends at the steady cadence, with a scan where one is due.
pub proof fn connected_repository_becomes_ready(
    i: ReconcileInputs,
    stage: ReconcileStage,
    event: ReconcileEvent,
)
    ensures
        ({
            let (next, action) = reconcile_next(i, stage, event);
            &&& action is WriteReady <==> (stage is Connect || stage is Reconnect) && event
                is Connected
            &&& action is WriteReady ==> next is Status
            &&& action is FinishSteady <==> stage is Status && event is StatusWritten
            &&& action matches ReconcileAction::FinishSteady { scan } ==> scan
                == event->StatusWritten_scan_due && next is Done
        }),
{
}

/// The quiet heartbeat is for a repository that failed terminally: it is taken
/// only where `Failed` is on record at this very generation and with this very
/// revision of the Secret, and every other repository is connected to.
pub proof fn heartbeat_needs_a_terminal_failure(
    i: ReconcileInputs,
    stage: ReconcileStage,
    event: ReconcileEvent,
)
    ensures
        ({
            let (next, action) = reconcile_next(i, stage, event);
            let read = stage is Credential && event is CredentialRead;
            let failed = i.phase == Some(RepositoryPhase::Failed) && i.observed_generation is Some
                && i.generation is Some && i.observed_generation->0 == i.generation->0
                && i.recorded_credential_version is Some && i.recorded_credential_version->0@
                == event->CredentialRead_version@;
            &&& action is Heartbeat <==> read && failed
            &&& action is Heartbeat ==> next is Done
            &&& read && !failed ==> action is Connect && next is Connect
            &&& action is Connect <==> (read && !failed) || (stage is Create && event is Created)
            &&& stage is Create && event is Created ==> next is Reconnect
        }),
{
}

/// A repository is created only after a connection failed in a way that a
/// missing one fails, where creation is enabled and none was ever bound; every
/// other failure is written down as what it is, retryable or not, and ends the
/// reconcile.
pub proof fn failed_connection_creates_or_is_told(
    i: ReconcileInputs,
    stage: ReconcileStage,
    event: ReconcileEvent,
)
    ensures
        ({
            let (next, action) = reconcile_next(i, stage, event);
            let creates = stage is Connect && event is ConnectFailed
                && event->ConnectFailed_creatable && i.create_enabled && i.unique_id is None;
            &&& action is Create <==> creates
            &&& action is Create ==> next is Create
            &&& action is WriteFailure <==> {
                ||| stage is Connect && event is ConnectFailed && !creates
                ||| stage is Reconnect && event is ConnectFailed
                ||| stage is Create && event is CreateFailed
            }
            &&& action matches ReconcileAction::WriteFailure { retryable } ==> {
                &&& next is Done
                &&& event is ConnectFailed ==> retryable == event->ConnectFailed_retryable
                &&& event is CreateFailed ==> retryable == event->CreateFailed_retryable
            }
        }),
{
}

/// How a reconcile begins: a refused spec is told before anything else, a
/// deletion is handled before any other work, the finalizer is there before
/// anything that it guards, and a suspension stops before the server.
pub proof fn reconcile_begins_in_order(
    i: ReconcileInputs,
    stage: ReconcileStage,
    event: ReconcileEvent,
)
    ensures
        ({
            let (next, action) = reconcile_next(i, stage, event);
            let begins = stage is Start && event is Begin;
            let guarded = i.server_enabled || i.seed_armed;
            let goes_on = (begins && !i.refused && !i.deleting && !guarded) || (stage is Finalizer
                && event == (ReconcileEvent::FinalizerEnsured { added: false }));
            &&& action is RefuseSpec <==> begins && i.refused
            &&& action is HandleDeletion <==> begins && !i.refused && i.deleting
            &&& action is EnsureFinalizer <==> begins && !i.refused && !i.deleting && guarded
            &&& action is EnsureFinalizer ==> next is Finalizer
            &&& action is Requeue <==> stage is Finalizer && event
                == (ReconcileEvent::FinalizerEnsured { added: true })
            &&& action is WriteSuspended <==> goes_on && i.suspended
            &&& action is ReconcileServer <==> goes_on && !i.suspended
            &&& action is ReconcileServer ==> next is Server
            &&& action is RefuseSpec || action is HandleDeletion || action is Requeue || action
                is WriteSuspended ==> next is Done
            &&& action matches ReconcileAction::Requeue { secs } ==> secs == 2
            &&& action matches ReconcileAction::WriteSuspended { requeue_secs } ==> requeue_secs
                == 300
        }),
{
}

/// After its server, a repository is always taken to its backend: through a
/// mover, or from the controller by way of its credentials. A server that
/// failed is warned about, and the finalizer is released where nothing that it
/// guards is left.
pub proof fn backend_follows_the_server(
    i: ReconcileInputs,
    stage: ReconcileStage,
    event: ReconcileEvent,
)
    ensures
        ({
            let (next, action) = reconcile_next(i, stage, event);
            &&& action is AfterServer <==> stage is Server && event is ServerReconciled
            &&& action matches ReconcileAction::AfterServer { warn, release_finalizer } ==> {
                &&& next is Backend
                &&& warn == !event->ServerReconciled_ok
                &&& release_finalizer <==> !i.server_enabled && !i.seed_armed
            }
            &&& action is BootstrapViaMover <==> stage is Backend && event is Proceed && i.route
                == BackendRoute::ViaMover
            &&& action is BootstrapViaMover ==> next is Done
            &&& action is ReadCredential <==> stage is Backend && event is Proceed && i.route
                == BackendRoute::InProcess
            &&& action is ReadCredential ==> next is Credential
        }),
{
}

/// An answer that belongs to another stage changes nothing, and a reconcile
/// that is not over fails on no answer but a failure.
pub proof fn stray_answer_changes_nothing(
    i: ReconcileInputs,
    stage: ReconcileStage,
    event: ReconcileEvent,
)
    ensures
        reconcile_next(i, stage, event).1 is Ignore ==> reconcile_next(i, stage, event).0 == stage,
        reconcile_next(i, stage, event).1 is Fail <==> event is Failed && !(stage is Done),
{
}

/// One more answer takes one more step.
proof fn one_more_answer(i: ReconcileInputs, events: Seq<ReconcileEvent>, event: ReconcileEvent)
    ensures
        reconcile_trace(i, events.push(event)).0 == reconcile_next(
            i,
            reconcile_trace(i, events).0,
            event,
        ).0,
        reconcile_trace(i, events.push(event)).1 == reconcile_trace(i, events).1.push(
            reconcile_next(i, reconcile_trace(i, events).0, event).1,
        ),
{
    assert(events.push(event).drop_last() =~= events);
}

/// The answers of a repository without a server that is reachable from the
/// controller, up to its connection.
pub open spec fn answers_up_to_connect(server_ok: bool, version: String) -> Seq<ReconcileEvent> {
    seq![
        ReconcileEvent::Begin,
        ReconcileEvent::ServerReconciled { ok: server_ok },
        ReconcileEvent::Proceed,
        ReconcileEvent::CredentialRead { version },
    ]
}

/// A healthy repository on a plain path is connected to, written ready and
/// left at the steady cadence; a new one is created on the way.
pub proof fn healthy_reconcile_ends_ready(
    i: ReconcileInputs,
    server_ok: bool,
    version: String,
    retryable: bool,
    scan_due: bool,
)
    requires
        !i.refused && !i.deleting && !i.suspended && !i.server_enabled && !i.seed_armed,
        i.route == BackendRoute::InProcess,
        i.phase != Some(RepositoryPhase::Failed),
    ensures
        ({
            let up_to = answers_up_to_connect(server_ok, version);
            let there = up_to.push(ReconcileEvent::Connected);
            let made = up_to.push(
                ReconcileEvent::ConnectFailed { creatable: true, retryable },
            ).push(ReconcileEvent::Created).push(ReconcileEvent::Connected);
            let written = ReconcileEvent::StatusWritten { scan_due };
            let steady = ReconcileAction::FinishSteady { scan: scan_due };
            &&& reconcile_trace(i, up_to).1.last() is Connect
            &&& reconcile_trace(i, there).1.last() is WriteReady
            &&& reconcile_trace(i, there.push(written)).1.last() == steady
            &&& reconcile_trace(i, there.push(written)).0 is Done
            &&& i.create_enabled && i.unique_id is None ==> {
                &&& reconcile_trace(i, made).1.last() is WriteReady
                &&& reconcile_trace(i, made).1.contains(ReconcileAction::Create)
                &&& reconcile_trace(i, made.push(written)).1.last() == steady
            }
        }),
{
    let e0 = ReconcileEvent::Begin;
    let e1 = ReconcileEvent::ServerReconciled { ok: server_ok };
    let e2 = ReconcileEvent::Proceed;
    let e3 = ReconcileEvent::CredentialRead { version };
    let failed = ReconcileEvent::ConnectFailed { creatable: true, retryable };
    let written = ReconcileEvent::StatusWritten { scan_due };
    let s0 = Seq::<ReconcileEvent>::empty();
    let s1 = s0.push(e0);
    let s2 = s1.push(e1);
    let s3 = s2.push(e2);
    let s4 = s3.push(e3);
    let s5 = s4.push(failed);
    let s6 = s5.push(ReconcileEvent::Created);
    let s7 = s6.push(ReconcileEvent::Connected);
    assert(answers_up_to_connect(server_ok, version) =~= s4);
    assert(reconcile_trace(i, s0).0 is Start);
    one_more_answer(i, s0, e0);
    one_more_answer(i, s1, e1);
    one_more_answer(i, s2, e2);
    one_more_answer(i, s3, e3);
    one_more_answer(i, s4, ReconcileEvent::Connected);
    one_more_answer(i, s4.push(ReconcileEvent::Connected), written);
    one_more_answer(i, s4, failed);
    one_more_answer(i, s5, ReconcileEvent::Created);
    one_more_answer(i, s6, ReconcileEvent::Connected);
    one_more_answer(i, s7, written);
    if i.create_enabled && i.unique_id is None {
        let all = reconcile_trace(i, s7).1;
        assert(all.len() == 7);
        assert(all[4] == ReconcileAction::Create);
    }
}

/// The text of a suspension.
pub const SUSPENDED_MESSAGE: &'static str = "ClusterRepository is suspended (spec.suspend); skipping connect and maintenance";

/// The status patch of a suspension.
pub open spec fn suspended_patch(repo: RepositoryState, now: Seq<char>) -> StatusPatchView {
    StatusPatchView {
        observed_generation: Some(repo.generation),
        conditions: Some(
            ready_folded(
                views(repo.conditions@),
                repo.generation,
                ReadyOutcome::Reconciling,
                "Suspended"@,
                SUSPENDED_MESSAGE@,
                now,
            ),
        ),
        ..no_patch()
    }
}

/// The status patch of a suspension.
pub fn suspended_status(repo: &RepositoryState, now: &str) -> (patch: StatusPatch)
    ensures
        patch@ == suspended_patch(*repo, now@),
{
    let mut patch = StatusPatch::new();
    patch.observed_generation = Some(repo.generation);
    patch.conditions = Some(
        set_ready(
            &repo.conditions,
            repo.generation,
            ReadyOutcome::Reconciling,
            "Suspended",
            SUSPENDED_MESSAGE,
            now,
        ),
    );
    proof {
        assert(patch@ =~= suspended_patch(*repo, now@));
    }
    patch
}

/// The phase of a connection that failed.
pub open spec fn failed_phase(retryable: bool) -> RepositoryPhase {
    if retryable {
        RepositoryPhase::Degraded
    } else {
        RepositoryPhase::Failed
    }
}

/// The status patch of a connection that failed, under kopia's class and
/// summary. The Secret revision is pinned, so that a later fix reopens it.
pub open spec fn connect_failure_patch(
    repo: RepositoryState,
    retryable: bool,
    class: Seq<char>,
    summary: Seq<char>,
    credential_version: Seq<char>,
    now: Seq<char>,
) -> StatusPatchView {
    StatusPatchView {
        phase: Some(
            if retryable {
                "Degraded"@
            } else {
                "Failed"@
            },
        ),
        backend: Some("Filesystem"@),
        observed_generation: Some(repo.generation),
        resolved_credential_version: Some(credential_version),
        conditions: Some(
            ready_folded(
                upserted(
                    views(repo.conditions@),
                    condition_of(
                        REPOSITORY_BOOTSTRAPPED_CONDITION@,
                        false,
                        class,
                        summary,
                        repo.generation,
                        now,
                    ),
                ),
                repo.generation,
                phase_outcome(failed_phase(retryable)),
                class,
                summary,
                now,
            ),
        ),
        ..no_patch()
    }
}

/// The status patch of a connection that failed.
pub fn connect_failure_status(
    repo: &RepositoryState,
    retryable: bool,
    class: &str,
    summary: &str,
    credential_version: &str,
    now: &str,
) -> (patch: StatusPatch)
    ensures
        patch@ == connect_failure_patch(
            *repo,
            retryable,
            class@,
            summary@,
            credential_version@,
            now@,
        ),
{
    let phase = if retryable {
        RepositoryPhase::Degraded
    } else {
        RepositoryPhase::Failed
    };
    let conditions = cluster_bootstrap_condition(repo, false, class, summary, now);
    let conditions = set_ready(
        &conditions,
        repo.generation,
        ready_outcome_for_phase(&phase),
        class,
        summary,
        now,
    );
    let mut patch = StatusPatch::new();
    patch.phase = Some(phase.label());
    patch.backend = Some("Filesystem".to_owned());
    patch.observed_generation = Some(repo.generation);
    patch.resolved_credential_version = Some(credential_version.to_owned());
    patch.conditions = Some(conditions);
    proof {
        assert(patch@ =~= connect_failure_patch(
            *repo,
            retryable,
            class@,
            summary@,
            credential_version@,
            now@,
        ));
    }
    patch
}

/// What a repository that was connected to in process reports.
pub struct ConnectedReport {
    pub unique_id: String,
    pub allowed_namespace_count: i64,
    pub credential_version: String,
    pub reverify_token: Option<String>,
    pub last_reverify_at: Option<String>,
}

/// The status patch of a repository that was connected to in process. A
/// re-probe that was asked for is stamped once.
pub open spec fn connected_patch(
    generation: Option<i64>,
    folded: Seq<ConditionView>,
    report: ConnectedReport,
    now: Seq<char>,
) -> StatusPatchView {
    StatusPatchView {
        phase: Some("Ready"@),
        backend: Some("Filesystem"@),
        unique_id: Some(Some(report.unique_id@)),
        allowed_namespace_count: Some(report.allowed_namespace_count),
        observed_generation: Some(generation),
        resolved_credential_version: Some(report.credential_version@),
        conditions: Some(
            ready_folded(
                folded,
                generation,
                ReadyOutcome::Ready,
                "Connected"@,
                "connected to the existing repository"@,
                now,
            ),
        ),
        last_reverify_at: if report.reverify_token is Some && opt_text(report.last_reverify_at)
            != opt_text(report.reverify_token) {
            opt_text(report.reverify_token)
        } else {
            None
        },
        ..no_patch()
    }
}

/// The status patch of a repository that was connected to in process.
/// `folded` are its conditions after the deletion fold.
pub fn connected_status(
    generation: Option<i64>,
    folded: &Vec<Condition>,
    report: &ConnectedReport,
    now: &str,
) -> (patch: StatusPatch)
    ensures
        patch@ == connected_patch(generation, views(folded@), *report, now@),
{
    let mut patch = StatusPatch::new();
    patch.phase = Some("Ready".to_owned());
    patch.backend = Some("Filesystem".to_owned());
    patch.unique_id = Some(Some(report.unique_id.clone()));
    patch.allowed_namespace_count = Some(report.allowed_namespace_count);
    patch.observed_generation = Some(generation);
    patch.resolved_credential_version = Some(report.credential_version.clone());
    patch.conditions = Some(
        set_ready(
            folded,
            generation,
            ready_outcome_for_phase(&RepositoryPhase::Ready),
            "Connected",
            "connected to the existing repository",
            now,
        ),
    );
    if let Some(token) = &report.reverify_token {
        if !is_text(&report.last_reverify_at, token.as_str()) {
            patch.last_reverify_at = Some(token.clone());
        }
    }
    proof {
        assert(patch@ =~= connected_patch(generation, views(folded@), *report, now@));
    }
    patch
}

/// The status patch of a repository that waits for its seed source.
pub open spec fn seed_park_patch(
    conditions: Seq<ConditionView>,
    generation: Option<i64>,
    gate: StructuralGate,
    message: Seq<char>,
    now: Seq<char>,
) -> StatusPatchView {
    StatusPatchView {
        phase: Some("Pending"@),
        conditions: Some(
            ready_folded(
                upserted(
                    conditions,
                    condition_of(
                        gate.condition@,
                        gate.blocked,
                        gate.reason@,
                        message,
                        generation,
                        now,
                    ),
                ),
                generation,
                ReadyOutcome::Reconciling,
                gate.reason@,
                message,
                now,
            ),
        ),
        ..no_patch()
    }
}

/// The status patch of a repository that waits for its seed source, built on
/// freshly read conditions.
pub fn park_cluster_on_seed_source(
    conditions: &Vec<Condition>,
    generation: Option<i64>,
    gate: &StructuralGate,
    message: &str,
    now: &str,
) -> (patch: StatusPatch)
    ensures
        patch@ == seed_park_patch(views(conditions@), generation, *gate, message@, now@),
{
    let gated = upsert_gate(conditions, gate, message, generation, now);
    let ready = set_ready(
        &gated,
        generation,
        ReadyOutcome::Reconciling,
        gate.reason,
        message,
        now,
    );
    let mut patch = StatusPatch::new();
    patch.phase = Some("Pending".to_owned());
    patch.conditions = Some(ready);
    proof {
        assert(patch@ =~= seed_park_patch(views(conditions@), generation, *gate, message@, now@));
    }
    patch
}

/// The progress of a seed, as a status patch: none where no seed is asked for,
/// and none over a failure on record.
pub fn write_cluster_seeding_condition(
    seed_source: &Option<String>,
    deadline_secs: i64,
    conditions: &Vec<Condition>,
    generation: Option<i64>,
    now: &str,
) -> (patch: Option<StatusPatch>)
    ensures
        patch is None <==> (seed_source is None || exists|k: int|
            0 <= k < conditions@.len() && records_failure(#[trigger] conditions@[k]@)),
        patch is Some ==> patch->0@ == (StatusPatchView {
            conditions: Some(
                upserted(
                    views(conditions@),
                    condition_of(
                        SEEDED_CONDITION@,
                        false,
                        "Seeding"@,
                        seeding_text(seed_source->0@, deadline_secs as int),
                        generation,
                        now@,
                    ),
                ),
            ),
            ..no_patch()
        }),
{
    match seed_source {
        None => None,
        Some(source) => {
            if seed_failure_recorded(conditions) {
                return None;
            }
            let message = seeding_message(source.as_str(), deadline_secs);
            let gated = upsert_gate(
                conditions,
                &seeding_gate(),
                message.as_str(),
                generation,
                now,
            );
            let mut patch = StatusPatch::new();
            patch.conditions = Some(gated);
            proof {
                assert(patch@ =~= (StatusPatchView {
                    conditions: Some(
                        upserted(
                            views(conditions@),
                            condition_of(
                                SEEDED_CONDITION@,
                                false,
                                "Seeding"@,
                                seeding_text(seed_source->0@, deadline_secs as int),
                                generation,
                                now@,
                            ),
                        ),
                    ),
                    ..no_patch()
                }));
            }
            Some(patch)
        },
    }
}

/// The text of [`unplaced_warning_message`].
pub open spec fn unplaced_warning_text(hosts: Seq<Seq<char>>) -> Seq<char> {
    "discovered snapshots unplaced: identity hostname(s) ["@
        + joined(hosts, ", "@)
        + "] match no namespace in spec.allowedNamespaces — each Snapshot is placed by its identity hostname. Fix: create/allow those namespaces, or set spec.catalog.fallbackNamespace to collect them in one namespace; if shared across clusters, set identityDefaults.cluster and catalog.foreignSnapshots: Ignore to count them instead"@
}

/// The warning about snapshots that no namespace takes in: the hosts they name, and every fix.
pub fn unplaced_warning_message(hosts: &Vec<String>) -> (message: String)
    ensures
        message@ == unplaced_warning_text(texts(hosts@)),
{
    let mut message = "discovered snapshots unplaced: identity hostname(s) [".to_owned();
    message.append(join(hosts, ", ").as_str());
    message.append("] match no namespace in spec.allowedNamespaces — each Snapshot is placed by its identity hostname. Fix: create/allow those namespaces, or set spec.catalog.fallbackNamespace to collect them in one namespace; if shared across clusters, set identityDefaults.cluster and catalog.foreignSnapshots: Ignore to count them instead");
    message
}

/// What a catalog scan found.
pub struct ScanOutcome {
    pub discovered: i64,
    pub foreign: i64,
    pub unplaced_hosts: Vec<String>,
}

/// The status patch of a catalog scan. What the mover dropped before the scan
/// counts as foreign too, and any completed scan honors a pending request.
pub open spec fn scan_patch(
    outcome: ScanOutcome,
    prefiltered: i64,
    token: Option<Seq<char>>,
    total: i64,
    size_bytes: i64,
    now: Seq<char>,
) -> StatusPatchView {
    StatusPatchView {
        catalog: Some(
            CatalogPatchView {
                discovered_backup_count: Some(outcome.discovered),
                foreign_snapshot_count: Some((outcome.foreign + prefiltered) as i64),
                last_refresh_at: Some(now),
                scan_request_honored: token,
                scan_request_attempt_at: None,
            },
        ),
        storage_stats: Some(
            StorageStats {
                snapshot_count: Some(total),
                index_blob_count: None,
                total_size_bytes: Some(size_bytes),
            },
        ),
        ..no_patch()
    }
}

/// Reflects a catalog scan: the status patch, and a warning where snapshots
/// found no namespace.
pub fn run_cluster_catalog_scan(
    outcome: &ScanOutcome,
    prefiltered: i64,
    token: &Option<String>,
    total: i64,
    size_bytes: i64,
    now: &str,
) -> (reflected: (StatusPatch, Option<String>))
    requires
        i64::MIN <= outcome.foreign + prefiltered <= i64::MAX,
    ensures
        reflected.0@ == scan_patch(*outcome, prefiltered, opt_text(*token), total, size_bytes, now@),
        opt_text(reflected.1) == (if outcome.unplaced_hosts@.len() > 0 {
            Some(unplaced_warning_text(texts(outcome.unplaced_hosts@)))
        } else {
            None
        }),
{
    let warning = if outcome.unplaced_hosts.len() > 0 {
        Some(unplaced_warning_message(&outcome.unplaced_hosts))
    } else {
        None
    };
    let foreign_total: i64 = outcome.foreign + prefiltered;
    let mut patch = StatusPatch::new();
    patch.catalog = Some(
        CatalogPatch {
            discovered_backup_count: Some(outcome.discovered),
            foreign_snapshot_count: Some(foreign_total),
            last_refresh_at: Some(now.to_owned()),
            scan_request_honored: copy_opt(token),
            scan_request_attempt_at: None,
        },
    );
    patch.storage_stats = Some(
        StorageStats {
            snapshot_count: Some(total),
            index_blob_count: None,
            total_size_bytes: Some(size_bytes),
        },
    );
    proof {
        assert(patch@ =~= scan_patch(
            *outcome,
            prefiltered,
            opt_text(*token),
            total,
            size_bytes,
            now@,
        ));
    }
    (patch, warning)
}

/// What the deletion of a `ClusterRepository` cleans up.
pub struct DeletionPlan {
    /// The namespace whose server objects and mirrored credentials go.
    pub server_namespace: Option<String>,
    /// The namespace of the bootstrap Job, or why it is not known.
    pub job_namespace: Result<String, Error>,
}

/// Whether the cleanup finalizer is among an object's.
fn has_cleanup_finalizer(finalizers: &Vec<String>) -> (yes: bool)
    ensures
        yes == exists|k: int|
            0 <= k < finalizers@.len() && (#[trigger] finalizers@[k])@ == SERVER_CLEANUP_FINALIZER@,
{
    let mut i: usize = 0;
    while i < finalizers.len()
        invariant
            i <= finalizers.len(),
            forall|j: int|
                0 <= j < i ==> (#[trigger] finalizers@[j])@ != SERVER_CLEANUP_FINALIZER@,
        decreases finalizers.len() - i,
    {
        if same_text(finalizers[i].as_str(), SERVER_CLEANUP_FINALIZER) {
            return true;
        }
        i = i + 1;
    }
    false
}

/// Plans the cleanup of a `ClusterRepository` that is being deleted: nothing
/// where the finalizer is not its own any more. The server's namespace is the
/// one last applied, else the one its spec names. Not knowing the namespace of
/// the Job never holds a deletion back.
pub fn handle_cluster_deletion(
    finalizers: &Vec<String>,
    applied_server_namespace: &Option<String>,
    spec_server_namespace: &Option<String>,
    secret_namespace: Option<&str>,
    operator_namespace: Option<&str>,
) -> (plan: Option<DeletionPlan>)
    ensures
        plan is Some <==> exists|k: int|
            0 <= k < finalizers@.len() && (#[trigger] finalizers@[k])@ == SERVER_CLEANUP_FINALIZER@,
        plan is Some ==> {
            &&& opt_text(plan->0.server_namespace) == (match *applied_server_namespace {
                Some(n) => Some(n@),
                None => opt_text(*spec_server_namespace),
            })
            &&& secret_namespace is Some ==> plan->0.job_namespace is Ok
                && plan->0.job_namespace->Ok_0@ == secret_namespace->0@
            &&& secret_namespace is None && operator_namespace is Some
                ==> plan->0.job_namespace is Ok && plan->0.job_namespace->Ok_0@
                == operator_namespace->0@
            &&& secret_namespace is None && operator_namespace is None
                ==> plan->0.job_namespace is Err && plan->0.job_namespace->Err_0 is Validation
                && plan->0.job_namespace->Err_0.text() == NO_SECRET_NAMESPACE@
        },
{
    if !has_cleanup_finalizer(finalizers) {
        return None;
    }
    let server_namespace = match applied_server_namespace {
        Some(n) => Some(n.clone()),
        None => copy_opt(spec_server_namespace),
    };
    Some(
        DeletionPlan {
            server_namespace,
            job_namespace: cluster_secret_namespace(secret_namespace, operator_namespace),
        },
    )
}

/// How soon a repository at rest is looked at again: at its own cadence, or at
/// the probe's where that is shorter.
pub fn cluster_probe_aware_reconcile_interval(
    base_secs: u64,
    probe_enabled: bool,
    probe_secs: u64,
) -> (secs: u64)
    ensures
        secs == (if probe_enabled && probe_secs < base_secs {
            probe_secs
        } else {
            base_secs
        }),
{
    if probe_enabled && probe_secs < base_secs {
        probe_secs
    } else {
        base_secs
    }
}

/// A suspended repository says so: it shows neither readiness nor a stall, but
/// that it is suspended, at the generation that was seen, and keeps its phase,
/// its identity and everything else that is on record.
pub proof fn suspension_is_shown(repo: RepositoryState, now: Seq<char>)
    ensures
        ({
            let p = suspended_patch(repo, now);
            let message = SUSPENDED_MESSAGE@;
            &&& p.observed_generation == Some(repo.generation)
            &&& p.conditions is Some
            &&& shows(p.conditions->0, "Ready"@, false, "Suspended"@, message, repo.generation)
            &&& shows(p.conditions->0, "Reconciling"@, true, "Suspended"@, message, repo.generation)
            &&& shows(p.conditions->0, "Stalled"@, false, "Suspended"@, message, repo.generation)
            &&& forall|t: Seq<char>|
                t != "Ready"@ && t != "Reconciling"@ && t != "Stalled"@ ==> #[trigger] lookup(
                    p.conditions->0,
                    t,
                ) == lookup(views(repo.conditions@), t)
            &&& p.phase is None && p.backend is None && p.unique_id is None
            &&& p.allowed_namespace_count is None && p.resolved_credential_version is None
            &&& p.last_reverify_at is None && p.storage_stats is None && p.parameters is None
            &&& p.health is None && p.catalog is None && p.seed is None
        }),
{
    outcome_is_shown_in_all_three(
        views(repo.conditions@),
        repo.generation,
        ReadyOutcome::Reconciling,
        "Suspended"@,
        SUSPENDED_MESSAGE@,
        now,
    );
}

/// A connection that failed is shown as what it is: one that can be retried
/// degrades the repository and is still being worked on, any other fails it and
/// stalls. The failure's class and summary stand in the conditions, the
/// generation and the Secret's revision are pinned, and the identity that was
/// bound is kept.
pub proof fn failed_connection_is_shown(
    repo: RepositoryState,
    retryable: bool,
    class: Seq<char>,
    summary: Seq<char>,
    credential_version: Seq<char>,
    now: Seq<char>,
)
    ensures
        ({
            let p = connect_failure_patch(repo, retryable, class, summary, credential_version, now);
            let g = repo.generation;
            &&& retryable ==> p.phase == Some("Degraded"@)
            &&& !retryable ==> p.phase == Some("Failed"@)
            &&& p.backend == Some("Filesystem"@)
            &&& p.observed_generation == Some(g)
            &&& p.resolved_credential_version == Some(credential_version)
            &&& p.conditions is Some
            &&& shows(p.conditions->0, "Bootstrapped"@, false, class, summary, g)
            &&& shows(p.conditions->0, "Ready"@, false, class, summary, g)
            &&& shows(p.conditions->0, "Reconciling"@, retryable, class, summary, g)
            &&& shows(p.conditions->0, "Stalled"@, !retryable, class, summary, g)
            &&& forall|t: Seq<char>|
                t != "Ready"@ && t != "Reconciling"@ && t != "Stalled"@ && t != "Bootstrapped"@
                    ==> #[trigger] lookup(p.conditions->0, t) == lookup(views(repo.conditions@), t)
            &&& p.unique_id is None && p.allowed_namespace_count is None
            &&& p.last_reverify_at is None && p.storage_stats is None && p.parameters is None
            &&& p.health is None && p.catalog is None && p.seed is None
        }),
{
    reveal_strlit("Bootstrapped");
    reveal_strlit("Ready");
    reveal_strlit("Reconciling");
    reveal_strlit("Stalled");
    let conds = views(repo.conditions@);
    let b = condition_of(
        REPOSITORY_BOOTSTRAPPED_CONDITION@,
        false,
        class,
        summary,
        repo.generation,
        now,
    );
    written_condition_is_shown(
        conds,
        REPOSITORY_BOOTSTRAPPED_CONDITION@,
        false,
        class,
        summary,
        repo.generation,
        now,
    );
    outcome_is_shown_in_all_three(
        upserted(conds, b),
        repo.generation,
        phase_outcome(failed_phase(retryable)),
        class,
        summary,
        now,
    );
    assert("Bootstrapped"@.len() == 12 && "Ready"@.len() == 5 && "Reconciling"@.len() == 11
        && "Stalled"@.len() == 7);
    let p = connect_failure_patch(repo, retryable, class, summary, credential_version, now);
    assert forall|t: Seq<char>|
        t != "Ready"@ && t != "Reconciling"@ && t != "Stalled"@ && t != "Bootstrapped"@ implies #[trigger] lookup(
        p.conditions->0,
        t,
    ) == lookup(conds, t) by {
        upsert_keeps_other_types(conds, b, t);
    }
}

/// A repository that was connected to is ready and bound: its phase, its
/// conditions, the identity that it reported, the generation and the Secret's
/// revision are written, and a re-probe is stamped exactly where its token is
/// not the one that was stamped last.
pub proof fn connected_repository_is_bound(
    generation: Option<i64>,
    folded: Seq<ConditionView>,
    report: ConnectedReport,
    now: Seq<char>,
)
    ensures
        ({
            let p = connected_patch(generation, folded, report, now);
            let message = "connected to the existing repository"@;
            let asked = report.reverify_token is Some && !(report.last_reverify_at is Some
                && report.last_reverify_at->0@ == report.reverify_token->0@);
            &&& p.phase == Some("Ready"@)
            &&& p.backend == Some("Filesystem"@)
            &&& p.unique_id == Some(Some(report.unique_id@))
            &&& p.allowed_namespace_count == Some(report.allowed_namespace_count)
            &&& p.observed_generation == Some(generation)
            &&& p.resolved_credential_version == Some(report.credential_version@)
            &&& p.conditions is Some
            &&& shows(p.conditions->0, "Ready"@, true, "Connected"@, message, generation)
            &&& shows(p.conditions->0, "Reconciling"@, false, "Connected"@, message, generation)
            &&& shows(p.conditions->0, "Stalled"@, false, "Connected"@, message, generation)
            &&& forall|t: Seq<char>|
                t != "Ready"@ && t != "Reconciling"@ && t != "Stalled"@ ==> #[trigger] lookup(
                    p.conditions->0,
                    t,
                ) == lookup(folded, t)
            &&& p.last_reverify_at is Some <==> asked
            &&& asked ==> p.last_reverify_at == Some(report.reverify_token->0@)
            &&& p.storage_stats is None && p.parameters is None && p.health is None
            &&& p.catalog is None && p.seed is None
        }),
{
    outcome_is_shown_in_all_three(
        folded,
        generation,
        ReadyOutcome::Ready,
        "Connected"@,
        "connected to the existing repository"@,
        now,
    );
}

/// A repository that waits for its seed source is pending, shows why under the
/// gate's own condition, and is not taken for failed: its identity, its
/// generation and its seed stay as they are.
pub proof fn seed_park_is_shown(
    conditions: Seq<ConditionView>,
    generation: Option<i64>,
    gate: StructuralGate,
    message: Seq<char>,
    now: Seq<char>,
)
    requires
        gate.condition@ != "Ready"@,
        gate.condition@ != "Reconciling"@,
        gate.condition@ != "Stalled"@,
    ensures
        ({
            let p = seed_park_patch(conditions, generation, gate, message, now);
            &&& p.phase == Some("Pending"@)
            &&& p.conditions is Some
            &&& shows(
                p.conditions->0,
                gate.condition@,
                gate.blocked,
                gate.reason@,
                message,
                generation,
            )
            &&& shows(p.conditions->0, "Ready"@, false, gate.reason@, message, generation)
            &&& shows(p.conditions->0, "Reconciling"@, true, gate.reason@, message, generation)
            &&& shows(p.conditions->0, "Stalled"@, false, gate.reason@, message, generation)
            &&& p.backend is None && p.observed_generation is None && p.unique_id is None
            &&& p.allowed_namespace_count is None && p.resolved_credential_version is None
            &&& p.last_reverify_at is None && p.storage_stats is None && p.parameters is None
            &&& p.health is None && p.catalog is None && p.seed is None
        }),
{
    let c = condition_of(gate.condition@, gate.blocked, gate.reason@, message, generation, now);
    written_condition_is_shown(
        conditions,
        gate.condition@,
        gate.blocked,
        gate.reason@,
        message,
        generation,
        now,
    );
    outcome_is_shown_in_all_three(
        upserted(conditions, c),
        generation,
        ReadyOutcome::Reconciling,
        gate.reason@,
        message,
        now,
    );
}

/// What a catalog scan writes: what it discovered, everything foreign whether
/// it was dropped before the scan or by it, the time, the request that it
/// honors, and how much there is; no phase, condition or identity.
pub proof fn scan_counts_everything_foreign(
    outcome: ScanOutcome,
    prefiltered: i64,
    token: Option<Seq<char>>,
    total: i64,
    size_bytes: i64,
    now: Seq<char>,
)
    requires
        i64::MIN <= outcome.foreign + prefiltered <= i64::MAX,
    ensures
        ({
            let p = scan_patch(outcome, prefiltered, token, total, size_bytes, now);
            &&& p.catalog is Some && p.storage_stats is Some
            &&& p.catalog->0.discovered_backup_count == Some(outcome.discovered)
            &&& p.catalog->0.foreign_snapshot_count is Some
            &&& p.catalog->0.foreign_snapshot_count->0 - prefiltered == outcome.foreign
            &&& p.catalog->0.last_refresh_at == Some(now)
            &&& p.catalog->0.scan_request_honored == token
            &&& p.catalog->0.scan_request_attempt_at is None
            &&& p.storage_stats->0.snapshot_count == Some(total)
            &&& p.storage_stats->0.total_size_bytes == Some(size_bytes)
            &&& p.storage_stats->0.index_blob_count is None
            &&& p.phase is None && p.backend is None && p.observed_generation is None
            &&& p.unique_id is None && p.allowed_namespace_count is None
            &&& p.resolved_credential_version is None && p.last_reverify_at is None
            &&& p.conditions is None && p.parameters is None && p.health is None && p.seed is None
        }),
{
}

/// Snapshots that no namespace takes in are told with their hosts.
pub proof fn unplaced_warning_text_names_all(
    hosts: Seq<Seq<char>>,
)
    ensures
        mentions(unplaced_warning_text(hosts), "discovered snapshots unplaced: identity hostname(s) ["@ + joined(hosts, ", "@)),
{
    let text = unplaced_warning_text(hosts);
    let head = Seq::<char>::empty();
    let part = "discovered snapshots unplaced: identity hostname(s) ["@ + joined(hosts, ", "@);
    let tail = text.skip((head + part).len() as int);
    assert(text =~= head + part + tail);
    part_is_mentioned(head, part, tail);
}

} // verus!
