use kopiur_controller::backend::{Backend, RepositoryKind, SecretRef};
use kopiur_controller::bootstrap::{
    BootstrapFailure, BootstrapOutcome, KopiaErrorClass, MoverJobTerminal, RepositoryPhase, SeedFailure,
};
use kopiur_controller::cluster_bootstrap::{
    bootstrap_cluster_via_mover, launch_status, prepare_seed, BootstrapAction, BootstrapEvent,
    BootstrapInputs, BootstrapStage, LaunchRecord, ProbeAction, SeedPreparation,
};
use kopiur_controller::cluster_job::{
    bootstrap_job_plan, identity_backends, mover_creds_secrets, BootstrapJobSettings,
};
use kopiur_controller::cluster_objects::{
    cluster_last_refresh_at, cluster_scan_requested_attempt_at, cluster_scan_requested_honored,
    cluster_scan_requested_token, ensure_cluster_maintenance, mass_deletion_ack_raw,
    reconcile_cluster_server, record_cluster_repository_status_metrics, CatalogStatus,
};
use kopiur_controller::cluster_reconcile::{
    backend_route, cluster_maintenance_placement, cluster_probe_aware_reconcile_interval,
    connect_failure_status, connected_status, handle_cluster_deletion,
    park_cluster_on_seed_source, reconcile_inner, run_cluster_catalog_scan, suspended_status,
    write_cluster_seeding_condition, BackendRoute, ConnectedReport, ReconcileAction,
    ReconcileEvent, ReconcileInputs, ReconcileStage, ScanOutcome, SERVER_CLEANUP_FINALIZER,
};
use kopiur_controller::cluster_finalize::{
    allowed_namespace_count, breaker_note, failure_consumes_job, finalize_cluster_bootstrap,
    finalize_cluster_bootstrap_failure,
    finalize_cluster_probe_failure, finalize_conditions, finalize_effects, finalize_step,
    park_terminal_cluster_bootstrap, recycle_announces, recycle_cluster_bootstrap_outage,
    recycle_failed_cluster_bootstrap, retry_backoff_step, sensor_effects, AllowedNamespaces,
    BootstrapResult, BreakerPhase, FailureStep, FailureText, FinalizeStep, RepositoryState, SensorFold,
    StreakStamp,
};
use kopiur_controller::conditions::Condition;
use kopiur_controller::error::Error;
use kopiur_controller::labels::Labels;
use kopiur_controller::rbac::MoverRunIdentity;
use kopiur_controller::seed::{
    seed_source_not_ready_gate, SeedMode, SeedOutcome, SeedOutcomeLabel, SeedStatus,
};
use kopiur_controller::seed_run::{
    arm_blob_seed, ArmedSeed, FailurePolicy, SeedSource, SeedSpec, Throttle, SEED_ENV_PREFIX,
};
use kopiur_controller::status::HealthPatch;
use kopiur_controller::work_spec::{BootstrapWork, ForeignSnapshots};

const NOW: &str = "2026-01-01T00:00:00+00:00";
const LATER: &str = "2026-01-02T00:00:00+00:00";

fn inputs() -> BootstrapInputs {
    BootstrapInputs {
        prior_phase: Some(RepositoryPhase::Ready),
        unique_id: Some("uid-1".to_string()),
        generation: Some(3),
        observed_generation: Some(3),
        reverify: false,
        probe_enabled: true,
        probe: ProbeAction::Idle,
        seed_armed: false,
        base_deadline_secs: 300,
    }
}

fn fresh() -> BootstrapInputs {
    BootstrapInputs {
        prior_phase: None,
        unique_id: None,
        observed_generation: None,
        ..inputs()
    }
}

fn run(i: &BootstrapInputs, events: &[BootstrapEvent]) -> (BootstrapStage, Vec<BootstrapAction>) {
    let mut stage = BootstrapStage::Observe;
    let mut actions = Vec::new();
    for e in events {
        let (next, action) = bootstrap_cluster_via_mover(i, stage, *e);
        stage = next;
        actions.push(action);
    }
    (stage, actions)
}

fn missing() -> BootstrapEvent {
    BootstrapEvent::JobMissing { create_due: true, holdoff_secs: None }
}

#[test]
fn a_first_bootstrap_walks_every_step() {
    let (stage, actions) = run(
        &fresh(),
        &[
            missing(),
            BootstrapEvent::LegacyChecked { cleared: true },
            BootstrapEvent::AuthorityRead,
            BootstrapEvent::SeedPrepared { seed: SeedPreparation::NotArmed },
            BootstrapEvent::CredentialsPresent,
            BootstrapEvent::IdentityEnsured,
            BootstrapEvent::JobCreated,
        ],
    );
    assert_eq!(stage, BootstrapStage::Done);
    assert_eq!(
        actions,
        vec![
            BootstrapAction::CheckLegacyJob,
            BootstrapAction::ReadAuthority,
            BootstrapAction::PrepareSeed,
            BootstrapAction::CheckCredentials,
            BootstrapAction::EnsureIdentity { count_projected: None },
            BootstrapAction::CreateJob { probe_only: false },
            BootstrapAction::RecordLaunch { requeue_secs: 15 },
        ]
    );
}

#[test]
fn the_marker_of_a_seed_is_stamped_before_its_job() {
    let (_, actions) = run(
        &fresh(),
        &[
            missing(),
            BootstrapEvent::LegacyChecked { cleared: true },
            BootstrapEvent::AuthorityRead,
            BootstrapEvent::SeedPrepared {
                seed: SeedPreparation::Armed { marker_due: true, projected: 2 },
            },
            BootstrapEvent::CredentialsPresent,
            BootstrapEvent::IdentityEnsured,
            BootstrapEvent::MarkerStamped,
        ],
    );
    assert_eq!(
        actions[4..],
        [
            BootstrapAction::EnsureIdentity { count_projected: Some(2) },
            BootstrapAction::StampMarker,
            BootstrapAction::CreateJob { probe_only: false },
        ]
    );
}

fn recorded(started_at: Option<&str>, seeded_at: Option<&str>) -> Option<SeedStatus> {
    Some(SeedStatus {
        started_at: started_at.map(str::to_string),
        seeded_at: seeded_at.map(str::to_string),
        mode: Some(SeedMode::Migrate),
        source: Some("Repository/offsite".to_string()),
        snapshot_count: None,
        snapshots_copied: None,
    })
}

#[test]
fn an_armed_seed_is_marked_where_there_is_a_marker_to_stamp() {
    let at = "2026-08-16T02:00:00+00:00";
    let prepare = |existing: Option<SeedStatus>, source: &str| {
        prepare_seed(&existing, SeedMode::Migrate, source, at, 3)
    };
    let due = SeedPreparation::Armed { marker_due: true, projected: 3 };
    let not_due = SeedPreparation::Armed { marker_due: false, projected: 3 };
    assert_eq!(prepare(None, "Repository/offsite"), due);
    assert_eq!(prepare(recorded(None, None), "Repository/offsite"), due);
    assert_eq!(prepare(recorded(Some(at), None), "Repository/elsewhere"), due);
    assert_eq!(prepare(recorded(Some(at), None), "Repository/offsite"), not_due);
    assert_eq!(prepare(recorded(Some(at), Some(at)), "Repository/elsewhere"), not_due);
}

#[test]
fn a_seeding_job_has_a_start_on_record() {
    let at = "2026-08-16T02:00:00+00:00";
    for (existing, stamped) in [(None, true), (recorded(Some(at), None), false)] {
        let seed = prepare_seed(&existing, SeedMode::Migrate, "Repository/offsite", at, 0);
        let (_, actions) = run(
            &fresh(),
            &[
                missing(),
                BootstrapEvent::LegacyChecked { cleared: true },
                BootstrapEvent::AuthorityRead,
                BootstrapEvent::SeedPrepared { seed },
                BootstrapEvent::CredentialsPresent,
                BootstrapEvent::IdentityEnsured,
            ],
        );
        let first = if stamped {
            BootstrapAction::StampMarker
        } else {
            BootstrapAction::CreateJob { probe_only: false }
        };
        assert_eq!(actions[5], first);
    }
}

#[test]
fn a_running_former_job_holds_the_launch_back() {
    let (stage, actions) =
        run(&fresh(), &[missing(), BootstrapEvent::LegacyChecked { cleared: false }]);
    assert_eq!(stage, BootstrapStage::Done);
    assert_eq!(actions[1], BootstrapAction::AwaitLegacyJob { requeue_secs: 5 });
}

#[test]
fn a_parked_seed_and_a_failed_step_launch_nothing() {
    let (stage, actions) = run(
        &fresh(),
        &[
            missing(),
            BootstrapEvent::LegacyChecked { cleared: true },
            BootstrapEvent::AuthorityRead,
            BootstrapEvent::SeedPrepared { seed: SeedPreparation::Parked },
            BootstrapEvent::CredentialsPresent,
        ],
    );
    assert_eq!(stage, BootstrapStage::Done);
    assert_eq!(actions[3], BootstrapAction::ParkOnSeed { requeue_secs: 15 });
    assert_eq!(actions[4], BootstrapAction::Ignore);
    let (stage, actions) = run(
        &fresh(),
        &[
            missing(),
            BootstrapEvent::LegacyChecked { cleared: true },
            BootstrapEvent::Failed,
            BootstrapEvent::AuthorityRead,
        ],
    );
    assert_eq!(stage, BootstrapStage::Done);
    assert_eq!(actions[2..], [BootstrapAction::Fail, BootstrapAction::Ignore]);
}

#[test]
fn a_ready_repository_at_rest_is_kept_steady() {
    let none = BootstrapEvent::JobMissing { create_due: false, holdoff_secs: None };
    assert_eq!(run(&inputs(), &[none]).1, vec![BootstrapAction::KeepSteady]);
    let nudged = BootstrapInputs { reverify: true, ..inputs() };
    assert_eq!(run(&nudged, &[none]).1, vec![BootstrapAction::CheckLegacyJob]);
    let probing = BootstrapInputs { probe: ProbeAction::Launch, ..inputs() };
    assert_eq!(run(&probing, &[none]).1, vec![BootstrapAction::CheckLegacyJob]);
}

#[test]
fn only_a_probe_without_catalog_work_launches_probe_only() {
    let probing = BootstrapInputs { probe: ProbeAction::Launch, ..inputs() };
    for (create_due, probe_only) in [(false, true), (true, false)] {
        let (_, actions) = run(
            &probing,
            &[
                BootstrapEvent::JobMissing { create_due, holdoff_secs: None },
                BootstrapEvent::LegacyChecked { cleared: true },
                BootstrapEvent::AuthorityRead,
                BootstrapEvent::SeedPrepared { seed: SeedPreparation::NotArmed },
                BootstrapEvent::CredentialsPresent,
                BootstrapEvent::IdentityEnsured,
            ],
        );
        assert_eq!(actions[5], BootstrapAction::CreateJob { probe_only });
    }
}

#[test]
fn a_strict_retry_is_held_off_until_the_spec_changes() {
    let held = BootstrapEvent::JobMissing { create_due: true, holdoff_secs: Some(40) };
    let degraded =
        BootstrapInputs { prior_phase: Some(RepositoryPhase::Degraded), ..inputs() };
    assert_eq!(run(&degraded, &[held]).1, vec![BootstrapAction::HoldOff { secs: 40 }]);
    let edited = BootstrapInputs { generation: Some(4), ..degraded };
    assert_eq!(run(&edited, &[held]).1, vec![BootstrapAction::CheckLegacyJob]);
}

#[test]
fn a_running_job_keeps_ready_and_writes_the_phase_of_others() {
    assert_eq!(
        run(&inputs(), &[BootstrapEvent::JobRunning]).1,
        vec![BootstrapAction::AwaitJob {
            write_phase: false,
            write_seeding: false,
            requeue_secs: 15
        }]
    );
    let seeding = BootstrapInputs { seed_armed: true, ..fresh() };
    assert_eq!(
        run(&seeding, &[BootstrapEvent::JobRunning]).1,
        vec![BootstrapAction::AwaitJob { write_phase: true, write_seeding: true, requeue_secs: 15 }]
    );
}

fn finished(stale: bool, recycle_due: bool, deadline_secs: Option<i64>) -> BootstrapEvent {
    BootstrapEvent::JobFinished {
        stale,
        recycle_due,
        terminal: MoverJobTerminal::Complete,
        deadline_secs,
    }
}

#[test]
fn a_finished_job_is_recycled_or_finalized() {
    let recycle = vec![BootstrapAction::RecycleJob { requeue_secs: 5 }];
    assert_eq!(run(&inputs(), &[finished(true, false, None)]).1, recycle);
    assert_eq!(run(&inputs(), &[finished(false, true, None)]).1, recycle);
    let nudged = BootstrapInputs { reverify: true, ..inputs() };
    assert_eq!(run(&nudged, &[finished(false, false, None)]).1, recycle);
    let launching = BootstrapInputs { probe: ProbeAction::Launch, ..inputs() };
    assert_eq!(run(&launching, &[finished(false, false, None)]).1, recycle);
    assert_eq!(
        run(&inputs(), &[finished(false, false, None)]).1,
        vec![BootstrapAction::FinalizeJob {
            terminal: MoverJobTerminal::Complete,
            deadline_secs: 300,
            probe_run: false
        }]
    );
    let awaiting = BootstrapInputs { probe: ProbeAction::AwaitingResult, ..inputs() };
    assert_eq!(
        run(&awaiting, &[finished(false, false, Some(900))]).1,
        vec![BootstrapAction::FinalizeJob {
            terminal: MoverJobTerminal::Complete,
            deadline_secs: 900,
            probe_run: true
        }]
    );
    let edited = BootstrapInputs { generation: Some(4), ..awaiting };
    assert_eq!(
        run(&edited, &[finished(false, false, Some(900))]).1,
        vec![BootstrapAction::FinalizeJob {
            terminal: MoverJobTerminal::Complete,
            deadline_secs: 900,
            probe_run: false
        }]
    );
}

fn record() -> LaunchRecord {
    LaunchRecord {
        backend: "S3".to_string(),
        launch_phase: RepositoryPhase::Initializing,
        reverify_token: None,
        probe_stamped: false,
        scan_requested: false,
        now: NOW.to_string(),
    }
}

#[test]
fn a_probe_launch_keeps_the_phase_and_stamps_its_attempt() {
    let patch = launch_status(&inputs(), &record());
    assert!(patch.phase.is_none());
    assert_eq!(patch.backend.as_deref(), Some("S3"));
    match patch.health {
        Some(HealthPatch::ProbeAttempt(Some(at))) => assert_eq!(at, NOW),
        _ => panic!("a probe stamps its attempt"),
    }
    assert!(patch.catalog.is_none());
}

#[test]
fn a_strict_launch_clears_a_stale_attempt() {
    let i = BootstrapInputs { probe_enabled: false, ..fresh() };
    let r = LaunchRecord {
        probe_stamped: true,
        scan_requested: true,
        reverify_token: Some("t1".to_string()),
        ..record()
    };
    let patch = launch_status(&i, &r);
    assert_eq!(patch.phase.as_deref(), Some("Initializing"));
    assert_eq!(patch.last_reverify_at.as_deref(), Some("t1"));
    assert!(matches!(patch.health, Some(HealthPatch::ProbeAttempt(None))));
    assert_eq!(patch.catalog.unwrap().scan_request_attempt_at.as_deref(), Some(NOW));
    let quiet = launch_status(&i, &record());
    assert!(quiet.health.is_none());
    assert!(quiet.last_reverify_at.is_none());
}

fn uncapped() -> Throttle {
    Throttle {
        upload_bytes_per_second: None,
        download_bytes_per_second: None,
        read_ops_per_second: None,
        write_ops_per_second: None,
    }
}

fn s3(secret: Option<&str>) -> Backend {
    Backend {
        kind: "S3".to_string(),
        workload_identity: None,
        auth_secret: secret.map(|name| SecretRef {
            name: name.to_string(),
            namespace: Some("kopiur-system".to_string()),
        }),
        path: None,
        volume: None,
        settings: String::new(),
    }
}

fn filesystem(path: &str, volume: Option<&str>) -> Backend {
    Backend {
        kind: "Filesystem".to_string(),
        workload_identity: None,
        auth_secret: None,
        path: Some(path.to_string()),
        volume: volume.map(str::to_string),
        settings: String::new(),
    }
}

#[test]
fn backend_auth_secret_for_s3_and_none_for_filesystem() {
    let s3 = s3(Some("s3-creds"));
    assert_eq!(s3.auth_secret.as_ref().map(|s| s.name.as_str()), Some("s3-creds"));
    assert!(filesystem("/repo", None).auth_secret.is_none());
}

#[test]
fn mover_creds_dedupe_when_password_and_backend_share_a_secret() {
    let same = s3(Some("kopia-rustfs-creds"));
    assert_eq!(mover_creds_secrets(&same, "kopia-rustfs-creds"), vec!["kopia-rustfs-creds"]);
    let split = s3(Some("s3-creds"));
    assert_eq!(
        mover_creds_secrets(&split, "kopia-rustfs-creds"),
        vec!["kopia-rustfs-creds", "s3-creds"]
    );
    assert_eq!(mover_creds_secrets(&s3(None), "pw"), vec!["pw"]);
}

fn work() -> BootstrapWork {
    BootstrapWork {
        name: "shared".to_string(),
        job_ns: "kopia-system".to_string(),
        auto_create: true,
        probe_only: false,
        create_options: None,
        throttle: uncapped(),
        cluster: None,
        foreign: ForeignSnapshots::Fallback,
        read_only: false,
        maintenance_enabled: true,
        foreign_maintenance: false,
        epoch_parameters: None,
        blob_retention: None,
    }
}

fn seed_spec(from: SeedSource, policy: Option<FailurePolicy>) -> SeedSpec {
    SeedSpec {
        from,
        description: "backend Filesystem".to_string(),
        sync: None,
        migrate: None,
        allow_empty_source: false,
        failure_policy: policy,
        project_credentials: false,
    }
}

fn armed() -> ArmedSeed {
    let source = Backend {
        auth_secret: Some(SecretRef { name: "mirror-creds".to_string(), namespace: None }),
        ..filesystem("/mirror", Some("pvc/mirror"))
    };
    let seed = seed_spec(SeedSource::Backend(source.clone()), None);
    arm_blob_seed(&seed, &source, None, false).unwrap()
}

fn settings(seed: Option<SeedSpec>, armed: bool) -> BootstrapJobSettings {
    BootstrapJobSettings {
        seed,
        seed_armed: armed,
        deadline_secs: 600,
        failure_policy: Some(FailurePolicy {
            active_deadline_seconds: Some(600),
            backoff_limit: Some(4),
        }),
        default_backoff: 2,
        ttl: Some(3600),
        generation: Some(7),
    }
}

#[test]
fn a_bootstrap_job_without_a_seed_carries_only_its_own() {
    let identity = MoverRunIdentity {
        service_account: Some("kopiur-mover".to_string()),
        azure_workload_identity: true,
    };
    let own = vec!["pw".to_string(), "s3-creds".to_string()];
    let plan = bootstrap_job_plan(
        work(),
        &filesystem("/repo", Some("pvc/repo")),
        None,
        &own,
        None,
        &identity,
        &settings(None, false),
    );
    assert_eq!(plan.creds_secrets.len(), 2);
    assert_eq!(plan.creds_secrets[1].secret_name, "s3-creds");
    assert!(plan.creds_secrets.iter().all(|c| c.prefix.is_none()));
    assert!(plan.extra_env.is_empty());
    assert!(plan.source_volume.is_none());
    assert!(plan.count_projected.is_none());
    assert!(plan.work_spec.operation.seed.is_none());
    let volume = plan.repo_volume.unwrap();
    assert_eq!(volume.source, "pvc/repo");
    assert_eq!(volume.mount_path, "/repo");
    assert!(!volume.container_mount_read_only);
    assert_eq!(plan.limits.active_deadline_seconds, Some(600));
    assert_eq!(plan.limits.backoff_limit, 4);
    assert_eq!(plan.limits.ttl_seconds_after_finished, Some(3600));
    assert_eq!(plan.service_account.as_deref(), Some("kopiur-mover"));
    assert_eq!(
        plan.labels.get("kopiur.home-operations.com/cluster-repository").as_deref(),
        Some("shared")
    );
    assert_eq!(plan.labels.get("azure.workload.identity/use").as_deref(), Some("true"));
    assert_eq!(
        plan.annotations.get("kopiur.home-operations.com/bootstrap-generation").as_deref(),
        Some("7")
    );
}

#[test]
fn a_seeding_job_keeps_the_source_apart() {
    let identity = MoverRunIdentity { service_account: None, azure_workload_identity: false };
    let own = vec!["pw".to_string()];
    let seed = seed_spec(SeedSource::Backend(filesystem("/mirror", None)), None);
    let plan = bootstrap_job_plan(
        work(),
        &filesystem("/repo", None),
        None,
        &own,
        Some(armed()),
        &identity,
        &settings(Some(seed), true),
    );
    assert_eq!(plan.creds_secrets.len(), 2);
    assert!(plan.creds_secrets[0].prefix.is_none());
    assert_eq!(plan.creds_secrets[1].secret_name, "mirror-creds");
    assert_eq!(plan.creds_secrets[1].prefix.as_deref(), Some(SEED_ENV_PREFIX));
    assert!(plan.source_volume.unwrap().container_mount_read_only);
    assert!(plan.repo_volume.is_none());
    assert!(plan.work_spec.operation.seed.is_some());
    assert_eq!(plan.limits.active_deadline_seconds, Some(86_400));
    assert_eq!(plan.limits.backoff_limit, 4);
    assert_eq!(identity_backends(&s3(None), &Some(armed())).len(), 2);
    assert_eq!(identity_backends(&s3(None), &Some(armed()))[1].kind, "Filesystem");
    assert_eq!(identity_backends(&s3(None), &None).len(), 1);
}

fn reconcile() -> ReconcileInputs {
    ReconcileInputs {
        refused: false,
        deleting: false,
        server_enabled: false,
        seed_armed: false,
        suspended: false,
        route: BackendRoute::InProcess,
        create_enabled: true,
        unique_id: None,
        phase: None,
        generation: Some(1),
        observed_generation: None,
        recorded_credential_version: None,
    }
}

fn walk(
    i: &ReconcileInputs,
    events: Vec<ReconcileEvent>,
) -> (ReconcileStage, Vec<ReconcileAction>) {
    let mut stage = ReconcileStage::Start;
    let mut actions = Vec::new();
    for e in &events {
        let (next, action) = reconcile_inner(i, stage, e);
        stage = next;
        actions.push(action);
    }
    (stage, actions)
}

fn to_connect() -> Vec<ReconcileEvent> {
    vec![
        ReconcileEvent::Begin,
        ReconcileEvent::ServerReconciled { ok: true },
        ReconcileEvent::Proceed,
        ReconcileEvent::CredentialRead { version: "7".to_string() },
    ]
}

#[test]
fn a_new_bare_path_repository_is_created_and_connected() {
    let mut events = to_connect();
    events.push(ReconcileEvent::ConnectFailed { creatable: true, retryable: false });
    events.push(ReconcileEvent::Created);
    events.push(ReconcileEvent::Connected);
    events.push(ReconcileEvent::StatusWritten { scan_due: true });
    let (stage, actions) = walk(&reconcile(), events);
    assert_eq!(stage, ReconcileStage::Done);
    assert_eq!(
        actions,
        vec![
            ReconcileAction::ReconcileServer,
            ReconcileAction::AfterServer { warn: false, release_finalizer: true },
            ReconcileAction::ReadCredential,
            ReconcileAction::Connect,
            ReconcileAction::Create,
            ReconcileAction::Connect,
            ReconcileAction::WriteReady,
            ReconcileAction::FinishSteady { scan: true },
        ]
    );
}

#[test]
fn a_failed_step_ends_the_reconcile() {
    let mut events = to_connect();
    events.push(ReconcileEvent::Failed);
    events.push(ReconcileEvent::Connected);
    let (stage, actions) = walk(&reconcile(), events);
    assert_eq!(stage, ReconcileStage::Done);
    assert_eq!(actions[4..], [ReconcileAction::Fail, ReconcileAction::Ignore]);
}

#[test]
fn a_bound_repository_is_not_created_over() {
    let bound = ReconcileInputs { unique_id: Some("u".to_string()), ..reconcile() };
    let mut events = to_connect();
    events.push(ReconcileEvent::ConnectFailed { creatable: true, retryable: true });
    let (stage, actions) = walk(&bound, events);
    assert_eq!(stage, ReconcileStage::Done);
    assert_eq!(actions[4], ReconcileAction::WriteFailure { retryable: true });
}

#[test]
fn a_terminal_failure_rests_until_spec_or_secret_changes() {
    let failed = ReconcileInputs {
        phase: Some(RepositoryPhase::Failed),
        observed_generation: Some(1),
        recorded_credential_version: Some("7".to_string()),
        ..reconcile()
    };
    assert_eq!(walk(&failed, to_connect()).1[3], ReconcileAction::Heartbeat);
    let edited = ReconcileInputs { generation: Some(2), ..failed };
    assert_eq!(walk(&edited, to_connect()).1[3], ReconcileAction::Connect);
    let rotated = ReconcileInputs {
        generation: Some(1),
        recorded_credential_version: Some("6".to_string()),
        ..edited
    };
    assert_eq!(walk(&rotated, to_connect()).1[3], ReconcileAction::Connect);
}

#[test]
fn refused_deleted_and_suspended_repositories_stay_untouched() {
    let refused = ReconcileInputs { refused: true, ..reconcile() };
    assert_eq!(walk(&refused, to_connect()).1[0], ReconcileAction::RefuseSpec);
    let deleting = ReconcileInputs { deleting: true, suspended: true, ..reconcile() };
    assert_eq!(walk(&deleting, to_connect()).1[0], ReconcileAction::HandleDeletion);
    let suspended = ReconcileInputs { suspended: true, ..reconcile() };
    let (stage, actions) = walk(&suspended, to_connect());
    assert_eq!(stage, ReconcileStage::Done);
    assert_eq!(actions[0], ReconcileAction::WriteSuspended { requeue_secs: 300 });
    assert!(actions[1..].iter().all(|a| *a == ReconcileAction::Ignore));
}

#[test]
fn the_cleanup_finalizer_follows_server_and_seed() {
    let seeding = ReconcileInputs {
        seed_armed: true,
        route: BackendRoute::ViaMover,
        ..reconcile()
    };
    let (stage, actions) = walk(
        &seeding,
        vec![ReconcileEvent::Begin, ReconcileEvent::FinalizerEnsured { added: true }],
    );
    assert_eq!(stage, ReconcileStage::Done);
    assert_eq!(
        actions,
        vec![ReconcileAction::EnsureFinalizer, ReconcileAction::Requeue { secs: 2 }]
    );
    let (_, actions) = walk(
        &seeding,
        vec![
            ReconcileEvent::Begin,
            ReconcileEvent::FinalizerEnsured { added: false },
            ReconcileEvent::ServerReconciled { ok: false },
            ReconcileEvent::Proceed,
        ],
    );
    assert_eq!(
        actions[2..],
        [
            ReconcileAction::AfterServer { warn: true, release_finalizer: false },
            ReconcileAction::BootstrapViaMover,
        ]
    );
}

#[test]
fn only_a_bare_path_is_reached_in_process() {
    assert_eq!(backend_route(true, false), BackendRoute::InProcess);
    assert_eq!(backend_route(true, true), BackendRoute::ViaMover);
    assert_eq!(backend_route(false, false), BackendRoute::ViaMover);
}

fn condition(type_: &str, status: &str, reason: &str, message: &str) -> Condition {
    Condition {
        type_: type_.to_string(),
        status: status.to_string(),
        reason: reason.to_string(),
        message: message.to_string(),
        last_transition_time: NOW.to_string(),
        observed_generation: Some(3),
    }
}

fn state(phase: Option<RepositoryPhase>, conditions: Vec<Condition>) -> RepositoryState {
    RepositoryState {
        generation: Some(3),
        phase,
        unique_id: Some("pinned".to_string()),
        conditions,
        seed: None,
    }
}

fn find<'a>(conds: &'a [Condition], t: &str) -> &'a Condition {
    conds.iter().find(|c| c.type_ == t).unwrap()
}

#[test]
fn a_suspension_shows_as_reconciling() {
    let patch = suspended_status(&state(None, Vec::new()), NOW);
    assert!(patch.phase.is_none());
    assert_eq!(patch.observed_generation, Some(Some(3)));
    let conds = patch.conditions.unwrap();
    assert_eq!(find(&conds, "Ready").status, "False");
    assert_eq!(find(&conds, "Ready").reason, "Suspended");
    assert_eq!(find(&conds, "Reconciling").status, "True");
}

#[test]
fn a_failed_connect_pins_the_secret_revision() {
    let s = state(None, Vec::new());
    let patch = connect_failure_status(&s, false, "AuthFailure", "wrong password", "7", NOW);
    assert_eq!(patch.phase.as_deref(), Some("Failed"));
    assert_eq!(patch.resolved_credential_version.as_deref(), Some("7"));
    let conds = patch.conditions.unwrap();
    assert_eq!(find(&conds, "Bootstrapped").status, "False");
    assert_eq!(find(&conds, "Bootstrapped").message, "wrong password");
    assert_eq!(find(&conds, "Stalled").status, "True");
    let patch = connect_failure_status(&s, true, "RepositoryUnavailable", "down", "7", NOW);
    assert_eq!(patch.phase.as_deref(), Some("Degraded"));
    assert_eq!(find(&patch.conditions.unwrap(), "Reconciling").status, "True");
}

#[test]
fn a_connected_repository_stamps_a_new_token_once() {
    let report = |last: Option<&str>| ConnectedReport {
        unique_id: "u".to_string(),
        allowed_namespace_count: 2,
        credential_version: "8".to_string(),
        reverify_token: Some("t2".to_string()),
        last_reverify_at: last.map(str::to_string),
    };
    let patch = connected_status(Some(3), &Vec::new(), &report(Some("t1")), NOW);
    assert_eq!(patch.phase.as_deref(), Some("Ready"));
    assert_eq!(patch.unique_id, Some(Some("u".to_string())));
    assert_eq!(patch.last_reverify_at.as_deref(), Some("t2"));
    assert_eq!(find(&patch.conditions.unwrap(), "Ready").reason, "Connected");
    let patch = connected_status(Some(3), &Vec::new(), &report(Some("t2")), NOW);
    assert!(patch.last_reverify_at.is_none());
}

#[test]
fn a_parked_seed_keeps_the_repository_pending() {
    let gate = seed_source_not_ready_gate();
    let patch = park_cluster_on_seed_source(&Vec::new(), Some(3), &gate, "waiting", NOW);
    assert_eq!(patch.phase.as_deref(), Some("Pending"));
    let conds = patch.conditions.unwrap();
    assert_eq!(find(&conds, "Seeded").reason, "WaitingForSeedSource");
    assert_eq!(find(&conds, "Seeded").status, "False");
    assert_eq!(find(&conds, "Ready").message, "waiting");
}

#[test]
fn seeding_progress_is_not_written_over_a_failure() {
    let source = Some("backend S3".to_string());
    assert!(write_cluster_seeding_condition(&None, 60, &Vec::new(), None, NOW).is_none());
    let patch = write_cluster_seeding_condition(&source, 60, &Vec::new(), None, NOW).unwrap();
    assert_eq!(find(&patch.conditions.unwrap(), "Seeded").reason, "Seeding");
    let failed = vec![condition("Seeded", "False", "SeedIncomplete", "stopped")];
    assert!(write_cluster_seeding_condition(&source, 60, &failed, None, NOW).is_none());
}

#[test]
fn a_catalog_scan_counts_what_the_mover_dropped() {
    let outcome = ScanOutcome {
        discovered: 10,
        foreign: 2,
        unplaced_hosts: vec!["web".to_string(), "db".to_string()],
    };
    let token = Some("t".to_string());
    let (patch, warning) = run_cluster_catalog_scan(&outcome, 3, &token, 15, 99, NOW);
    let catalog = patch.catalog.unwrap();
    assert_eq!(catalog.discovered_backup_count, Some(10));
    assert_eq!(catalog.foreign_snapshot_count, Some(5));
    assert_eq!(catalog.scan_request_honored.as_deref(), Some("t"));
    assert_eq!(catalog.last_refresh_at.as_deref(), Some(NOW));
    assert_eq!(patch.storage_stats.unwrap().snapshot_count, Some(15));
    assert!(warning.unwrap().contains("[web, db]"));
    let quiet = ScanOutcome { discovered: 0, foreign: 0, unplaced_hosts: Vec::new() };
    assert!(run_cluster_catalog_scan(&quiet, 0, &None, 0, 0, NOW).1.is_none());
}

#[test]
fn a_deletion_cleans_up_only_under_its_finalizer() {
    let ours = vec!["other".to_string(), SERVER_CLEANUP_FINALIZER.to_string()];
    let applied = Some("old-ns".to_string());
    let spec = Some("new-ns".to_string());
    assert!(handle_cluster_deletion(&Vec::new(), &applied, &spec, None, None).is_none());
    let plan = handle_cluster_deletion(&ours, &applied, &spec, None, Some("op")).unwrap();
    assert_eq!(plan.server_namespace.as_deref(), Some("old-ns"));
    assert_eq!(plan.job_namespace.unwrap(), "op");
    let plan = handle_cluster_deletion(&ours, &None, &spec, None, None).unwrap();
    assert_eq!(plan.server_namespace.as_deref(), Some("new-ns"));
    assert!(matches!(plan.job_namespace, Err(Error::Validation(_))));
}

#[test]
fn the_probe_cadence_wins_only_where_shorter() {
    assert_eq!(cluster_probe_aware_reconcile_interval(600, true, 300), 300);
    assert_eq!(cluster_probe_aware_reconcile_interval(600, true, 900), 600);
    assert_eq!(cluster_probe_aware_reconcile_interval(600, false, 300), 600);
}

fn result(seed: Option<SeedOutcome>) -> BootstrapResult {
    BootstrapResult {
        created: false,
        unique_id: Some("observed".to_string()),
        snapshot_count: Some(4),
        index_blob_count: None,
        epoch: Some("{\"minDuration\":\"24h\"}".to_string()),
        blob_retention: None,
        parameters_error: None,
        seed,
    }
}

fn seeded(performed: bool) -> SeedOutcome {
    SeedOutcome {
        mode: SeedMode::Blob,
        source: "backend S3".to_string(),
        performed,
        snapshot_count: Some(4),
        snapshots_copied: None,
    }
}

#[test]
fn a_probe_writes_back_the_pinned_identity() {
    let s = state(Some(RepositoryPhase::Ready), Vec::new());
    let folded = finalize_conditions(&s, false, NOW);
    let probe =
        finalize_cluster_bootstrap(&s, "S3", &result(None), true, 1, &folded, &None, NOW);
    assert_eq!(probe.patch.unique_id, Some(Some("pinned".to_string())));
    let strict =
        finalize_cluster_bootstrap(&s, "S3", &result(None), false, 1, &folded, &None, NOW);
    assert_eq!(strict.patch.unique_id, Some(Some("observed".to_string())));
    assert_eq!(strict.patch.phase.as_deref(), Some("Ready"));
    assert_eq!(
        strict.patch.parameters.unwrap().epoch.as_deref(),
        Some("{\"minDuration\":\"24h\"}")
    );
    assert!(strict.patch.health.is_none());
    assert!(strict.seed_fold.is_none());
}

#[test]
fn a_finalize_done_over_changes_no_condition() {
    let s = state(
        Some(RepositoryPhase::Pending),
        vec![condition("Seeded", "False", "Seeding", "copying"), condition("Other", "True", "A", "b")],
    );
    let folded = finalize_conditions(&s, true, NOW);
    let mut r = result(Some(seeded(true)));
    r.created = true;
    let once = finalize_cluster_bootstrap(&s, "S3", &r, false, 1, &folded, &None, NOW);
    let conds = once.patch.conditions.unwrap();
    assert_eq!(find(&conds, "Seeded").status, "True");
    assert_eq!(find(&conds, "Other").message, "b");
    assert_eq!(find(&conds, "Ready").message, "created a new repository");
    let again = RepositoryState { conditions: conds.clone(), ..state(None, Vec::new()) };
    let folded = finalize_conditions(&again, true, LATER);
    let twice = finalize_cluster_bootstrap(&again, "S3", &r, false, 1, &folded, &None, LATER);
    assert_eq!(twice.patch.conditions.unwrap(), conds);
}

#[test]
fn a_finalize_without_a_seed_drops_its_condition() {
    let s = state(None, vec![condition("Seeded", "False", "Seeding", "copying")]);
    let folded = finalize_conditions(&s, false, NOW);
    let plan = finalize_cluster_bootstrap(&s, "S3", &result(None), false, 1, &folded, &None, NOW);
    assert!(plan.patch.conditions.unwrap().iter().all(|c| c.type_ != "Seeded"));
}

#[test]
fn what_follows_a_finalize_depends_on_the_write() {
    let r = result(Some(seeded(false)));
    let quiet = finalize_effects(&r, false, false, true);
    assert!(quiet.announce_seed.is_none());
    assert!(quiet.scan);
    assert!(!quiet.delete_job);
    let told = finalize_effects(&r, true, true, false);
    assert_eq!(
        told.announce_seed,
        Some((SeedMode::Blob, SeedOutcomeLabel::AlreadyInitialized))
    );
    assert!(!told.scan);
    assert!(told.delete_job);
    let mut probe_only = result(None);
    probe_only.snapshot_count = None;
    probe_only.parameters_error = Some("denied".to_string());
    let effects = finalize_effects(&probe_only, true, true, true);
    assert!(!effects.scan);
    assert!(effects.warn_parameters);
}

#[test]
fn a_failed_bootstrap_takes_its_route() {
    let bound = state(None, Vec::new());
    let new = RepositoryState { unique_id: None, ..state(None, Vec::new()) };
    let outage = BootstrapFailure::Backend {
        class: KopiaErrorClass::RepositoryUnavailable,
        message: "down".to_string(),
    };
    assert_eq!(
        finalize_cluster_bootstrap_failure(&bound, &outage, true),
        FailureStep::ProbeFailure
    );
    assert_eq!(
        finalize_cluster_bootstrap_failure(&bound, &outage, false),
        FailureStep::RecycleOutage
    );
    let crashed = BootstrapFailure::JobFailedWithoutResult { job_name: "j".to_string() };
    assert_eq!(
        finalize_cluster_bootstrap_failure(&new, &crashed, false),
        FailureStep::Recycle { stamp_streak: true }
    );
    let seed = BootstrapFailure::Seed {
        failure: SeedFailure::Incomplete,
        message: "half".to_string(),
    };
    assert_eq!(
        finalize_cluster_bootstrap_failure(&new, &seed, false),
        FailureStep::Recycle { stamp_streak: false }
    );
    let denied = BootstrapFailure::Backend {
        class: KopiaErrorClass::AccessDenied,
        message: "no".to_string(),
    };
    assert_eq!(
        finalize_cluster_bootstrap_failure(&new, &denied, false),
        FailureStep::ParkTerminal
    );
    assert!(!failure_consumes_job(FailureStep::ParkTerminal));
    assert!(failure_consumes_job(FailureStep::ProbeFailure));
    assert_eq!(breaker_note("The breaker opened.", "down"), "The breaker opened. Last error: down");
}

#[test]
fn an_outcome_decides_what_is_done_about_the_job() {
    let bound = state(None, Vec::new());
    assert_eq!(
        finalize_step(&bound, &BootstrapOutcome::ResultPending, true),
        FinalizeStep::AwaitResult { requeue_secs: 5 }
    );
    let failed = BootstrapOutcome::Failed(BootstrapFailure::RepositoryNotInitialized);
    assert_eq!(
        finalize_step(&bound, &failed, false),
        FinalizeStep::HandleFailure { step: FailureStep::ParkTerminal }
    );
    assert_eq!(
        finalize_step(&bound, &failed, true),
        FinalizeStep::HandleFailure { step: FailureStep::ProbeFailure }
    );
    assert_eq!(
        finalize_step(&bound, &BootstrapOutcome::Succeeded, false),
        FinalizeStep::WriteSuccess
    );
}

fn text(reason: &str, seed_reason: Option<&str>) -> FailureText {
    FailureText {
        reason: reason.to_string(),
        message: "it broke".to_string(),
        seed_reason: seed_reason.map(str::to_string),
    }
}

#[test]
fn a_recycled_failure_backs_off_and_is_told_once() {
    let s = state(Some(RepositoryPhase::Ready), Vec::new());
    let streak = Some(StreakStamp { health: "{}".to_string(), backoff_secs: 240 });
    let t = text("JobFailed", None);
    let plan = recycle_failed_cluster_bootstrap(&s, "S3", &t, &streak, NOW);
    assert_eq!(plan.requeue_secs, 240);
    assert_eq!(plan.patch.phase.as_deref(), Some("Degraded"));
    assert!(matches!(plan.patch.health, Some(HealthPatch::Fold(_))));
    assert!(recycle_announces(&s, "JobFailed", true, true));
    let after = state(Some(RepositoryPhase::Degraded), plan.patch.conditions.unwrap());
    assert!(!recycle_announces(&after, "JobFailed", true, true));
    assert!(recycle_announces(&after, "Other", true, true));
    assert!(recycle_announces(&after, "JobFailed", false, true));
    assert!(!recycle_announces(&after, "JobFailed", false, false));
    let flat =
        recycle_failed_cluster_bootstrap(&s, "S3", &text("S", Some("SeedIncomplete")), &None, NOW);
    assert_eq!(flat.requeue_secs, 120);
    assert!(flat.patch.health.is_none());
    assert_eq!(find(&flat.patch.conditions.unwrap(), "Seeded").reason, "SeedIncomplete");
    assert_eq!(retry_backoff_step(None), 0);
    assert_eq!(retry_backoff_step(Some(0)), 0);
    assert_eq!(retry_backoff_step(Some(3)), 2);
}

#[test]
fn a_terminal_failure_is_parked_as_stalled() {
    let s = state(None, Vec::new());
    let plan = park_terminal_cluster_bootstrap(&s, "S3", &text("AccessDenied", None), NOW);
    assert_eq!(plan.requeue_secs, 120);
    assert_eq!(plan.patch.phase.as_deref(), Some("Failed"));
    let conds = plan.patch.conditions.unwrap();
    assert_eq!(find(&conds, "Stalled").status, "True");
    assert_eq!(find(&conds, "Bootstrapped").reason, "AccessDenied");
}

fn sensor() -> SensorFold {
    SensorFold {
        conditions: vec![condition("BackendReachable", "False", "Unreachable", "down")],
        health: "{\"n\":3}".to_string(),
        alert: true,
    }
}

fn breaker(opened: bool) -> BreakerPhase {
    BreakerPhase {
        phase: if opened { RepositoryPhase::Degraded } else { RepositoryPhase::Ready },
        opened,
        ready_reason: "BackendUnreachable".to_string(),
        ready_message: "down".to_string(),
        requeue_secs: 60,
    }
}

#[test]
fn only_an_open_breaker_records_a_failed_bootstrap() {
    let s = state(Some(RepositoryPhase::Ready), Vec::new());
    let t = text("RepositoryUnavailable", None);
    let open = recycle_cluster_bootstrap_outage(&s, "S3", &t, &sensor(), &breaker(true), 480, NOW);
    assert_eq!(open.requeue_secs, 480);
    assert_eq!(open.patch.phase.as_deref(), Some("Degraded"));
    let conds = open.patch.conditions.unwrap();
    assert_eq!(find(&conds, "Bootstrapped").reason, "RepositoryUnavailable");
    let shut = recycle_cluster_bootstrap_outage(&s, "S3", &t, &sensor(), &breaker(false), 480, NOW);
    assert_eq!(shut.requeue_secs, 60);
    assert_eq!(shut.patch.phase.as_deref(), Some("Ready"));
    assert!(shut.patch.conditions.unwrap().iter().all(|c| c.type_ != "Bootstrapped"));
}

#[test]
fn a_failed_probe_follows_the_breaker() {
    let s = state(Some(RepositoryPhase::Ready), Vec::new());
    let plan = finalize_cluster_probe_failure(&s, &sensor(), &breaker(false), NOW);
    assert_eq!(plan.patch.phase.as_deref(), Some("Ready"));
    assert!(plan.patch.observed_generation.is_none());
    assert_eq!(plan.requeue_secs, 60);
    assert_eq!(find(&plan.patch.conditions.unwrap(), "Ready").status, "True");
    let effects = sensor_effects(&s, true, true, true);
    assert!(effects.count_alert && effects.publish_alert && effects.trip);
    let degraded = state(Some(RepositoryPhase::Degraded), Vec::new());
    assert!(!sensor_effects(&degraded, false, true, true).trip);
    assert!(!sensor_effects(&s, true, true, false).publish_alert);
    assert!(sensor_effects(&s, true, true, false).count_alert);
}

#[test]
fn allowed_namespaces_count_as_they_say() {
    let two = AllowedNamespaces::List(vec!["a".to_string(), "b".to_string()]);
    assert_eq!(allowed_namespace_count(&two), 2);
    assert_eq!(allowed_namespace_count(&AllowedNamespaces::All(true)), -1);
    assert_eq!(allowed_namespace_count(&AllowedNamespaces::All(false)), 0);
    assert_eq!(allowed_namespace_count(&AllowedNamespaces::Selector), 0);
}

#[test]
fn the_catalog_answers_from_status_and_annotations() {
    let catalog = Some(CatalogStatus {
        last_refresh_at: Some("r".to_string()),
        scan_request_honored: Some("h".to_string()),
        scan_request_attempt_at: Some("a".to_string()),
        discovered_backup_count: Some(5),
        foreign_snapshot_count: None,
    });
    assert_eq!(cluster_last_refresh_at(&catalog).as_deref(), Some("r"));
    assert_eq!(cluster_scan_requested_honored(&catalog).as_deref(), Some("h"));
    assert_eq!(cluster_scan_requested_attempt_at(&catalog).as_deref(), Some("a"));
    assert!(cluster_last_refresh_at(&None).is_none());
    let mut annotations = Labels::new();
    annotations.insert("kopiur.home-operations.com/catalog-scan-requested-at", "t");
    annotations.insert("kopiur.home-operations.com/allow-mass-deletion", "yes");
    assert_eq!(cluster_scan_requested_token(&annotations).as_deref(), Some("t"));
    assert_eq!(mass_deletion_ack_raw(&annotations).as_deref(), Some("yes"));
    assert!(mass_deletion_ack_raw(&Labels::new()).is_none());
    let gauges =
        record_cluster_repository_status_metrics(false, true, Some(9), &catalog).unwrap();
    assert_eq!((gauges.snapshots, gauges.discovered, gauges.foreign), (Some(9), Some(5), None));
    assert!(record_cluster_repository_status_metrics(true, true, Some(9), &catalog).is_none());
    assert!(record_cluster_repository_status_metrics(false, false, Some(9), &catalog).is_none());
    assert!(record_cluster_repository_status_metrics(false, true, None, &None).is_none());
}

#[test]
fn maintenance_is_projected_for_writable_repositories() {
    let op = Some("kopiur-system".to_string());
    let own = Some("maint".to_string());
    assert!(ensure_cluster_maintenance(false, "nas", &own, &op, &None).is_none());
    let p = ensure_cluster_maintenance(true, "nas", &None, &op, &Some("east".to_string())).unwrap();
    assert_eq!(p.kind, RepositoryKind::ClusterRepository);
    assert_eq!(p.repository, "nas");
    assert_eq!(p.placement.as_deref(), Some("kopiur-system"));
    assert_eq!(p.cluster.as_deref(), Some("east"));
    assert_eq!(cluster_maintenance_placement(&own, &op).as_deref(), Some("maint"));
}

#[test]
fn a_server_is_marked_for_its_repository() {
    let plan = reconcile_cluster_server(
        "nas",
        &Some("u-1".to_string()),
        &Some("web".to_string()),
        &None,
        false,
        &None,
    );
    assert!(plan.read_only_mode);
    assert_eq!(plan.target_namespace.as_deref(), Some("web"));
    assert_eq!(plan.instance, "nas");
    assert_eq!(
        plan.labels.get("kopiur.home-operations.com/cluster-repository-uid").as_deref(),
        Some("u-1")
    );
}
