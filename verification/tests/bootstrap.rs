use kopiur_controller::bootstrap::{
    mover_job_terminal, JobCondition, JobEnd,
    bootstrap_outcome, is_terminal_for_generation, ready_outcome_for_phase, terminal_gate_holds,
    BootstrapFailure, BootstrapOutcome, FailureBlock, FailureClass, FailureRoute, KopiaErrorClass,
    MoverJobTerminal, RepositoryPhase, ResultVerdict, SeedFailure,
};
use kopiur_controller::backend::{repo_kind_str, RepositoryKind};
use kopiur_controller::conditions::ReadyOutcome;
use kopiur_controller::work_spec::{bootstrap_maintenance_owner_plan, RestampPolicy};

const JOB_FAILED: MoverJobTerminal = MoverJobTerminal::Failed { deadline_exceeded: false };

fn ok_result() -> ResultVerdict {
    ResultVerdict { success: true, acknowledges_seed: false, failure: None }
}

fn failed_result(class: FailureClass, message: &str) -> ResultVerdict {
    ResultVerdict {
        success: false,
        acknowledges_seed: false,
        failure: Some(FailureBlock { class, message: message.to_string() }),
    }
}

#[test]
fn repo_kind_str_maps_both_variants() {
    assert_eq!(repo_kind_str(RepositoryKind::Repository), "Repository");
    assert_eq!(repo_kind_str(RepositoryKind::ClusterRepository), "ClusterRepository");
}

#[test]
fn ready_outcome_for_phase_maps_every_phase() {
    assert_eq!(ready_outcome_for_phase(&RepositoryPhase::Ready), ReadyOutcome::Ready);
    assert_eq!(ready_outcome_for_phase(&RepositoryPhase::Failed), ReadyOutcome::Stalled);
    for p in [
        RepositoryPhase::Pending,
        RepositoryPhase::Initializing,
        RepositoryPhase::Degraded,
        RepositoryPhase::Unknown("Upgrading".to_string()),
    ] {
        assert_eq!(ready_outcome_for_phase(&p), ReadyOutcome::Reconciling);
    }
}

#[test]
fn phases_are_written_as_their_words() {
    assert_eq!(RepositoryPhase::Initializing.label(), "Initializing");
    assert_eq!(RepositoryPhase::Unknown("Upgrading".to_string()).label(), "Upgrading");
}

#[test]
fn terminal_gate_only_on_failed_at_current_generation() {
    assert!(is_terminal_for_generation(&Some(RepositoryPhase::Failed), Some(5), Some(5)));
    assert!(!is_terminal_for_generation(&Some(RepositoryPhase::Failed), Some(5), Some(6)));
    assert!(!is_terminal_for_generation(&Some(RepositoryPhase::Degraded), Some(5), Some(5)));
    assert!(!is_terminal_for_generation(&Some(RepositoryPhase::Failed), None, Some(5)));
    assert!(!is_terminal_for_generation(&Some(RepositoryPhase::Failed), Some(5), None));
    assert!(!is_terminal_for_generation(
        &Some(RepositoryPhase::Unknown("Upgrading".to_string())),
        Some(5),
        Some(5)
    ));
}

#[test]
fn terminal_gate_reopens_when_credential_secret_changes() {
    let failed = |recorded: Option<&str>, current: &str| {
        terminal_gate_holds(
            &Some(RepositoryPhase::Failed),
            Some(5),
            Some(5),
            &recorded.map(str::to_string),
            current,
        )
    };
    assert!(failed(Some("100"), "100"));
    assert!(!failed(Some("100"), "200"));
    assert!(!failed(None, "100"));
    assert!(!terminal_gate_holds(
        &Some(RepositoryPhase::Degraded),
        Some(5),
        Some(5),
        &Some("100".to_string()),
        "100"
    ));
    assert!(!terminal_gate_holds(
        &Some(RepositoryPhase::Failed),
        Some(5),
        Some(6),
        &Some("100".to_string()),
        "100"
    ));
}

#[test]
fn bootstrap_maintenance_owner_plan_suppressed_is_always_none_any_stale_no_aliases() {
    for cluster in [None, Some("east")] {
        let plan = bootstrap_maintenance_owner_plan(
            RepositoryKind::Repository,
            "apps",
            "nas",
            cluster,
            true,
        );
        assert_eq!(plan.owner, None, "cluster={cluster:?}");
        assert_eq!(plan.policy, RestampPolicy::AnyStale, "cluster={cluster:?}");
        assert!(plan.aliases.is_empty(), "cluster={cluster:?}");
    }
}

#[test]
fn bootstrap_maintenance_owner_plan_no_cluster_is_any_stale_no_aliases() {
    let plan =
        bootstrap_maintenance_owner_plan(RepositoryKind::Repository, "apps", "nas", None, false);
    assert_eq!(plan.owner.as_deref(), Some("kopiur@kopiur-apps-nas"));
    assert_eq!(plan.policy, RestampPolicy::AnyStale);
    assert!(plan.aliases.is_empty());
}

#[test]
fn bootstrap_maintenance_owner_plan_with_cluster_is_own_formats_only_with_legacy_alias() {
    let plan = bootstrap_maintenance_owner_plan(
        RepositoryKind::Repository,
        "apps",
        "nas",
        Some("east"),
        false,
    );
    assert_eq!(plan.owner.as_deref(), Some("kopiur@kopiur.east.apps.nas"));
    assert_eq!(plan.policy, RestampPolicy::OwnFormatsOnly);
    assert_eq!(plan.aliases, vec!["kopiur@kopiur-apps-nas".to_string()]);
}

#[test]
fn four_way_mapping() {
    assert!(matches!(
        bootstrap_outcome(&None, MoverJobTerminal::Complete, "boot-x", false, 120),
        BootstrapOutcome::ResultPending
    ));
    match bootstrap_outcome(&None, JOB_FAILED, "boot-x", false, 120) {
        BootstrapOutcome::Failed(BootstrapFailure::JobFailedWithoutResult { job_name }) => {
            assert_eq!(job_name, "boot-x");
        }
        _ => panic!("expected JobFailedWithoutResult"),
    }
    let bad = failed_result(
        FailureClass::Kopia(KopiaErrorClass::AuthFailure),
        "invalid repository password",
    );
    match bootstrap_outcome(&Some(bad), JOB_FAILED, "boot-x", false, 120) {
        BootstrapOutcome::Failed(BootstrapFailure::Backend { class, message }) => {
            assert_eq!(class, KopiaErrorClass::AuthFailure);
            assert_eq!(message, "invalid repository password");
        }
        _ => panic!("expected Backend failure"),
    }
    assert_eq!(
        bootstrap_outcome(
            &Some(ok_result()),
            MoverJobTerminal::Complete,
            "boot-x",
            false,
            120
        ),
        BootstrapOutcome::Succeeded
    );
}

#[test]
fn unsuccessful_result_without_a_failure_block_degrades_to_unknown() {
    let bad = ResultVerdict { success: false, ..ok_result() };
    match bootstrap_outcome(&Some(bad), JOB_FAILED, "boot-x", false, 120) {
        BootstrapOutcome::Failed(BootstrapFailure::Backend { class, message }) => {
            assert_eq!(class, KopiaErrorClass::Unknown);
            assert!(message.contains("bootstrap failed"));
        }
        _ => panic!("expected Backend failure"),
    }
}

#[test]
fn not_initialized_sentinel_maps_to_its_own_outcome_not_a_bare_notfound() {
    let r = failed_result(FailureClass::NotInitialized, "absent");
    match bootstrap_outcome(&Some(r), JOB_FAILED, "boot-x", false, 120) {
        BootstrapOutcome::Failed(BootstrapFailure::RepositoryNotInitialized) => {}
        _ => panic!("expected RepositoryNotInitialized"),
    }
}

#[test]
fn a_seed_failure_and_an_inconsistency_keep_their_own_kind() {
    let seed = failed_result(FailureClass::Seed(SeedFailure::LeftEmpty), "m");
    assert_eq!(
        bootstrap_outcome(&Some(seed), JOB_FAILED, "boot-x", true, 120),
        BootstrapOutcome::Failed(BootstrapFailure::Seed {
            failure: SeedFailure::LeftEmpty,
            message: "m".to_string()
        })
    );
    let odd = failed_result(FailureClass::InternalInconsistency, "contradiction");
    assert_eq!(
        bootstrap_outcome(&Some(odd), JOB_FAILED, "boot-x", false, 120),
        BootstrapOutcome::Failed(BootstrapFailure::InternalInconsistency {
            message: "contradiction".to_string()
        })
    );
}

#[test]
fn an_armed_success_without_an_acknowledgement_is_refused() {
    assert_eq!(
        bootstrap_outcome(
            &Some(ok_result()),
            MoverJobTerminal::Complete,
            "boot-x",
            true,
            120
        ),
        BootstrapOutcome::Failed(BootstrapFailure::SeedMoverTooOld)
    );
    assert_eq!(
        bootstrap_outcome(
            &Some(ok_result()),
            MoverJobTerminal::Complete,
            "boot-x",
            false,
            120
        ),
        BootstrapOutcome::Succeeded
    );
    let acknowledged = ResultVerdict { acknowledges_seed: true, ..ok_result() };
    assert_eq!(
        bootstrap_outcome(
            &Some(acknowledged),
            MoverJobTerminal::Complete,
            "boot-x",
            true,
            120
        ),
        BootstrapOutcome::Succeeded
    );
}

#[test]
fn a_genuine_kopia_notfound_stays_a_backend_failure() {
    let bad = failed_result(FailureClass::Kopia(KopiaErrorClass::NotFound), "not found");
    match bootstrap_outcome(&Some(bad), JOB_FAILED, "boot-x", false, 120) {
        BootstrapOutcome::Failed(BootstrapFailure::Backend { class, .. }) => {
            assert_eq!(class, KopiaErrorClass::NotFound);
        }
        _ => panic!("expected Backend NotFound"),
    }
}

#[test]
fn a_deadline_kill_is_told_apart_and_a_written_result_outranks_it() {
    let killed = MoverJobTerminal::Failed { deadline_exceeded: true };
    assert_eq!(
        bootstrap_outcome(&None, killed, "repo-discovery", false, 300),
        BootstrapOutcome::Failed(BootstrapFailure::JobDeadlineExceeded {
            job_name: "repo-discovery".to_string(),
            deadline_secs: 300
        })
    );
    let written = failed_result(FailureClass::NotInitialized, "absent");
    assert_eq!(
        bootstrap_outcome(&Some(written), killed, "repo-discovery", false, 300),
        BootstrapOutcome::Failed(BootstrapFailure::RepositoryNotInitialized)
    );
}

#[test]
fn failure_route_truth_table() {
    let backend = |class| BootstrapFailure::Backend { class, message: "m".to_string() };
    let seed = BootstrapFailure::Seed {
        failure: SeedFailure::SourceNotFound,
        message: "m".to_string(),
    };
    let no_result = BootstrapFailure::JobFailedWithoutResult { job_name: "j".to_string() };
    let deadline = BootstrapFailure::JobDeadlineExceeded {
        job_name: "j".to_string(),
        deadline_secs: 120,
    };
    for bootstrapped in [false, true] {
        assert_eq!(
            backend(KopiaErrorClass::RepositoryUnavailable).route(bootstrapped),
            if bootstrapped { FailureRoute::OutageSensor } else { FailureRoute::Terminal }
        );
        assert_eq!(
            backend(KopiaErrorClass::AuthFailure).route(bootstrapped),
            FailureRoute::Terminal
        );
        assert_eq!(no_result.route(bootstrapped), FailureRoute::Recycle);
        assert_eq!(
            deadline.route(bootstrapped),
            if bootstrapped { FailureRoute::OutageSensor } else { FailureRoute::Recycle }
        );
        assert_eq!(seed.route(bootstrapped), FailureRoute::SeedRetry);
        assert_eq!(
            BootstrapFailure::RepositoryNotInitialized.route(bootstrapped),
            FailureRoute::Terminal
        );
        assert_eq!(
            BootstrapFailure::SeedMoverTooOld.route(bootstrapped),
            FailureRoute::Terminal
        );
        assert_eq!(
            BootstrapFailure::InternalInconsistency { message: "m".to_string() }
                .route(bootstrapped),
            FailureRoute::Terminal
        );
    }
}

#[test]
fn only_result_less_job_failures_recycle_for_retry() {
    assert!(
        BootstrapFailure::JobFailedWithoutResult { job_name: "flap-repo-bootstrap".to_string() }
            .recycles_for_retry(),
        "no result = no backend verdict = retry, never a terminal park"
    );
    assert!(!BootstrapFailure::Backend {
        class: KopiaErrorClass::AccessDenied,
        message: "Access Denied".to_string(),
    }
    .recycles_for_retry());
    assert!(!BootstrapFailure::RepositoryNotInitialized.recycles_for_retry());
}

#[test]
fn only_a_bootstrapped_backend_outage_reroutes_to_degraded() {
    let backend =
        |class: KopiaErrorClass| BootstrapFailure::Backend { class, message: "boom".to_string() };
    assert!(
        backend(KopiaErrorClass::RepositoryUnavailable).retryable_outage_for_bootstrapped(true),
        "an outage on a once-bootstrapped repo must retry as Degraded, not park Failed"
    );
    assert!(
        !backend(KopiaErrorClass::RepositoryUnavailable).retryable_outage_for_bootstrapped(false)
    );
    for class in [
        KopiaErrorClass::Locked,
        KopiaErrorClass::SourceError,
        KopiaErrorClass::AuthFailure,
        KopiaErrorClass::AccessDenied,
        KopiaErrorClass::PermissionDenied,
        KopiaErrorClass::NotFound,
        KopiaErrorClass::Unknown,
    ] {
        assert!(!backend(class).retryable_outage_for_bootstrapped(true), "{class:?}");
        assert!(!backend(class).retryable_outage_for_bootstrapped(false));
        assert_eq!(backend(class).route(true), FailureRoute::Terminal);
    }
    assert!(!BootstrapFailure::RepositoryNotInitialized.retryable_outage_for_bootstrapped(true));
    assert!(!BootstrapFailure::RepositoryNotInitialized.retryable_outage_for_bootstrapped(false));
    let result_less =
        BootstrapFailure::JobFailedWithoutResult { job_name: "repo-discovery".to_string() };
    assert!(!result_less.retryable_outage_for_bootstrapped(true));
    assert!(
        result_less.recycles_for_retry(),
        "a Job without a result is retried whatever the backend"
    );
}

fn job_with_condition(type_: &str, status: &str, reason: Option<&str>) -> JobEnd {
    JobEnd {
        conditions: vec![JobCondition {
            type_: type_.to_string(),
            status: status.to_string(),
            reason: reason.map(str::to_string),
        }],
        succeeded: None,
    }
}

#[test]
fn mover_job_terminal_reads_the_failed_conditions_reason() {
    assert_eq!(
        mover_job_terminal(&job_with_condition("Failed", "True", Some("DeadlineExceeded"))),
        Some(MoverJobTerminal::Failed { deadline_exceeded: true })
    );
    assert_eq!(
        mover_job_terminal(&job_with_condition("Failed", "True", Some("BackoffLimitExceeded"))),
        Some(MoverJobTerminal::Failed { deadline_exceeded: false })
    );
    assert_eq!(
        mover_job_terminal(&job_with_condition("Failed", "True", None)),
        Some(MoverJobTerminal::Failed { deadline_exceeded: false })
    );
    assert_eq!(
        mover_job_terminal(&job_with_condition("Complete", "True", None)),
        Some(MoverJobTerminal::Complete)
    );
    assert_eq!(mover_job_terminal(&job_with_condition("Failed", "False", None)), None);
    assert_eq!(mover_job_terminal(&JobEnd { conditions: Vec::new(), succeeded: None }), None);
    let counted = JobEnd { conditions: Vec::new(), succeeded: Some(1) };
    assert_eq!(mover_job_terminal(&counted), Some(MoverJobTerminal::Complete));
}
