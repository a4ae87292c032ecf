use kopiur_controller::backend::{Backend, RepositoryKind, RepositoryRef, SecretRef};
use kopiur_controller::conditions::Condition;
use kopiur_controller::error::Error;
use kopiur_controller::seed::{
    drop_seed_condition, merge_seed_status, seed_armed, seed_condition_fold, seed_failure_recorded,
    seed_marker_patch, seed_mode_of, seed_resume, seed_success_fold, SeedMode, SeedOutcome,
    SeedOutcomeLabel, SeedStatus, ALREADY_INITIALIZED_REASON, DEFAULT_SEED_BOOTSTRAP_DEADLINE_SECS,
    SEEDED_CONDITION, SEEDED_REASON,
};
use kopiur_controller::seed_messages::{
    bare_path_seed_source_message, seed_mount_path_collision_message,
    seed_source_auth_conflict_message, seed_source_same_storage_message, seeding_message,
    waiting_for_seed_source_message,
};
use kopiur_controller::seed_arm::{
    arm_migrate_step, migrate_source_park, ArmAction, ArmEvent, ArmStage,
};
use kopiur_controller::seed_run::{
    arm_blob_seed, arm_migrate_seed, arm_seed, migrate_source_backend_park,
    seed_bootstrap_throttle, seed_failure_to_count, seed_job_limits, seed_op_for,
    seed_password_env, seed_source_volume, BackendPair, FailurePolicy, JobLimits, SeedArmingStep,
    SeedConnectSource, SeedMigrate, SeedSource, SeedSourceRepository, SeedSpec, SeedSync,
    SeedThrottle, Throttle, SEED_ENV_PREFIX,
};

fn s3(bucket: &str) -> Backend {
    Backend {
        kind: "S3".to_string(),
        workload_identity: None,
        auth_secret: None,
        path: None,
        volume: None,
        settings: bucket.to_string(),
    }
}

fn repository(name: &str) -> SeedSource {
    SeedSource::Repository(RepositoryRef {
        kind: RepositoryKind::Repository,
        name: name.to_string(),
        namespace: None,
    })
}

fn migrate_seed() -> SeedSpec {
    SeedSpec {
        from: repository("offsite"),
        description: "Repository/offsite".to_string(),
        sync: None,
        migrate: None,
        allow_empty_source: false,
        failure_policy: None,
        project_credentials: false,
    }
}

fn blob_seed() -> SeedSpec {
    SeedSpec {
        from: SeedSource::Backend(s3("offsite")),
        description: "S3".to_string(),
        ..migrate_seed()
    }
}

fn sync(parallel: Option<i64>) -> SeedSync {
    SeedSync {
        parallel,
        max_download_speed_bytes_per_second: None,
        max_upload_speed_bytes_per_second: None,
    }
}

fn source(throttle_defaults: Option<Throttle>) -> SeedSourceRepository {
    SeedSourceRepository {
        kind: RepositoryKind::Repository,
        name: "offsite".to_string(),
        repo_namespace: Some("backups".to_string()),
        backend: s3("source-bucket"),
        ca_bundle_pem: Some("SOURCE-CA".to_string()),
        throttle_defaults,
        password_key: None,
    }
}

fn throttle(up: Option<i64>, down: Option<i64>, r: Option<i64>, w: Option<i64>) -> Throttle {
    Throttle {
        upload_bytes_per_second: up,
        download_bytes_per_second: down,
        read_ops_per_second: r,
        write_ops_per_second: w,
    }
}

fn blank() -> SeedStatus {
    SeedStatus {
        started_at: None,
        seeded_at: None,
        mode: None,
        source: None,
        snapshot_count: None,
        snapshots_copied: None,
    }
}

fn performed(mode: SeedMode, source: &str, count: i64, copied: Option<i64>) -> SeedOutcome {
    SeedOutcome {
        mode,
        source: source.to_string(),
        performed: true,
        snapshot_count: Some(count),
        snapshots_copied: copied,
    }
}

fn already_initialized(mode: SeedMode, source: &str) -> SeedOutcome {
    SeedOutcome {
        mode,
        source: source.to_string(),
        performed: false,
        snapshot_count: None,
        snapshots_copied: None,
    }
}

#[test]
fn seed_op_for_covers_both_source_shapes_and_carries_one_source_rendering() {
    let blob = SeedSpec { sync: Some(sync(Some(8))), ..blob_seed() };
    let op = seed_op_for(&blob, Some("SEED-CA".to_string()), &None, false).expect("blob op");
    assert_eq!(blob.from.mode(), SeedMode::Blob);
    assert_eq!(op.source_description, "S3");
    assert_eq!(op.sync.and_then(|s| s.parallel), Some(8));
    assert!(op.migrate.is_none());
    assert!(!op.resume);
    match op.from {
        SeedConnectSource::Backend(b) => {
            assert_eq!(b.backend.settings, "offsite");
            assert_eq!(b.ca_bundle_pem.as_deref(), Some("SEED-CA"));
        }
        _ => panic!("expected a backend source"),
    }

    let migrate = SeedSpec {
        migrate: Some(SeedMigrate {
            parallel: None,
            latest_only: true,
            policies: "None".to_string(),
            throttle: None,
        }),
        ..migrate_seed()
    };
    let op = seed_op_for(&migrate, None, &Some(source(None)), true).expect("migrate op");
    assert_eq!(migrate.from.mode(), SeedMode::Migrate);
    assert!(op.resume, "resume must ride the op verbatim");
    assert_eq!(op.source_description, "Repository/offsite");
    assert!(op.sync.is_none());
    let m = op.migrate.expect("migrate tuning");
    assert!(m.latest_only);
    assert_eq!(m.policies, "None");
    match op.from {
        SeedConnectSource::Repository(r) => {
            assert_eq!(r.kind, "Repository");
            assert_eq!(r.name, "offsite");
            assert_eq!(r.namespace.as_deref(), Some("backups"));
            assert_eq!(r.connect.ca_bundle_pem.as_deref(), Some("SOURCE-CA"));
        }
        _ => panic!("expected a repository source"),
    }
}

#[test]
fn seed_throttles_resolve_per_side_from_each_repositorys_own_defaults() {
    let src = Some(source(Some(throttle(None, Some(1), Some(2), None))));
    let local_defaults = Some(throttle(Some(3), None, None, Some(4)));
    let seed = Some(SeedSpec {
        migrate: Some(SeedMigrate {
            parallel: None,
            latest_only: false,
            policies: "None".to_string(),
            throttle: Some(SeedThrottle {
                source: Some(throttle(None, Some(11), None, None)),
                destination: Some(throttle(Some(22), None, None, None)),
            }),
        }),
        ..migrate_seed()
    });
    let op = seed_op_for(seed.as_ref().unwrap(), None, &src, false).expect("migrate op");
    assert_eq!(op.replica_throttle.download_bytes_per_second, Some(11));
    assert_eq!(op.replica_throttle.read_ops_per_second, Some(2));
    assert_eq!(
        op.replica_throttle.upload_bytes_per_second, None,
        "the SEEDED repository's upload default must not reach the replica"
    );
    assert_eq!(
        op.replica_throttle.write_ops_per_second, None,
        "the SEEDED repository's writeOps default must not reach the replica"
    );

    let armed = seed_bootstrap_throttle(true, &seed, local_defaults);
    assert_eq!(armed.upload_bytes_per_second, Some(22));
    assert_eq!(armed.write_ops_per_second, Some(4));
    assert_eq!(
        armed.download_bytes_per_second, None,
        "the REPLICA's download default must not reach the seeded repository"
    );
    assert_eq!(armed.read_ops_per_second, None);

    let unarmed = seed_bootstrap_throttle(false, &seed, local_defaults);
    assert_eq!(unarmed.upload_bytes_per_second, Some(3));
    assert_eq!(unarmed.write_ops_per_second, Some(4));
    assert!(unarmed.download_bytes_per_second.is_none());

    let plain = Some(migrate_seed());
    let op = seed_op_for(plain.as_ref().unwrap(), None, &src, false).expect("migrate op");
    assert_eq!(op.replica_throttle.download_bytes_per_second, Some(1));
    assert!(seed_bootstrap_throttle(true, &plain, None).is_empty());

    let blob = Some(SeedSpec {
        sync: Some(SeedSync {
            max_download_speed_bytes_per_second: Some(20000000),
            ..sync(None)
        }),
        ..blob_seed()
    });
    let op = seed_op_for(blob.as_ref().unwrap(), None, &None, false).expect("blob op");
    assert!(op.replica_throttle.is_empty());
    assert!(seed_bootstrap_throttle(true, &blob, None).is_empty());
}

#[test]
fn a_migrate_seed_without_a_resolved_source_yields_no_payload() {
    assert!(seed_op_for(&migrate_seed(), None, &None, false).is_none());
}

#[test]
fn only_an_armed_seed_changes_the_bootstrap_job_limits() {
    let base = JobLimits {
        active_deadline_seconds: Some(120),
        backoff_limit: 2,
        ttl_seconds_after_finished: Some(3600),
    };
    let seed = Some(migrate_seed());

    let unarmed = seed_job_limits(false, &seed, base);
    assert_eq!(unarmed.active_deadline_seconds, Some(120));
    assert_eq!(unarmed.backoff_limit, 2);

    let armed = seed_job_limits(true, &seed, base);
    assert_eq!(
        armed.active_deadline_seconds,
        Some(DEFAULT_SEED_BOOTSTRAP_DEADLINE_SECS)
    );
    assert_eq!(armed.backoff_limit, 2);
    assert_eq!(armed.ttl_seconds_after_finished, Some(3600));

    let tuned = Some(SeedSpec {
        failure_policy: Some(FailurePolicy {
            active_deadline_seconds: Some(43200),
            backoff_limit: Some(5),
        }),
        ..migrate_seed()
    });
    let armed = seed_job_limits(true, &tuned, base);
    assert_eq!(armed.active_deadline_seconds, Some(43_200));
    assert_eq!(armed.backoff_limit, 5);

    let untouched = seed_job_limits(true, &None, base);
    assert_eq!(untouched.active_deadline_seconds, base.active_deadline_seconds);
    assert_eq!(untouched.backoff_limit, base.backoff_limit);
    assert_eq!(
        untouched.ttl_seconds_after_finished,
        base.ttl_seconds_after_finished
    );
}

#[test]
fn the_attempt_marker_is_stamped_once_and_never_over_a_finished_seed() {
    let now = "2026-08-17T00:00:00+00:00";
    let patch = seed_marker_patch(&None, SeedMode::Migrate, "Repository/offsite", now)
        .expect("first attempt stamps a marker");
    assert_eq!(patch.started_at.as_deref(), Some(now));
    assert_eq!(patch.mode.map(|m| m.as_str()), Some("migrate"));
    assert_eq!(patch.source.as_deref(), Some("Repository/offsite"));

    let existing = SeedStatus {
        started_at: Some("2026-08-16T00:00:00+00:00".to_string()),
        mode: Some(SeedMode::Migrate),
        source: Some("Repository/offsite".to_string()),
        ..blank()
    };
    assert!(
        seed_marker_patch(
            &Some(existing.clone()),
            SeedMode::Migrate,
            "Repository/offsite",
            now
        )
        .is_none(),
        "an unchanged marker must be a no-op, not a rewrite"
    );

    let repointed = seed_marker_patch(&Some(existing.clone()), SeedMode::Blob, "S3", now)
        .expect("a repointed seed updates mode/source");
    assert_eq!(
        repointed.started_at.as_deref(),
        Some("2026-08-16T00:00:00+00:00")
    );
    assert_eq!(repointed.mode.map(|m| m.as_str()), Some("blob"));

    let done = SeedStatus {
        seeded_at: Some("2026-08-16T02:00:00+00:00".to_string()),
        ..existing.clone()
    };
    assert!(seed_marker_patch(&Some(done), SeedMode::Blob, "S3", now).is_none());
}

#[test]
fn the_resume_matrix_the_controller_relies_on() {
    let armed = |uid: Option<&str>| seed_armed(true, &uid.map(str::to_string));
    let marker = |started: Option<&str>, seeded: Option<&str>| SeedStatus {
        started_at: started.map(str::to_string),
        seeded_at: seeded.map(str::to_string),
        ..blank()
    };

    assert!(armed(None));
    assert!(!seed_resume(armed(None), &None));

    let attempted = || Some(marker(Some("2026-08-17T00:00:00Z"), None));
    assert!(seed_resume(armed(None), &attempted()));

    assert!(!armed(Some("uid-1")));
    assert!(!seed_resume(armed(Some("uid-1")), &attempted()));

    let adopted = Some(marker(None, None));
    assert!(armed(None));
    assert!(!seed_resume(armed(None), &adopted));
}

#[test]
fn a_seed_interrupted_by_suspend_still_resumes_when_the_repository_wakes() {
    let mid_seed = Some(SeedStatus {
        started_at: Some("2026-08-17T00:00:00Z".to_string()),
        mode: Some(SeedMode::Blob),
        source: Some("S3".to_string()),
        ..blank()
    });
    assert!(seed_resume(true, &mid_seed));
    assert!(seed_marker_patch(&mid_seed, SeedMode::Blob, "S3", "2026-08-18T00:00:00Z").is_none());
}

#[test]
fn the_success_fold_distinguishes_a_real_seed_from_the_standing_no_op() {
    let now = "2026-08-17T03:00:00+00:00";
    let fold = seed_success_fold(
        &performed(SeedMode::Migrate, "Repository/offsite", 412, Some(412)),
        &None,
        now,
    );
    assert_eq!(fold.reason, SEEDED_REASON);
    assert_eq!(fold.outcome, SeedOutcomeLabel::Seeded);
    assert_eq!(fold.status.seeded_at.as_deref(), Some(now));
    assert_eq!(fold.status.mode.map(|m| m.as_str()), Some("migrate"));
    assert_eq!(fold.status.snapshot_count, Some(412));
    assert_eq!(fold.status.snapshots_copied, Some(412));
    let event = fold.event.expect("a real seed announces itself");
    assert!(event.contains("retention"), "{event}");
    assert!(event.contains("SnapshotPolic"), "{event}");

    let fold = seed_success_fold(&performed(SeedMode::Blob, "S3", 7, None), &None, now);
    assert_eq!(fold.status.snapshot_count, Some(7));
    assert!(fold.status.snapshots_copied.is_none());

    let fold = seed_success_fold(&already_initialized(SeedMode::Blob, "S3"), &None, now);
    assert_eq!(fold.reason, ALREADY_INITIALIZED_REASON);
    assert_eq!(fold.outcome, SeedOutcomeLabel::AlreadyInitialized);
    assert!(fold.status.seeded_at.is_none());
    assert!(fold.status.snapshot_count.is_none());
    assert!(fold.event.is_none());
}

#[test]
fn a_seed_is_announced_with_its_count() {
    let fold = seed_success_fold(
        &performed(SeedMode::Migrate, "Repository/offsite", 9, Some(3)),
        &None,
        "now",
    );
    assert_eq!(
        fold.message,
        "seeded this repository from Repository/offsite (migrate mode); 3 snapshot(s) present"
    );
    assert_eq!(seed_mode_of(&performed(SeedMode::Blob, "S3", 1, None)), SeedMode::Blob);
}

#[test]
fn re_folding_a_finished_seed_is_a_byte_stable_no_op() {
    let outcome = performed(SeedMode::Migrate, "Repository/e2e-seed-mig-src", 1, Some(1));
    let marker = Some(SeedStatus {
        started_at: Some("2026-08-26T03:33:20+00:00".to_string()),
        ..blank()
    });
    let first = seed_success_fold(&outcome, &marker, "2026-08-26T03:33:26+00:00");
    assert_eq!(
        first.status.seeded_at.as_deref(),
        Some("2026-08-26T03:33:26+00:00"),
        "the first fold stamps the completion time"
    );
    assert_eq!(
        first.status.started_at.as_deref(),
        Some("2026-08-26T03:33:20+00:00"),
        "the seed-attempt marker rides the patch"
    );

    let stored = SeedStatus {
        started_at: Some("2026-08-26T03:33:20+00:00".to_string()),
        seeded_at: Some("2026-08-26T03:33:26+00:00".to_string()),
        mode: Some(SeedMode::Migrate),
        source: Some("Repository/e2e-seed-mig-src".to_string()),
        snapshot_count: Some(1),
        snapshots_copied: Some(1),
    };
    let mut later = None;
    merge_seed_status(
        &mut later,
        &Some(
            seed_success_fold(&outcome, &Some(stored.clone()), "2026-08-26T03:51:54+00:00").status,
        ),
    );
    assert_eq!(
        later,
        Some(stored),
        "the steady-state re-fold must not re-write status"
    );

    let fold = seed_success_fold(
        &already_initialized(SeedMode::Blob, "S3"),
        &marker,
        "2026-08-26T03:51:54+00:00",
    );
    assert_eq!(
        fold.status.started_at.as_deref(),
        Some("2026-08-26T03:33:20+00:00")
    );
    assert!(fold.status.seeded_at.is_none());
}

#[test]
fn merging_the_seed_fold_never_drops_a_key_already_in_the_patch() {
    let mut patch = Some(SeedStatus {
        started_at: Some("2026-08-17T00:00:00Z".to_string()),
        ..blank()
    });
    let fold = || {
        Some(
            seed_success_fold(
                &performed(SeedMode::Blob, "S3", 3, None),
                &None,
                "2026-08-17T03:00:00Z",
            )
            .status,
        )
    };
    merge_seed_status(&mut patch, &fold());
    let merged = patch.unwrap();
    assert_eq!(
        merged.started_at.as_deref(),
        Some("2026-08-17T00:00:00Z"),
        "the marker survives the success fold"
    );
    assert_eq!(merged.seeded_at.as_deref(), Some("2026-08-17T03:00:00Z"));

    let mut patch = None;
    merge_seed_status(&mut patch, &fold());
    assert_eq!(patch.unwrap().mode.map(|m| m.as_str()), Some("blob"));

    let mut patch = None;
    merge_seed_status(&mut patch, &None);
    assert!(patch.is_none());
}

#[test]
fn every_seed_park_and_progress_message_says_what_why_and_how_to_fix_it() {
    let messages = [
        seeding_message("S3", 86_400),
        waiting_for_seed_source_message("Repository/offsite", "it is not Ready"),
        bare_path_seed_source_message("Repository/offsite", "/srv/kopia"),
    ];
    for m in &messages {
        assert!(!m.contains("   "), "wrapped source whitespace in: {m}");
        assert!(m.len() > 80, "too terse to be actionable: {m}");
    }
    assert!(messages[0].contains("86400"), "{}", messages[0]);
    assert!(messages[0].contains("spec.seed.failurePolicy"), "{}", messages[0]);
    assert!(messages[0].contains("Initializing"), "{}", messages[0]);
    assert!(
        !messages[0].contains("Pending"),
        "the seeding progress message must not claim a phase the launch patch never writes: {}",
        messages[0]
    );
    assert!(messages[1].contains("not Ready"), "{}", messages[1]);
    assert!(messages[1].contains("Pending"), "{}", messages[1]);
    assert!(messages[1].contains("Fix:"), "{}", messages[1]);
    assert!(messages[2].contains("volume"), "{}", messages[2]);
    assert!(messages[2].contains("Fix:"), "{}", messages[2]);
}

fn pair() -> BackendPair {
    BackendPair {
        local_kind: "S3".to_string(),
        same_storage: false,
        mount_collision: None,
        auth_conflict: false,
        local_identity: None,
        source_identity: None,
    }
}

#[test]
fn backend_parks_pick_the_reason_of_the_first_problem() {
    let reason = |pair: BackendPair| {
        migrate_source_backend_park("Repository/offsite", &pair).map(|p| p.gate.reason)
    };
    assert_eq!(reason(pair()), None);
    assert_eq!(
        reason(BackendPair { same_storage: true, ..pair() }),
        Some("WaitingForSeedSource")
    );
    assert_eq!(
        reason(BackendPair { mount_collision: Some("/repo".to_string()), ..pair() }),
        Some("WaitingForSeedSource")
    );
    assert_eq!(
        reason(BackendPair { auth_conflict: true, ..pair() }),
        Some("SeedSourceAuthConflict")
    );
    assert_eq!(
        reason(BackendPair { auth_conflict: true, same_storage: true, ..pair() }),
        Some("WaitingForSeedSource")
    );
}

#[test]
fn every_migrate_backend_park_message_says_what_why_and_how_to_fix_it() {
    let new = || Some("kopiur-new".to_string());
    let old = || Some("kopiur-old".to_string());
    let both = seed_source_auth_conflict_message("Repository/offsite", &new(), &old());
    let one_sided = seed_source_auth_conflict_message("ClusterRepository/archive", &new(), &None);
    let other_side = seed_source_auth_conflict_message("Repository/offsite", &None, &old());
    let same_storage = seed_source_same_storage_message("Repository/offsite", "S3");
    let collision = seed_mount_path_collision_message("Repository/offsite", "/repo");

    for m in [&both, &one_sided, &other_side, &same_storage, &collision] {
        assert!(m.contains("spec.seed"), "{m}");
        assert!(
            m.contains("Repository/offsite") || m.contains("ClusterRepository/"),
            "{m}"
        );
        assert!(m.contains("Fix:"), "{m}");
        assert!(m.len() > 80, "too terse to be actionable: {m}");
        assert!(!m.contains("   "), "wrapped source whitespace in: {m}");
    }
    for m in [&both, &one_sided, &other_side] {
        assert!(m.contains("ONE ServiceAccount"), "{m}");
        assert!(m.contains("auth.workloadIdentity"), "{m}");
        assert!(m.contains("static credential Secret"), "{m}");
        assert!(m.contains("ClusterRepository"), "{m}");
        assert!(!m.contains("this namespace can read"), "{m}");
    }
    assert!(both.contains("kopiur-new"), "{both}");
    assert!(both.contains("kopiur-old"), "{both}");
    assert!(one_sided.contains("kopiur-new"), "{one_sided}");
    assert!(other_side.contains("kopiur-old"), "{other_side}");
    assert!(same_storage.contains("BY NAME"), "{same_storage}");
    assert!(same_storage.contains("S3"), "{same_storage}");
    assert!(collision.contains("/repo"), "{collision}");
    assert!(collision.contains("mountPath"), "{collision}");
    assert!(collision.contains("moves no data"), "{collision}");
}

#[test]
fn an_identity_is_quoted_as_debug_formatting_does() {
    let m = seed_source_auth_conflict_message(
        "Repository/offsite",
        &Some("a\"b".to_string()),
        &Some("kopiur-old".to_string()),
    );
    assert!(m.contains(&format!("{:?}", "a\"b")), "{m}");
    assert!(m.contains("\"kopiur-old\""), "{m}");
}

fn cond(type_: &str, status: &str, reason: &str) -> Condition {
    Condition {
        type_: type_.to_string(),
        status: status.to_string(),
        reason: reason.to_string(),
        message: "m".to_string(),
        last_transition_time: "2026-08-17T00:00:00Z".to_string(),
        observed_generation: None,
    }
}

#[test]
fn a_seeded_condition_that_no_longer_describes_anything_is_dropped() {
    let keep = || cond("Bootstrapped", "True", "Bootstrapped");
    let ready = || cond("Ready", "True", "Bootstrapped");
    let parked = vec![
        keep(),
        cond(SEEDED_CONDITION, "False", "WaitingForSeedSource"),
        ready(),
    ];
    let out = drop_seed_condition(&parked);
    assert!(!out.iter().any(|x| x.type_ == SEEDED_CONDITION));
    assert_eq!(out.len(), 2, "only the Seeded condition is removed");
    assert_eq!(out[0].type_, "Bootstrapped");
    assert_eq!(out[1].type_, "Ready");

    let seeding = vec![keep(), cond(SEEDED_CONDITION, "False", "Seeding")];
    assert!(!drop_seed_condition(&seeding)
        .iter()
        .any(|x| x.type_ == SEEDED_CONDITION));

    let mid_seed_auth_failure = vec![
        cond("Bootstrapped", "False", "AuthFailure"),
        cond(SEEDED_CONDITION, "False", "Seeding"),
    ];
    let out = drop_seed_condition(&mid_seed_auth_failure);
    assert_eq!(out.len(), 1);
    assert_eq!(out[0].reason, "AuthFailure", "the real story survives");
    assert_eq!(drop_seed_condition(&out).len(), 1);
    assert!(drop_seed_condition(&vec![]).is_empty());
}

#[test]
fn a_recorded_seed_failure_suppresses_the_seeding_rewrite() {
    for reason in [
        "SeedSourceNotFound",
        "SeedSourceEmpty",
        "SeedIncomplete",
        "SeedLeftEmpty",
        "SeedMoverTooOld",
    ] {
        assert!(
            seed_failure_recorded(&vec![cond(SEEDED_CONDITION, "False", reason)]),
            "{reason} must suppress the Seeding rewrite"
        );
    }
    for (type_, status, reason) in [
        (SEEDED_CONDITION, "False", "WaitingForSeedSource"),
        (SEEDED_CONDITION, "False", "Seeding"),
        (SEEDED_CONDITION, "True", SEEDED_REASON),
        ("Bootstrapped", "False", "SeedSourceEmpty"),
    ] {
        assert!(!seed_failure_recorded(&vec![cond(type_, status, reason)]));
    }
    assert!(!seed_failure_recorded(&vec![]));
}

#[test]
fn a_failure_writes_its_seed_story_or_takes_the_standing_one_away() {
    let standing = vec![cond(SEEDED_CONDITION, "False", "Seeding")];
    let out = seed_condition_fold(Some(2), Some("SeedLeftEmpty"), "why", &standing, "now");
    assert_eq!(out.len(), 1);
    assert_eq!(out[0].reason, "SeedLeftEmpty");
    assert_eq!(out[0].message, "why");
    assert!(seed_condition_fold(Some(2), None, "why", &standing, "now").is_empty());
}

#[test]
fn a_bare_path_is_told_before_the_backends_are_compared() {
    let message = |backend: &Backend, pair: BackendPair| {
        migrate_source_park("Repository/offsite", backend, &pair).map(|p| p.message)
    };
    let bare = Backend { path: Some("/srv/kopia".to_string()), ..s3("source-bucket") };
    assert_eq!(
        message(&bare, BackendPair { same_storage: true, ..pair() }),
        Some(bare_path_seed_source_message("Repository/offsite", "/srv/kopia"))
    );
    let mounted = Backend { volume: Some("pvc/offsite".to_string()), ..bare };
    assert_eq!(message(&mounted, pair()), None);
    assert_eq!(
        message(&mounted, BackendPair { same_storage: true, ..pair() }),
        Some(seed_source_same_storage_message("Repository/offsite", "S3"))
    );
    assert_eq!(message(&s3("source-bucket"), pair()), None);
}

fn arm(events: Vec<ArmEvent>) -> (ArmStage, Vec<ArmAction>) {
    let mut stage = ArmStage::Resolve;
    let mut actions = Vec::new();
    for e in &events {
        let (next, action) = arm_migrate_step(&migrate_seed(), stage, e);
        stage = next;
        actions.push(action);
    }
    (stage, actions)
}

fn accepted() -> Vec<ArmEvent> {
    vec![
        ArmEvent::SourceResolved,
        ArmEvent::ReadyRead(true),
        ArmEvent::SourceFound { backend: s3("source-bucket"), pair: pair() },
    ]
}

#[test]
fn a_usable_source_is_armed_after_its_secrets_were_found() {
    let mut events = accepted();
    events.push(ArmEvent::CredsResolved);
    events.push(ArmEvent::CredsPresent);
    let (stage, actions) = arm(events);
    assert_eq!(stage, ArmStage::Done);
    assert!(matches!(
        actions.as_slice(),
        [
            ArmAction::ReadReadiness,
            ArmAction::CompareBackends,
            ArmAction::ResolveCredentials { project: false },
            ArmAction::CheckCredentials,
            ArmAction::Arm,
        ]
    ));
}

#[test]
fn a_source_that_is_missing_or_not_ready_is_waited_for() {
    let missing = Error::MissingDependency("no such Repository".to_string());
    for (events, why) in [
        (vec![ArmEvent::ResolveFailed(missing)], "it does not exist (yet)"),
        (vec![ArmEvent::SourceResolved, ArmEvent::ReadyRead(false)], "it is not Ready"),
    ] {
        let (stage, mut actions) = arm(events);
        assert_eq!(stage, ArmStage::Done);
        match actions.pop() {
            Some(ArmAction::Park(p)) => {
                assert_eq!(p.gate.reason, "WaitingForSeedSource");
                assert_eq!(p.gate.condition, "Seeded");
                assert_eq!(
                    p.message,
                    waiting_for_seed_source_message("Repository/offsite", why)
                );
            }
            _ => panic!("expected a park"),
        }
    }
}

#[test]
fn any_other_failure_of_an_arming_comes_out() {
    let down = || Error::Kube("503".to_string());
    let (stage, actions) = arm(vec![ArmEvent::ResolveFailed(down())]);
    assert_eq!(stage, ArmStage::Done);
    assert!(matches!(&actions[0], ArmAction::Fail(Error::Kube(m)) if m == "503"));
    let gone = Error::MissingDependency("no Secret".to_string());
    let mut events = accepted();
    events.push(ArmEvent::StepFailed(gone));
    let (_, actions) = arm(events);
    assert!(matches!(&actions[3], ArmAction::Fail(Error::MissingDependency(m)) if m == "no Secret"));
    let (_, actions) = arm(vec![ArmEvent::SourceResolved, ArmEvent::StepFailed(down())]);
    assert!(matches!(&actions[1], ArmAction::Fail(Error::Kube(_))));
}

#[test]
fn a_parked_arming_touches_no_secret() {
    let (stage, actions) = arm(vec![
        ArmEvent::SourceResolved,
        ArmEvent::ReadyRead(true),
        ArmEvent::SourceFound {
            backend: s3("source-bucket"),
            pair: BackendPair { auth_conflict: true, ..pair() },
        },
        ArmEvent::CredsResolved,
        ArmEvent::CredsPresent,
    ]);
    assert_eq!(stage, ArmStage::Done);
    assert!(matches!(&actions[2], ArmAction::Park(p) if p.gate.reason == "SeedSourceAuthConflict"));
    assert!(matches!(actions[3], ArmAction::Ignore));
    assert!(matches!(actions[4], ArmAction::Ignore));
}

#[test]
fn arming_follows_the_source_and_refuses_on_the_first_complaint() {
    assert_eq!(arm_seed(&None, true, &vec![]).unwrap(), SeedArmingStep::NotArmed);
    assert_eq!(
        arm_seed(&Some(blob_seed()), false, &vec!["x".to_string()]).unwrap(),
        SeedArmingStep::NotArmed
    );
    assert_eq!(
        arm_seed(&Some(blob_seed()), true, &vec![]).unwrap(),
        SeedArmingStep::ArmBlob
    );
    assert_eq!(
        arm_seed(&Some(migrate_seed()), true, &vec![]).unwrap(),
        SeedArmingStep::ArmMigrate
    );
    match arm_seed(
        &Some(blob_seed()),
        true,
        &vec!["first".to_string(), "second".to_string()],
    ) {
        Err(Error::Validation(m)) => assert_eq!(m, "first"),
        _ => panic!("expected a refusal"),
    }
    assert_eq!(seed_failure_to_count(&Some(blob_seed()), true), Some(SeedMode::Blob));
    assert_eq!(seed_failure_to_count(&Some(blob_seed()), false), None);
}

#[test]
fn a_blob_seed_loads_only_its_storage_credentials() {
    let backend = Backend {
        auth_secret: Some(SecretRef { name: "keys".to_string(), namespace: None }),
        path: Some("/mirror".to_string()),
        volume: Some("pvc".to_string()),
        ..s3("offsite")
    };
    let seed = SeedSpec { from: SeedSource::Backend(backend.clone()), ..blob_seed() };
    let armed = arm_blob_seed(&seed, &backend, None, false).unwrap_or_else(|e| panic!("{e:?}"));
    assert_eq!(armed.creds.len(), 1);
    assert_eq!(armed.creds[0].secret_name, "keys");
    assert_eq!(armed.creds[0].prefix.as_deref(), Some(SEED_ENV_PREFIX));
    assert!(armed.extra_env.is_empty());
    let volume = armed.source_volume.unwrap();
    assert_eq!(volume.mount_path, "/mirror");
    assert!(volume.container_mount_read_only);
    assert!(seed_source_volume(&s3("x")).is_none());
}

#[test]
fn a_migrate_seed_takes_its_password_by_reference() {
    let names = vec!["pw".to_string(), "keys".to_string()];
    let armed = arm_migrate_seed(&migrate_seed(), source(None), &names, 2, true)
        .unwrap_or_else(|e| panic!("{e:?}"));
    assert_eq!(armed.projected, 2);
    assert_eq!(armed.creds.len(), 2);
    assert_eq!(armed.extra_env[0].secret_name, "pw");
    assert_eq!(armed.extra_env[0].secret_key, "KOPIA_PASSWORD");
    assert!(!armed.extra_env[0].optional);
    assert!(armed.op.resume);
    let keyed = seed_password_env(&names, &Some("pass".to_string()))
        .unwrap_or_else(|e| panic!("{e:?}"));
    assert_eq!(keyed.secret_key, "pass");
    assert!(matches!(
        arm_migrate_seed(&migrate_seed(), source(None), &vec![], 0, false),
        Err(Error::Invariant(_))
    ));
}
