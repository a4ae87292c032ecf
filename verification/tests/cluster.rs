use kopiur_controller::backend::Backend;
use kopiur_controller::cluster_reconcile::{cluster_secret_namespace, unplaced_warning_message};
use kopiur_controller::error::Error;
use kopiur_controller::seed_run::{RepositoryConnect, SeedConnectSource, SeedOpSpec, Throttle};
use kopiur_controller::work_spec::{
    cluster_bootstrap_work_spec, cluster_repository_ref, BootstrapRepositoryOp, BootstrapWork,
    ForeignSnapshots, MoverWorkSpec, RestampPolicy,
};

fn filesystem(path: &str) -> Backend {
    Backend {
        kind: "Filesystem".to_string(),
        workload_identity: None,
        auth_secret: None,
        path: Some(path.to_string()),
        volume: None,
        settings: String::new(),
    }
}

fn uncapped() -> Throttle {
    Throttle {
        upload_bytes_per_second: None,
        download_bytes_per_second: None,
        read_ops_per_second: None,
        write_ops_per_second: None,
    }
}

fn work() -> BootstrapWork {
    BootstrapWork {
        name: "shared".to_string(),
        job_ns: "kopia-system".to_string(),
        auto_create: true,
        probe_only: false,
        create_options: None,
        throttle: uncapped(),
        cluster: None,
        foreign: ForeignSnapshots::Fallback,
        read_only: false,
        maintenance_enabled: true,
        foreign_maintenance: false,
        epoch_parameters: None,
        blob_retention: None,
    }
}

fn build(work: BootstrapWork, seed: Option<SeedOpSpec>) -> MoverWorkSpec {
    cluster_bootstrap_work_spec(work, filesystem("/repo"), None, seed)
}

#[test]
fn explicit_secret_namespace_wins_over_the_operator_namespace() {
    assert_eq!(
        cluster_secret_namespace(Some("vault"), Some("kopiur-system")).unwrap(),
        "vault"
    );
}

#[test]
fn absent_secret_namespace_defaults_to_the_operator_namespace() {
    assert_eq!(
        cluster_secret_namespace(None, Some("kopiur-system")).unwrap(),
        "kopiur-system"
    );
}

#[test]
fn absent_secret_namespace_without_an_operator_namespace_is_an_actionable_error() {
    let err = cluster_secret_namespace(None, None).expect_err("must not guess a namespace");
    let msg = err.message();
    assert!(
        msg.contains("encryption.passwordSecretRef.namespace"),
        "{msg}"
    );
    assert!(msg.contains("KOPIUR_NAMESPACE"), "{msg}");
    assert!(matches!(err, Error::Validation(_)), "{err:?}");
}

#[test]
fn unplaced_warning_names_the_shared_repo_fix_alongside_the_original_ones() {
    let msg = unplaced_warning_message(&vec!["ghost".to_string(), "old-host".to_string()]);
    assert!(msg.contains("ghost"), "{msg}");
    assert!(msg.contains("old-host"), "{msg}");
    assert!(msg.contains("spec.catalog.fallbackNamespace"), "{msg}");
    assert!(msg.contains("identityDefaults.cluster"), "{msg}");
    assert!(msg.contains("catalog.foreignSnapshots: Ignore"), "{msg}");
}

#[test]
fn unplaced_hosts_are_joined_with_commas() {
    let msg = unplaced_warning_message(&vec!["ghost".to_string(), "old-host".to_string()]);
    assert!(msg.starts_with(
        "discovered snapshots unplaced: identity hostname(s) [ghost, old-host] match no namespace"
    ));
}

#[test]
fn the_cluster_bootstrap_work_spec_carries_the_seed_payload_only_when_armed() {
    let op = |read_only: bool, seed: Option<SeedOpSpec>| -> BootstrapRepositoryOp {
        build(BootstrapWork { read_only, ..work() }, seed).operation
    };
    let plain = op(false, None);
    assert!(plain.seed.is_none());

    let armed = op(
        false,
        Some(SeedOpSpec {
            from: SeedConnectSource::Backend(RepositoryConnect {
                backend: filesystem("/mirror"),
                ca_bundle_pem: None,
            }),
            source_description: "Filesystem".to_string(),
            sync: None,
            migrate: None,
            allow_empty_source: true,
            resume: false,
            replica_throttle: uncapped(),
        }),
    );
    let carried = armed.seed.expect("the seed rides the op");
    assert!(carried.allow_empty_source);
    assert!(!carried.resume);

    let read_only = op(true, None);
    assert!(read_only.read_only);
    assert!(read_only.seed.is_none());
}

#[test]
fn cluster_bootstrap_work_spec_maintenance_owner_gating() {
    let op = |read_only: bool, enabled: bool, foreign_m: bool, cluster: Option<&str>| {
        build(
            BootstrapWork {
                read_only,
                maintenance_enabled: enabled,
                foreign_maintenance: foreign_m,
                cluster: cluster.map(str::to_string),
                ..work()
            },
            None,
        )
        .operation
    };

    let legacy = op(false, true, false, None);
    assert_eq!(
        legacy.maintenance_owner.as_deref(),
        Some("kopiur@kopiur-clusterrepository-shared")
    );
    assert_eq!(legacy.restamp_policy, RestampPolicy::AnyStale);
    assert!(legacy.maintenance_owner_aliases.is_empty());
    assert!(!legacy.read_only);

    let qualified = op(false, true, false, Some("east"));
    assert_eq!(
        qualified.maintenance_owner.as_deref(),
        Some("kopiur@kopiur.east.clusterrepository.shared")
    );
    assert_eq!(qualified.restamp_policy, RestampPolicy::OwnFormatsOnly);
    assert_eq!(
        qualified.maintenance_owner_aliases,
        vec!["kopiur@kopiur-clusterrepository-shared".to_string()]
    );

    let consumer = op(true, true, false, Some("east"));
    assert_eq!(consumer.maintenance_owner, None);
    assert!(consumer.read_only);

    assert_eq!(op(false, false, false, None).maintenance_owner, None);
    assert_eq!(op(false, true, true, None).maintenance_owner, None);
}

#[test]
fn a_bootstrap_acts_as_a_fixed_user_of_its_repository() {
    let spec = build(work(), None);
    assert_eq!(spec.version, 1);
    assert!(spec.hook_plan.is_none() && spec.options.is_none());
    assert!(spec.cache.is_none());
    assert_eq!(spec.identity.username, "kopiur-bootstrap");
    assert_eq!(spec.identity.hostname, "shared");
    assert_eq!(spec.identity.source_path, "");
    assert_eq!(spec.target_ref.kind, "ClusterRepository");
    assert_eq!(spec.target_ref.namespace, "kopia-system");
    assert_eq!(spec.target_ref.api_version, "kopiur.home-operations.com/v1alpha1");
    assert_eq!(spec.repository.backend.path.as_deref(), Some("/repo"));
}

#[test]
fn foreign_snapshots_are_dropped_early_only_where_the_cluster_is_named_and_ignores_them() {
    let prefilter = |cluster: Option<&str>, foreign: ForeignSnapshots| {
        build(
            BootstrapWork { cluster: cluster.map(str::to_string), foreign, ..work() },
            None,
        )
        .operation
        .catalog_foreign_prefilter_cluster
    };
    assert_eq!(
        prefilter(Some("east"), ForeignSnapshots::Ignore).as_deref(),
        Some("east")
    );
    assert_eq!(prefilter(Some("east"), ForeignSnapshots::Fallback), None);
    assert_eq!(prefilter(Some(""), ForeignSnapshots::Ignore), None);
    assert_eq!(prefilter(None, ForeignSnapshots::Ignore), None);
}

#[test]
fn a_read_only_bootstrap_is_handed_no_parameters() {
    let op = |read_only: bool| {
        build(
            BootstrapWork {
                read_only,
                epoch_parameters: Some("{}".to_string()),
                blob_retention: Some("{}".to_string()),
                ..work()
            },
            None,
        )
        .operation
    };
    assert!(op(false).epoch_parameters.is_some());
    assert!(op(false).blob_retention.is_some());
    assert!(op(true).epoch_parameters.is_none());
    assert!(op(true).blob_retention.is_none());
}

#[test]
fn a_cluster_repository_is_referred_to_without_a_namespace() {
    let r = cluster_repository_ref("shared");
    assert_eq!(r.name, "shared");
    assert!(r.namespace.is_none());
}
