use kopiur_controller::backend::{Backend, WorkloadIdentity, WorkloadIdentityCloud};
use kopiur_controller::error::Error;
use kopiur_controller::labels::{Labels, OwnerReference};
use kopiur_controller::names::{
    short_hash, snapshot_replication_mover_name, stream_mover_name, wi_rolebinding_name,
};
use kopiur_controller::rbac::{
    build_mover_rolebinding, build_mover_service_account, build_wi_rolebinding,
    ensure_mover_identity, ensure_server_identity, ensure_snapshot_replication_mover_identity,
    ensure_stream_mover_identity, federated_account, legacy_bootstrap_cleared, legacy_reap_step,
    missing_workload_identity_sa_message, namespace_allows_privileged_movers,
    namespace_allows_stream_exec, privileged_mover_message, stream_exec_not_allowed_message,
    LegacyJob, LegacyReapStep, MoverRunIdentity, NamespaceRead, AZURE_WORKLOAD_IDENTITY_LABEL,
    PRIVILEGED_MOVERS_ANNOTATION, STREAM_EXEC_ANNOTATION, WI_CONSUMER_SERVER,
};
use std::hash::{Hash, Hasher};

const REPO_UID: &str = "repo-uid-1234";

fn plain_backend() -> Backend {
    Backend {
        kind: "S3".to_string(),
        workload_identity: None,
        auth_secret: None,
        path: None,
        volume: None,
        settings: String::new(),
    }
}

fn federated(sa: &str, cloud: WorkloadIdentityCloud) -> Backend {
    Backend {
        workload_identity: Some(WorkloadIdentity { service_account_name: sa.to_string(), cloud }),
        ..plain_backend()
    }
}

fn ownref(uid: &str, controller: bool) -> OwnerReference {
    OwnerReference {
        uid: uid.to_string(),
        controller: if controller { Some(true) } else { None },
    }
}

fn job_with_refs(deleting: bool, refs: Vec<OwnerReference>) -> Option<LegacyJob> {
    Some(LegacyJob { owner_references: refs, deleting })
}

fn job(deleting: bool, owner_uids: &[&str]) -> Option<LegacyJob> {
    job_with_refs(deleting, owner_uids.iter().map(|uid| ownref(uid, true)).collect())
}

#[test]
fn mover_service_account_is_named_and_namespaced_and_managed() {
    let sa = build_mover_service_account("trilium", "kopiur-mover");
    assert_eq!(sa.metadata.name, "kopiur-mover");
    assert_eq!(sa.metadata.namespace, "trilium");
    let labels = sa.metadata.labels.expect("managed labels");
    assert_eq!(labels.get("app.kubernetes.io/managed-by").as_deref(), Some("kopiur"));
    assert_eq!(labels.get("app.kubernetes.io/component").as_deref(), Some("mover"));
}

#[test]
fn mover_rolebinding_binds_the_namespaced_sa_to_the_named_role() {
    let rb = build_mover_rolebinding("trilium", "kopiur-mover", "ClusterRole", "kopiur-mover");
    assert_eq!(rb.metadata.namespace, "trilium");
    assert_eq!(rb.role_ref.api_group, "rbac.authorization.k8s.io");
    assert_eq!(rb.role_ref.kind, "ClusterRole");
    assert_eq!(rb.role_ref.name, "kopiur-mover");
    let subjects = rb.subjects;
    assert_eq!(subjects.len(), 1);
    assert_eq!(subjects[0].kind, "ServiceAccount");
    assert_eq!(subjects[0].name, "kopiur-mover");
    assert_eq!(subjects[0].namespace.as_deref(), Some("trilium"));
}

#[test]
fn mover_rolebinding_uses_role_kind_for_namespaced_install() {
    let rb = build_mover_rolebinding("apps", "kopiur-mover", "Role", "kopiur-mover");
    assert_eq!(rb.role_ref.kind, "Role");
}

#[test]
fn wi_rolebinding_binds_the_user_sa_under_a_distinct_name() {
    let rb = build_wi_rolebinding("trilium", "backup-mover", "ClusterRole", "kopiur-mover");
    assert_eq!(rb.metadata.name, "kopiur-mover-wi-backup-mover");
    assert_eq!(rb.metadata.namespace, "trilium");
    assert_eq!(rb.role_ref.name, "kopiur-mover");
    let subjects = rb.subjects;
    assert_eq!(subjects.len(), 1);
    assert_eq!(subjects[0].name, "backup-mover");
    assert_eq!(subjects[0].namespace.as_deref(), Some("trilium"));
}

#[test]
fn wi_rolebinding_name_truncates_long_sa_names_with_a_stable_hash() {
    let long_sa = "a".repeat(260);
    let name = wi_rolebinding_name(&long_sa);
    assert!(name.len() <= 253, "got {} chars", name.len());
    assert!(name.starts_with("kopiur-mover-wi-a"));
    assert_eq!(name, wi_rolebinding_name(&long_sa));
    assert_ne!(name, wi_rolebinding_name(&format!("{}b", "a".repeat(259))));
}

#[test]
fn the_short_hash_is_that_of_a_text_under_the_default_hasher() {
    for text in ["", "backup-mover", "é"] {
        let mut hasher = std::collections::hash_map::DefaultHasher::new();
        text.hash(&mut hasher);
        assert_eq!(
            short_hash(text),
            format!("{:08x}", hasher.finish() & 0xffff_ffff)
        );
    }
}

#[test]
fn snapshot_replication_mover_name_derives_from_the_generic_role() {
    assert_eq!(
        snapshot_replication_mover_name("kopiur-mover"),
        "kopiur-snapshot-replication-mover"
    );
    assert_eq!(
        snapshot_replication_mover_name("myrelease-kopiur-mover"),
        "myrelease-kopiur-snapshot-replication-mover"
    );
    assert_eq!(
        snapshot_replication_mover_name("custom-role"),
        "custom-role-snapshot-replication"
    );
}

#[test]
fn stream_mover_name_derives_from_the_generic_role() {
    assert_eq!(stream_mover_name("kopiur-mover"), "kopiur-stream-mover");
    assert_eq!(stream_mover_name("custom-role"), "custom-role-stream");
}

#[test]
fn derived_movers_of_different_roles_stay_apart() {
    let bases = ["a", "a-mover", "a-stream", "a-stream-mover", "a-snapshot-replication", "-mover"];
    for base in bases {
        for other in bases {
            assert_ne!(snapshot_replication_mover_name(base), stream_mover_name(other));
            let same = base == other;
            assert_eq!(stream_mover_name(base) == stream_mover_name(other), same);
            assert_eq!(
                snapshot_replication_mover_name(base) == snapshot_replication_mover_name(other),
                same
            );
        }
    }
}

#[test]
fn missing_wi_sa_message_is_actionable_per_cloud() {
    for (cloud, annotation) in [
        (WorkloadIdentityCloud::S3, "eks.amazonaws.com/role-arn"),
        (WorkloadIdentityCloud::Azure, "azure.workload.identity/client-id"),
        (WorkloadIdentityCloud::Gcs, "iam.gke.io/gcp-service-account"),
    ] {
        let msg =
            missing_workload_identity_sa_message("backup-mover", "trilium", cloud, "the mover Job");
        assert!(msg.contains("`backup-mover`"), "{msg}");
        assert!(msg.contains("`trilium`"), "{msg}");
        assert!(msg.contains("where the mover Job runs"), "{msg}");
        assert!(msg.contains("never creates"), "{msg}");
        assert!(msg.contains(annotation), "{msg}");

        let server_msg = missing_workload_identity_sa_message(
            "backup-mover",
            "trilium",
            cloud,
            WI_CONSUMER_SERVER,
        );
        assert!(
            server_msg.contains("where the kopia web-UI server (spec.server) runs"),
            "{server_msg}"
        );
    }
}

#[test]
fn mover_run_identity_decorates_the_azure_label_only_when_azure() {
    let azure = MoverRunIdentity {
        service_account: Some("backup-mover".to_string()),
        azure_workload_identity: true,
    };
    let mut labels = Labels::new();
    azure.decorate_labels(&mut labels);
    assert_eq!(labels.get(AZURE_WORKLOAD_IDENTITY_LABEL).as_deref(), Some("true"));

    let plain = MoverRunIdentity {
        service_account: Some("kopiur-mover".to_string()),
        azure_workload_identity: false,
    };
    let mut labels = Labels::new();
    plain.decorate_labels(&mut labels);
    assert!(labels.is_empty());
}

#[test]
fn privileged_mover_message_is_actionable() {
    let msg = privileged_mover_message("SnapshotPolicy", "trilium-rain", "trilium", "kopiur-mover");
    assert!(msg.contains("SnapshotPolicy `trilium-rain`"));
    assert!(msg.contains("`trilium`"));
    assert!(msg.contains("kopiur-mover"));
    assert!(msg.contains("reuse"));
    assert!(msg.contains("kubectl annotate namespace trilium"));
    assert!(msg.contains(PRIVILEGED_MOVERS_ANNOTATION));
    assert!(msg.contains("=true"));
    assert!(msg.contains("securityContext"));
    assert!(msg.contains("from the SnapshotPolicy `spec.mover`"));
}

#[test]
fn privileged_mover_message_names_restore_kind() {
    let msg = privileged_mover_message("Restore", "pg-restore", "billing", "kopiur-mover");
    assert!(msg.contains("Restore `pg-restore`"));
    assert!(msg.contains("from the Restore `spec.mover`"));
    assert!(msg.contains("kubectl annotate namespace billing"));
}

#[test]
fn stream_exec_message_names_the_annotation() {
    let msg = stream_exec_not_allowed_message("SnapshotPolicy", "pg", "db", "kopiur-stream-mover");
    assert!(msg.starts_with("SnapshotPolicy `pg` uses a `stream` source"));
    assert!(msg.contains(&format!(
        "kubectl annotate namespace db {STREAM_EXEC_ANNOTATION}=true"
    )));
    assert!(msg.contains("`kopiur-stream-mover` ServiceAccount"));
}

#[test]
fn visible_legacy_job_starts_a_foreground_delete() {
    assert_eq!(
        legacy_reap_step(&job(false, &[REPO_UID]), REPO_UID),
        LegacyReapStep::StartDelete
    );
}

#[test]
fn deleting_legacy_job_keeps_waiting_until_fully_gone() {
    assert_eq!(
        legacy_reap_step(&job(true, &[REPO_UID]), REPO_UID),
        LegacyReapStep::AwaitGone
    );
}

#[test]
fn absent_legacy_job_clears_the_successor_to_launch() {
    assert_eq!(legacy_reap_step(&None, REPO_UID), LegacyReapStep::Clear);
}

#[test]
fn name_colliding_foreign_job_is_left_alone_and_does_not_block() {
    assert_eq!(legacy_reap_step(&job(false, &[]), REPO_UID), LegacyReapStep::Clear);
    assert_eq!(
        legacy_reap_step(&job(false, &["some-other-owner"]), REPO_UID),
        LegacyReapStep::Clear
    );
}

#[test]
fn non_controller_owner_reference_does_not_count_as_ours() {
    assert_eq!(
        legacy_reap_step(&job_with_refs(false, vec![ownref(REPO_UID, false)]), REPO_UID),
        LegacyReapStep::Clear
    );
}

#[test]
fn ownership_matches_any_owner_reference_with_the_repo_uid() {
    assert_eq!(
        legacy_reap_step(
            &job_with_refs(
                false,
                vec![ownref("unrelated", false), ownref(REPO_UID, true)]
            ),
            REPO_UID
        ),
        LegacyReapStep::StartDelete
    );
}

#[test]
fn only_a_cleared_legacy_job_lets_the_successor_launch() {
    assert!(legacy_bootstrap_cleared(LegacyReapStep::Clear));
    assert!(!legacy_bootstrap_cleared(LegacyReapStep::StartDelete));
    assert!(!legacy_bootstrap_cleared(LegacyReapStep::AwaitGone));
}

#[test]
fn a_mover_without_federation_runs_as_the_minted_account() {
    let backends = vec![plain_backend()];
    assert_eq!(federated_account(&backends), None);
    let grant = ensure_mover_identity(
        "apps",
        &backends,
        Some("kopiur-mover"),
        "ClusterRole",
        "kopiur-mover",
        false,
    )
    .unwrap();
    assert_eq!(grant.identity.service_account.as_deref(), Some("kopiur-mover"));
    assert!(!grant.identity.azure_workload_identity);
    assert_eq!(grant.service_account.unwrap().metadata.namespace, "apps");
    assert_eq!(grant.role_binding.unwrap().metadata.name, "kopiur-mover");
}

#[test]
fn a_mover_without_any_account_is_granted_nothing() {
    let grant =
        ensure_mover_identity("apps", &vec![plain_backend()], None, "Role", "r", false).unwrap();
    assert!(grant.identity.service_account.is_none());
    assert!(grant.service_account.is_none());
    assert!(grant.role_binding.is_none());
}

#[test]
fn a_federated_mover_runs_as_the_first_account_and_azure_counts_anywhere() {
    let backends = vec![
        plain_backend(),
        federated("first", WorkloadIdentityCloud::S3),
        federated("second", WorkloadIdentityCloud::Azure),
    ];
    assert_eq!(federated_account(&backends).as_deref(), Some("first"));
    let grant = ensure_mover_identity(
        "apps",
        &backends,
        Some("kopiur-mover"),
        "ClusterRole",
        "kopiur-mover",
        true,
    )
    .unwrap();
    assert_eq!(grant.identity.service_account.as_deref(), Some("first"));
    assert!(grant.identity.azure_workload_identity);
    assert!(grant.service_account.is_none(), "the user's account is never applied");
    assert_eq!(
        grant.role_binding.unwrap().metadata.name,
        "kopiur-mover-wi-first"
    );
}

#[test]
fn a_federated_account_that_is_missing_is_told() {
    let backends = vec![federated("first", WorkloadIdentityCloud::Gcs)];
    let result = ensure_mover_identity("apps", &backends, None, "Role", "r", false);
    match result {
        Err(Error::MissingDependency(msg)) => assert!(msg.contains("`first`")),
        _ => panic!("expected a missing dependency"),
    }
}

#[test]
fn dedicated_movers_are_bound_to_their_own_role_under_their_own_prefix() {
    let plain = vec![plain_backend()];
    let grant =
        ensure_snapshot_replication_mover_identity("apps", &plain, "kopiur-mover", "Role", false)
            .unwrap();
    assert_eq!(
        grant.identity.service_account.as_deref(),
        Some("kopiur-snapshot-replication-mover")
    );
    assert_eq!(
        grant.role_binding.unwrap().role_ref.name,
        "kopiur-snapshot-replication-mover"
    );

    let wi = vec![federated("user", WorkloadIdentityCloud::Azure)];
    let grant =
        ensure_snapshot_replication_mover_identity("apps", &wi, "kopiur-mover", "Role", true)
            .unwrap();
    let rb = grant.role_binding.unwrap();
    assert_eq!(rb.metadata.name, "kopiur-srepl-mover-wi-user");
    assert_eq!(rb.role_ref.name, "kopiur-snapshot-replication-mover");

    let grant = ensure_stream_mover_identity("apps", &wi, "kopiur-mover", "Role", true).unwrap();
    let rb = grant.role_binding.unwrap();
    assert_eq!(rb.metadata.name, "kopiur-stream-mover-wi-user");
    assert_eq!(rb.role_ref.name, "kopiur-stream-mover");
    assert!(ensure_stream_mover_identity("apps", &wi, "kopiur-mover", "Role", false).is_err());
}

#[test]
fn a_server_is_bound_to_no_role() {
    let grant = ensure_server_identity("ui", &plain_backend(), Some("kopiur-mover"), false).unwrap();
    assert!(grant.role_binding.is_none());
    assert_eq!(grant.service_account.unwrap().metadata.name, "kopiur-mover");

    let wi = federated("user", WorkloadIdentityCloud::Azure);
    let grant = ensure_server_identity("ui", &wi, Some("kopiur-mover"), true).unwrap();
    assert!(grant.role_binding.is_none());
    assert!(grant.identity.azure_workload_identity);
    match ensure_server_identity("ui", &wi, None, false) {
        Err(Error::MissingDependency(msg)) => {
            assert!(msg.contains("the kopia web-UI server (spec.server)"))
        }
        _ => panic!("expected a missing dependency"),
    }
}

#[test]
fn a_namespace_opts_in_by_the_word_true() {
    let annotated = |key: &str, value: &str| {
        let mut l = Labels::new();
        l.insert(key, value);
        NamespaceRead::Annotations(l)
    };
    let allows = |read: &NamespaceRead| namespace_allows_privileged_movers(read).unwrap();
    assert!(allows(&annotated(PRIVILEGED_MOVERS_ANNOTATION, "true")));
    assert!(!allows(&annotated(PRIVILEGED_MOVERS_ANNOTATION, "True")));
    assert!(!allows(&annotated(STREAM_EXEC_ANNOTATION, "true")));
    assert!(!allows(&NamespaceRead::Annotations(Labels::new())));
    assert!(allows(&NamespaceRead::Forbidden));
    assert!(namespace_allows_stream_exec(&annotated(STREAM_EXEC_ANNOTATION, "true")).unwrap());
    match namespace_allows_stream_exec(&NamespaceRead::Failed("timeout".to_string())) {
        Err(Error::Kube(why)) => assert_eq!(why, "timeout"),
        _ => panic!("a failed read comes out"),
    }
}
