use kopiur_controller::error::Error;
use kopiur_controller::inherit::{
    extract_inherited_contexts, inherited_security_context_from_pods,
    pvc_consumer_security_context_from_pods, InheritSource,
};
use kopiur_controller::mover_security::{
    cache_pvc_created, consumed_claim, ensure_cache_pvc, pods_to_list,
    resolve_mover_security_contexts, resolved_from_recorded, workload_query, CreateOutcome,
    InheritOutcome, InheritSecurityContextFrom, MoverSpec, PodQuery, PodsRead,
    RecordedSnapshotMeta, RecordedSrc, SnapshotRecordedSource,
};
use kopiur_controller::pods::{
    classify_wedged_pods, Container, ContainerStatus, Pod, PodCondition, PodStatus, Volume, Waiting,
    WedgedVerdict,
};
use kopiur_controller::security::{
    effective_run_as_group, effective_run_as_user, merge_context_pair, PodSecurityContext,
    SecurityContext, MOVER_NONROOT_ID,
};
use kopiur_controller::selector::{
    label_selector_to_string, LabelSelector, LabelSelectorRequirement,
};

fn sc() -> SecurityContext {
    SecurityContext::new()
}

fn psc() -> PodSecurityContext {
    PodSecurityContext::new()
}

fn sc_user(uid: i64) -> SecurityContext {
    SecurityContext { run_as_user: Some(uid), ..sc() }
}

fn bare_pod() -> Pod {
    Pod {
        name: None,
        generate_name: None,
        namespace: None,
        managed_by: None,
        created: None,
        containers: vec![],
        volumes: vec![],
        security_context: None,
        status: None,
    }
}

fn status() -> PodStatus {
    PodStatus {
        phase: None,
        init_container_statuses: vec![],
        container_statuses: vec![],
        conditions: vec![],
    }
}

fn waiting_pod(reason: &str, created_unix: i64) -> Pod {
    Pod {
        created: Some(created_unix),
        status: Some(PodStatus {
            container_statuses: vec![ContainerStatus {
                name: "mover".to_string(),
                waiting: Some(Waiting {
                    reason: Some(reason.to_string()),
                    message: Some("a kubelet detail".to_string()),
                }),
            }],
            ..status()
        }),
        ..bare_pod()
    }
}

fn unschedulable_pod(created_unix: i64) -> Pod {
    Pod {
        created: Some(created_unix),
        status: Some(PodStatus {
            conditions: vec![PodCondition {
                type_: "PodScheduled".to_string(),
                status: "False".to_string(),
                reason: Some("Unschedulable".to_string()),
                message: Some("0/6 nodes are available".to_string()),
            }],
            ..status()
        }),
        ..bare_pod()
    }
}

#[test]
fn create_container_config_error_past_grace_is_wedged() {
    let pods = vec![waiting_pod("CreateContainerConfigError", 0)];
    match classify_wedged_pods(&pods, 300, 600) {
        WedgedVerdict::Wedged { reason, message } => {
            assert_eq!(reason, "CreateContainerConfigError");
            assert!(message.contains("mover"), "message names the container");
        }
        other => panic!("expected Wedged, got {other:?}"),
    }
}

#[test]
fn within_grace_is_not_yet_failed() {
    let pods = vec![waiting_pod("CreateContainerConfigError", 540)];
    assert_eq!(
        classify_wedged_pods(&pods, 300, 600),
        WedgedVerdict::Within { reason: "CreateContainerConfigError".to_string() }
    );
}

#[test]
fn image_pull_backoff_and_unschedulable_are_wedge_reasons() {
    assert!(matches!(
        classify_wedged_pods(&vec![waiting_pod("ImagePullBackOff", 0)], 300, 600),
        WedgedVerdict::Wedged { .. }
    ));
    assert!(matches!(
        classify_wedged_pods(&vec![unschedulable_pod(0)], 300, 600),
        WedgedVerdict::Wedged { reason, .. } if reason == "Unschedulable"
    ));
}

#[test]
fn a_normal_starting_pod_is_progressing() {
    let pods = vec![waiting_pod("ContainerCreating", 0)];
    assert_eq!(classify_wedged_pods(&pods, 300, 600), WedgedVerdict::Progressing);
    assert_eq!(classify_wedged_pods(&vec![], 300, 600), WedgedVerdict::Progressing);
}

#[test]
fn the_grace_window_has_to_be_exceeded() {
    let pods = vec![waiting_pod("CreateContainerConfigError", 300)];
    assert_eq!(
        classify_wedged_pods(&pods, 300, 600),
        WedgedVerdict::Within { reason: "CreateContainerConfigError".to_string() }
    );
    assert!(matches!(classify_wedged_pods(&pods, 300, 601), WedgedVerdict::Wedged { .. }));
}

#[test]
fn a_wedge_is_worded_with_its_detail() {
    match classify_wedged_pods(&vec![waiting_pod("ErrImagePull", 0)], 300, 301) {
        WedgedVerdict::Wedged { message, .. } => {
            assert_eq!(message, "container `mover`: ErrImagePull — a kubelet detail")
        }
        other => panic!("expected Wedged, got {other:?}"),
    }
    let mut quiet = waiting_pod("ErrImagePull", 0);
    quiet.status.as_mut().unwrap().container_statuses[0]
        .waiting
        .as_mut()
        .unwrap()
        .message = None;
    match classify_wedged_pods(&vec![quiet], 300, 301) {
        WedgedVerdict::Wedged { message, .. } => {
            assert_eq!(message, "container `mover`: ErrImagePull")
        }
        other => panic!("expected Wedged, got {other:?}"),
    }
}

#[test]
fn the_first_pod_past_grace_decides_and_the_first_stuck_one_is_told() {
    let pods = vec![
        waiting_pod("ErrImagePull", 590),
        waiting_pod("InvalidImageName", 580),
        waiting_pod("RunContainerError", 0),
    ];
    assert!(matches!(
        classify_wedged_pods(&pods, 300, 600),
        WedgedVerdict::Wedged { reason, .. } if reason == "RunContainerError"
    ));
    assert_eq!(
        classify_wedged_pods(&pods, 1000, 600),
        WedgedVerdict::Within { reason: "ErrImagePull".to_string() }
    );
}

#[test]
fn a_pod_without_a_creation_time_counts_as_new() {
    let mut pod = waiting_pod("ErrImagePull", 0);
    pod.created = None;
    assert_eq!(
        classify_wedged_pods(&vec![pod], 300, 600),
        WedgedVerdict::Within { reason: "ErrImagePull".to_string() }
    );
}

#[test]
fn label_selector_to_string_covers_labels_and_expressions() {
    let requirement = |key: &str, operator: &str, values: &[&str]| LabelSelectorRequirement {
        key: key.to_string(),
        operator: operator.to_string(),
        values: values.iter().map(|v| v.to_string()).collect(),
    };
    let sel = LabelSelector {
        match_labels: vec![
            ("app".to_string(), "postgres".to_string()),
            ("tier".to_string(), "db".to_string()),
        ],
        match_expressions: vec![
            requirement("role", "In", &["primary", "replica"]),
            requirement("canary", "DoesNotExist", &[]),
            requirement("env", "NotIn", &["dev"]),
            requirement("managed", "Exists", &[]),
        ],
    };
    assert_eq!(
        label_selector_to_string(&sel),
        "app=postgres,tier=db,role in (primary,replica),!canary,env notin (dev),managed"
    );
    assert_eq!(
        label_selector_to_string(&LabelSelector {
            match_labels: vec![],
            match_expressions: vec![]
        }),
        ""
    );
}

#[test]
fn an_unknown_selector_operator_is_left_out() {
    let sel = LabelSelector {
        match_labels: vec![("app".to_string(), "x".to_string())],
        match_expressions: vec![LabelSelectorRequirement {
            key: "k".to_string(),
            operator: "Gt".to_string(),
            values: vec!["1".to_string()],
        }],
    };
    assert_eq!(label_selector_to_string(&sel), "app=x");
}

fn pod_with(
    phase: Option<&str>,
    containers: &[(&str, Option<i64>)],
    pod_fs_group: Option<i64>,
) -> Pod {
    Pod {
        containers: containers
            .iter()
            .map(|(name, uid)| Container {
                name: (*name).to_string(),
                security_context: uid.map(sc_user),
                volume_mounts: vec![],
            })
            .collect(),
        security_context: pod_fs_group.map(|g| PodSecurityContext { fs_group: Some(g), ..psc() }),
        status: phase.map(|p| PodStatus { phase: Some(p.to_string()), ..status() }),
        ..bare_pod()
    }
}

fn inherit(pods: Vec<Pod>, container: Option<&str>, ns: &str) -> Result<InheritSource, Error> {
    inherited_security_context_from_pods(&pods, container, ns, "app=x")
}

#[test]
fn inherit_picks_named_container_else_first() {
    let pod = || pod_with(Some("Running"), &[("sidecar", Some(101)), ("app", Some(1000))], None);
    let (csc, _) = inherit(vec![pod()], Some("app"), "ns").unwrap().contexts;
    assert_eq!(csc.unwrap().run_as_user, Some(1000));
    let (csc, _) = inherit(vec![pod()], None, "ns").unwrap().contexts;
    assert_eq!(csc.unwrap().run_as_user, Some(101));
}

#[test]
fn inherit_copies_both_container_and_pod_security_context() {
    let pod = pod_with(Some("Running"), &[("app", Some(1000))], Some(1000));
    let (csc, psc) = inherit(vec![pod], Some("app"), "ns").unwrap().contexts;
    assert_eq!(csc.unwrap().run_as_user, Some(1000));
    assert_eq!(psc.unwrap().fs_group, Some(1000));

    let pod = pod_with(Some("Running"), &[("app", None)], Some(2000));
    let (csc, psc) = inherit(vec![pod], Some("app"), "ns").unwrap().contexts;
    assert!(csc.is_none());
    assert_eq!(psc.unwrap().fs_group, Some(2000));
}

#[test]
fn inherit_reports_the_pod_and_container_it_read() {
    let mut pod = pod_with(Some("Running"), &[("sidecar", Some(101)), ("app", Some(1000))], None);
    pod.name = Some("app-7c9d8f5b6-h2k4p".to_string());
    let src = inherit(vec![pod], Some("app"), "ns").unwrap();
    assert_eq!(src.pod, "app-7c9d8f5b6-h2k4p");
    assert_eq!(src.container.as_deref(), Some("app"));
    assert_eq!(src.uid(), Some(1000));
}

#[test]
fn inherit_from_a_uidless_workload_pins_no_uid() {
    let mut pod = pod_with(Some("Running"), &[("app", None)], Some(65532));
    pod.containers[0].security_context =
        Some(SecurityContext { allow_privilege_escalation: Some(false), ..sc() });
    let src = inherit(vec![pod], Some("app"), "ns").unwrap();
    assert!(
        src.contexts.0.is_some(),
        "the container block exists, so the extractor accepts it — that is the trap"
    );
    assert_eq!(
        src.uid(),
        None,
        "inheriting pinned no UID: the mover would run as its own image's 65532"
    );
}

#[test]
fn inherit_uid_follows_kubelet_precedence() {
    let mut pod = pod_with(Some("Running"), &[("app", Some(1000))], None);
    pod.security_context = Some(PodSecurityContext { run_as_user: Some(2000), ..psc() });
    let src = inherit(vec![pod], Some("app"), "ns").unwrap();
    assert_eq!(src.uid(), Some(1000), "container-level runAsUser wins");

    let mut pod = pod_with(Some("Running"), &[("app", None)], None);
    pod.security_context = Some(PodSecurityContext { run_as_user: Some(568), ..psc() });
    let src = inherit(vec![pod], Some("app"), "ns").unwrap();
    assert_eq!(src.uid(), Some(568), "pod-level runAsUser is the fallback");
}

fn recipe() -> MoverSpec {
    MoverSpec {
        security_context: None,
        pod_security_context: None,
        inherit_security_context_from: None,
    }
}

fn merge_explicit_over_inherited(
    inherited: (Option<SecurityContext>, Option<PodSecurityContext>),
    explicit: &MoverSpec,
) -> (Option<SecurityContext>, Option<PodSecurityContext>) {
    merge_context_pair(
        &inherited.0,
        &inherited.1,
        &explicit.security_context,
        &explicit.pod_security_context,
    )
}

#[test]
fn explicit_pod_level_uid_displaces_an_inherited_container_level_uid() {
    let inherited = (Some(sc_user(1000)), None);
    let explicit = MoverSpec {
        pod_security_context: Some(PodSecurityContext { run_as_user: Some(2000), ..psc() }),
        ..recipe()
    };
    let (sc, psc) = merge_explicit_over_inherited(inherited, &explicit);
    assert_eq!(
        effective_run_as_user(&sc, &psc),
        Some(2000),
        "the explicit pod-level uid is the higher layer and must win"
    );
}

#[test]
fn explicit_security_context_overrides_the_inherited_one() {
    let inherited = (
        Some(SecurityContext {
            run_as_user: Some(1000),
            run_as_group: Some(1000),
            ..sc()
        }),
        Some(PodSecurityContext { fs_group: Some(1000), ..psc() }),
    );
    let explicit = MoverSpec { security_context: Some(sc_user(2000)), ..recipe() };
    let (sc, psc) = merge_explicit_over_inherited(inherited, &explicit);
    assert_eq!(
        sc.as_ref().unwrap().run_as_user,
        Some(2000),
        "the explicit runAsUser must win — it is the higher layer"
    );
    assert_eq!(
        sc.unwrap().run_as_group,
        Some(1000),
        "runAsGroup was not written, so the inherited value fills it"
    );
    assert_eq!(
        psc.unwrap().fs_group,
        Some(1000),
        "the pod context is inherited wholesale when the recipe is silent"
    );
}

#[test]
fn inherited_values_fill_what_the_recipe_leaves_blank() {
    let inherited = (
        Some(sc_user(1000)),
        Some(PodSecurityContext {
            fs_group: Some(1000),
            supplemental_groups: Some(vec![3001]),
            ..psc()
        }),
    );
    let explicit = MoverSpec {
        pod_security_context: Some(PodSecurityContext { fs_group: Some(2500), ..psc() }),
        ..recipe()
    };
    let (sc, psc) = merge_explicit_over_inherited(inherited, &explicit);
    assert_eq!(
        sc.unwrap().run_as_user,
        Some(1000),
        "the inherited UID survives — the recipe never mentioned it"
    );
    let psc = psc.unwrap();
    assert_eq!(psc.fs_group, Some(2500), "the explicit fsGroup wins");
    assert_eq!(
        psc.supplemental_groups,
        Some(vec![3001]),
        "an unmentioned pod field keeps its inherited value (NFS shared-group recipe)"
    );
}

#[test]
fn explicit_context_stands_alone_when_nothing_was_inherited() {
    let explicit = MoverSpec { security_context: Some(sc_user(1000)), ..recipe() };
    let (sc, psc) = merge_explicit_over_inherited((None, None), &explicit);
    assert_eq!(sc.unwrap().run_as_user, Some(1000));
    assert!(psc.is_none());
}

#[test]
fn three_layers_merge_alike_in_either_order() {
    let a = (Some(sc_user(1)), Some(PodSecurityContext { fs_group: Some(7), ..psc() }));
    let b = (None, Some(PodSecurityContext { run_as_user: Some(2), ..psc() }));
    let c = (
        Some(SecurityContext { run_as_non_root: Some(true), ..sc() }),
        None,
    );
    let ab = merge_context_pair(&a.0, &a.1, &b.0, &b.1);
    let left = merge_context_pair(&ab.0, &ab.1, &c.0, &c.1);
    let bc = merge_context_pair(&b.0, &b.1, &c.0, &c.1);
    let right = merge_context_pair(&a.0, &a.1, &bc.0, &bc.1);
    assert_eq!(left, right);
    assert_eq!(effective_run_as_user(&left.0, &left.1), Some(2));
}

#[test]
fn inherit_prefers_a_running_pod() {
    let pending = pod_with(Some("Pending"), &[("app", Some(5))], None);
    let running = pod_with(Some("Running"), &[("app", Some(1000))], None);
    let (csc, _) = inherit(vec![pending, running], Some("app"), "ns").unwrap().contexts;
    assert_eq!(csc.unwrap().run_as_user, Some(1000));
}

fn text(r: Result<InheritSource, Error>) -> String {
    match r {
        Ok(_) => panic!("expected an error"),
        Err(e) => e.message(),
    }
}

#[test]
fn inherit_errors_are_actionable() {
    let msg = text(inherit(vec![], Some("app"), "billing"));
    assert!(msg.contains("no pod matches"), "what: {msg}");
    assert!(
        msg.contains("billing") && msg.contains("app=x"),
        "where — the namespace and the selector that found nothing: {msg}"
    );
    assert!(
        msg.contains("Scale it up") && msg.contains("podSelector.matchLabels"),
        "fix — the two things that actually resolve it: {msg}"
    );
    assert!(
        msg.contains("mover.securityContext.runAsUser") && msg.contains("fallback"),
        "fix — and the fallback: {msg}"
    );

    let pod = pod_with(Some("Running"), &[("app", Some(1000))], None);
    let msg = text(inherit(vec![pod], Some("nope"), "billing"));
    assert!(msg.contains("no container `nope`"), "what + where: {msg}");
    assert!(
        msg.contains("inheritSecurityContextFrom.container"),
        "fix — name the field to correct: {msg}"
    );

    let bare = pod_with(Some("Running"), &[("app", None)], None);
    let msg = text(inherit(vec![bare], Some("app"), "billing"));
    assert!(msg.contains("sets no securityContext"), "what: {msg}");
    assert!(
        msg.contains("comes from its container image"),
        "why — the non-obvious part: {msg}"
    );
    assert!(
        msg.contains("Set runAsUser on the workload")
            && msg.contains("mover.securityContext.runAsUser"),
        "fix — both remedies: {msg}"
    );
}

#[test]
fn pvc_consumer_error_names_the_claim_and_the_fallback() {
    let msg = text(pvc_consumer_security_context_from_pods(&vec![], "pgdata", "db", None));
    assert!(
        msg.contains("`pgdata`") && msg.contains("`db`"),
        "where — the claim and namespace: {msg}"
    );
    assert!(
        msg.contains("Scale the workload up"),
        "fix — the primary remedy: {msg}"
    );
    assert!(
        msg.contains("mover.securityContext.runAsUser") && msg.contains("fallback"),
        "fix — the fallback that avoids the hold entirely: {msg}"
    );
}

fn pod_mounting(
    name: &str,
    ns: &str,
    phase: Option<&str>,
    uid: Option<i64>,
    claim: &str,
    kopiur_managed: bool,
) -> Pod {
    Pod {
        name: Some(name.to_string()),
        namespace: Some(ns.to_string()),
        managed_by: if kopiur_managed { Some("kopiur".to_string()) } else { None },
        volumes: vec![Volume { name: "data".to_string(), claim: Some(claim.to_string()) }],
        ..pod_with(phase, &[("app", uid)], None)
    }
}

#[test]
fn pvc_consumer_inherits_from_the_mounting_workload() {
    let workload = pod_mounting("pg-0", "db", Some("Running"), Some(999), "pgdata", false);
    let (csc, _) = pvc_consumer_security_context_from_pods(&vec![workload], "pgdata", "db", None)
        .unwrap()
        .contexts;
    assert_eq!(csc.unwrap().run_as_user, Some(999));
}

#[test]
fn pvc_consumer_excludes_the_kopiur_mover_pod() {
    let mover =
        || pod_mounting("mover-xyz", "db", Some("Running"), Some(65532), "pgdata", true);
    let workload = pod_mounting("pg-0", "db", Some("Running"), Some(999), "pgdata", false);
    let (csc, _) =
        pvc_consumer_security_context_from_pods(&vec![mover(), workload], "pgdata", "db", None)
            .unwrap()
            .contexts;
    assert_eq!(csc.unwrap().run_as_user, Some(999));

    let msg = text(pvc_consumer_security_context_from_pods(
        &vec![mover()],
        "pgdata",
        "db",
        None,
    ));
    assert!(msg.contains("no running workload pod mounts") && msg.contains("pgdata"));
}

#[test]
fn pvc_consumer_pick_is_deterministic() {
    let a = || pod_mounting("a-pod", "ns", Some("Running"), Some(1000), "data", false);
    let b = || pod_mounting("b-pod", "ns", Some("Running"), Some(2000), "data", false);
    let (csc_fwd, _) =
        pvc_consumer_security_context_from_pods(&vec![a(), b()], "data", "ns", None)
            .unwrap()
            .contexts;
    let (csc_rev, _) =
        pvc_consumer_security_context_from_pods(&vec![b(), a()], "data", "ns", None)
            .unwrap()
            .contexts;
    assert_eq!(csc_fwd.unwrap().run_as_user, Some(1000));
    assert_eq!(csc_rev.unwrap().run_as_user, Some(1000));
}

#[test]
fn pvc_consumer_prefers_running_over_pending() {
    let pending = pod_mounting("a-pod", "ns", Some("Pending"), Some(5), "data", false);
    let running = pod_mounting("z-pod", "ns", Some("Running"), Some(1000), "data", false);
    let (csc, _) =
        pvc_consumer_security_context_from_pods(&vec![pending, running], "data", "ns", None)
            .unwrap()
            .contexts;
    assert_eq!(
        csc.unwrap().run_as_user,
        Some(1000),
        "a Running consumer beats a Pending one even with a larger (ns,name)"
    );
}

#[test]
fn pins_identity_is_true_for_a_uid() {
    let pod = pod_with(Some("Running"), &[("app", Some(1000))], None);
    assert!(inherit(vec![pod], Some("app"), "ns").unwrap().pins_identity());
}

#[test]
fn pins_identity_is_true_for_groups_alone() {
    let mut pod = pod_with(Some("Running"), &[("app", None)], None);
    pod.containers[0].security_context =
        Some(SecurityContext { run_as_group: Some(1000), ..sc() });
    let src = inherit(vec![pod], Some("app"), "ns").unwrap();
    assert_eq!(src.uid(), None, "no UID was pinned");
    assert!(src.pins_identity(), "but a group WAS — inheriting was not a no-op");

    let mut pod = pod_with(Some("Running"), &[("app", None)], Some(2500));
    pod.containers[0].security_context = Some(sc());
    let src = inherit(vec![pod], Some("app"), "ns").unwrap();
    assert!(src.pins_identity(), "fsGroup is an identity worth inheriting");

    let mut pod = pod_with(Some("Running"), &[("app", None)], None);
    pod.containers[0].security_context = Some(sc());
    pod.security_context =
        Some(PodSecurityContext { supplemental_groups: Some(vec![3001]), ..psc() });
    assert!(inherit(vec![pod], Some("app"), "ns").unwrap().pins_identity());
}

#[test]
fn pins_identity_is_false_when_the_workload_pins_nothing() {
    let mut pod = pod_with(Some("Running"), &[("app", None)], None);
    pod.containers[0].security_context = Some(SecurityContext {
        allow_privilege_escalation: Some(false),
        read_only_root_filesystem: Some(true),
        ..sc()
    });
    let src = inherit(vec![pod], Some("app"), "ns").unwrap();
    assert_eq!(src.uid(), None);
    assert!(
        !src.pins_identity(),
        "no UID and no group: inheriting copied nothing the mover can act on"
    );
}

#[test]
fn pins_identity_is_false_for_a_group_the_hardened_default_already_gives() {
    let pod_of = |group: i64| {
        let mut pod = pod_with(Some("Running"), &[("app", None)], None);
        pod.containers[0].security_context = Some(sc());
        pod.security_context = Some(PodSecurityContext { fs_group: Some(group), ..psc() });
        pod
    };
    let src = inherit(vec![pod_of(MOVER_NONROOT_ID)], Some("app"), "ns").unwrap();
    assert_eq!(src.uid(), None);
    assert!(
        !src.pins_identity(),
        "fsGroup 65532 is what the hardened default already gives"
    );
    let src = inherit(vec![pod_of(1000)], Some("app"), "ns").unwrap();
    assert!(src.pins_identity());
}

#[test]
fn a_context_pinning_a_uid_is_a_usable_fallback() {
    assert!(effective_run_as_user(&Some(sc_user(1000)), &None).is_some());
}

#[test]
fn a_context_pinning_no_identity_is_not_a_fallback() {
    let hardened = SecurityContext { allow_privilege_escalation: Some(false), ..sc() };
    assert!(
        effective_run_as_user(&Some(hardened), &None).is_none(),
        "seccomp/caps pin no identity — not a fallback"
    );
    let groups = PodSecurityContext { fs_group: Some(2500), ..psc() };
    assert!(effective_run_as_user(&None, &Some(groups)).is_none());
    let user = PodSecurityContext { run_as_user: Some(568), ..psc() };
    assert_eq!(effective_run_as_user(&None, &Some(user)), Some(568));
}

#[test]
fn pvc_consumer_inherits_the_container_that_mounts_the_claim_not_the_first() {
    let pod = Pod {
        name: Some("app-7c9d8f5b6-h2k4p".to_string()),
        containers: vec![
            Container {
                name: "istio-proxy".to_string(),
                security_context: Some(sc_user(1337)),
                volume_mounts: vec![],
            },
            Container {
                name: "app".to_string(),
                security_context: Some(sc_user(1000)),
                volume_mounts: vec!["data".to_string()],
            },
        ],
        volumes: vec![Volume { name: "data".to_string(), claim: Some("app-data".to_string()) }],
        status: Some(PodStatus { phase: Some("Running".to_string()), ..status() }),
        ..bare_pod()
    };
    let src =
        pvc_consumer_security_context_from_pods(&vec![pod], "app-data", "app", None).unwrap();
    assert_eq!(
        src.container.as_deref(),
        Some("app"),
        "must pick the container that mounts the claim, not the injected first one"
    );
    assert_eq!(src.uid(), Some(1000), "and inherit the app's UID, not 1337");
}

#[test]
fn two_mounting_containers_leave_the_first_one() {
    let mounting = |name: &str, uid: i64| Container {
        name: name.to_string(),
        security_context: Some(sc_user(uid)),
        volume_mounts: vec!["data".to_string()],
    };
    let pod = Pod {
        generate_name: Some("app-".to_string()),
        containers: vec![
            Container {
                name: "proxy".to_string(),
                security_context: Some(sc_user(7)),
                volume_mounts: vec![],
            },
            mounting("one", 1),
            mounting("two", 2),
        ],
        volumes: vec![Volume { name: "data".to_string(), claim: Some("c".to_string()) }],
        ..bare_pod()
    };
    let src = extract_inherited_contexts(&pod, None, Some("c"), "ns").unwrap();
    assert_eq!(src.container.as_deref(), Some("proxy"));
    assert_eq!(src.pod, "app-");
}

fn meta(
    uid: Option<i64>,
    gid: Option<i64>,
    fs: Option<i64>,
    src: RecordedSrc,
) -> RecordedSnapshotMeta {
    RecordedSnapshotMeta { src, uid, gid, fs_group: fs }
}

#[test]
fn recorded_identity_synthesizes_the_inherited_layer_and_outcome() {
    let r = resolved_from_recorded(
        &recipe(),
        "app/pg-b1",
        &meta(Some(3001), Some(3001), Some(2000), RecordedSrc::Inherited),
    );
    let (sc, psc) = &r.contexts;
    assert_eq!(effective_run_as_user(sc, psc), Some(3001));
    assert_eq!(effective_run_as_group(sc, psc), Some(3001));
    assert_eq!(psc.as_ref().and_then(|p| p.fs_group), Some(2000));
    assert_eq!(
        r.outcome,
        InheritOutcome::InheritedFromSnapshot {
            snapshot: "app/pg-b1".to_string(),
            uid: Some(3001),
            src: RecordedSrc::Inherited,
        }
    );
    assert!(r.unfiltered_pods.is_none(), "no pod list on this path");
}

#[test]
fn explicit_context_is_the_higher_layer_over_the_recorded_one() {
    let m = MoverSpec {
        pod_security_context: Some(PodSecurityContext { run_as_user: Some(2000), ..psc() }),
        ..recipe()
    };
    let r = resolved_from_recorded(
        &m,
        "app/pg-b1",
        &meta(Some(3001), Some(3001), Some(3001), RecordedSrc::Explicit),
    );
    let (sc, psc) = &r.contexts;
    assert_eq!(
        effective_run_as_user(sc, psc),
        Some(2000),
        "the explicit uid is the higher layer"
    );
    assert_eq!(effective_run_as_group(sc, psc), Some(3001));
    assert_eq!(psc.as_ref().and_then(|p| p.fs_group), Some(3001));
    assert!(matches!(
        r.outcome,
        InheritOutcome::InheritedFromSnapshot { uid: Some(3001), .. }
    ));
}

#[test]
fn recorded_root_uid_reaches_the_contexts() {
    let r = resolved_from_recorded(
        &recipe(),
        "app/pg-b1",
        &meta(Some(0), None, None, RecordedSrc::Explicit),
    );
    assert_eq!(effective_run_as_user(&r.contexts.0, &r.contexts.1), Some(0));
}

#[test]
fn empty_record_contributes_nothing_and_invents_no_identity() {
    let r = resolved_from_recorded(
        &recipe(),
        "app/pg-b1",
        &meta(None, None, None, RecordedSrc::Defaults),
    );
    let (sc, psc) = &r.contexts;
    assert_eq!(effective_run_as_user(sc, psc), None);
    assert_eq!(psc.as_ref().and_then(|p| p.fs_group), None);
    assert!(matches!(
        r.outcome,
        InheritOutcome::InheritedFromSnapshot { uid: None, .. }
    ));
}

#[test]
fn contexts_match_a_hand_built_pair_merge() {
    let m = MoverSpec {
        security_context: Some(SecurityContext { run_as_non_root: Some(true), ..sc() }),
        ..recipe()
    };
    let rec = meta(Some(3001), None, Some(65532), RecordedSrc::Inherited);
    let r = resolved_from_recorded(&m, "app/pg-b1", &rec);
    let expected = merge_context_pair(
        &Some(sc_user(3001)),
        &Some(PodSecurityContext { fs_group: Some(65532), ..psc() }),
        &m.security_context,
        &m.pod_security_context,
    );
    assert_eq!(r.contexts, expected);
}

fn from_consumer(explicit: Option<SecurityContext>) -> Option<MoverSpec> {
    Some(MoverSpec {
        security_context: explicit,
        inherit_security_context_from: Some(InheritSecurityContextFrom::PvcConsumer {
            container: None,
        }),
        ..recipe()
    })
}

#[test]
fn a_recipe_without_a_mover_asks_for_nothing() {
    assert!(pods_to_list(&None, None).is_none());
    let r = resolve_mover_security_contexts("ns", &None, None, &None, PodsRead::Listed(vec![]))
        .unwrap_or_else(|e| panic!("{e:?}"));
    assert_eq!(r.contexts, (None, None));
    assert_eq!(r.outcome, InheritOutcome::NotRequested);
}

#[test]
fn an_explicit_recipe_stands_as_it_is() {
    let mover = Some(MoverSpec { security_context: Some(sc_user(5)), ..recipe() });
    let r = resolve_mover_security_contexts("ns", &mover, None, &None, PodsRead::Listed(vec![]))
        .unwrap_or_else(|e| panic!("{e:?}"));
    assert_eq!(r.contexts, (Some(sc_user(5)), None));
    assert_eq!(r.outcome, InheritOutcome::NotRequested);
}

#[test]
fn a_consumer_is_read_and_the_whole_listing_handed_on() {
    let mover = from_consumer(None);
    assert!(matches!(pods_to_list(&mover, Some("data")), Some(PodQuery::All)));
    let pods = vec![
        pod_mounting("a", "ns", Some("Running"), Some(1000), "data", false),
        pod_with(Some("Running"), &[("other", Some(1))], None),
    ];
    let r = resolve_mover_security_contexts(
        "ns",
        &mover,
        Some("data"),
        &None,
        PodsRead::Listed(pods),
    )
    .unwrap_or_else(|e| panic!("{e:?}"));
    assert_eq!(
        r.outcome,
        InheritOutcome::Inherited {
            pod: "a".to_string(),
            container: Some("app".to_string()),
            uid: Some(1000),
            pins_identity: true,
        }
    );
    assert_eq!(r.unfiltered_pods.map(|p| p.len()), Some(2));
}

#[test]
fn a_pinned_recipe_stands_in_for_a_missing_workload() {
    let r = resolve_mover_security_contexts(
        "ns",
        &from_consumer(Some(sc_user(9))),
        Some("data"),
        &None,
        PodsRead::Listed(vec![]),
    )
    .unwrap_or_else(|e| panic!("{e:?}"));
    assert!(matches!(r.outcome, InheritOutcome::Fallback { .. }));
    assert_eq!(r.contexts.0, Some(sc_user(9)));
    assert!(r.unfiltered_pods.is_none());

    let unpinned = Some(SecurityContext { privileged: Some(false), ..sc() });
    let held = resolve_mover_security_contexts(
        "ns",
        &from_consumer(unpinned),
        Some("data"),
        &None,
        PodsRead::Listed(vec![]),
    );
    assert!(matches!(held, Err(Error::MissingDependency(_))));
}

#[test]
fn a_failed_listing_comes_out_even_with_a_pinned_recipe() {
    let r = resolve_mover_security_contexts(
        "ns",
        &from_consumer(Some(sc_user(9))),
        Some("data"),
        &None,
        PodsRead::Failed("forbidden".to_string()),
    );
    assert!(matches!(r, Err(Error::Kube(why)) if why == "forbidden"));
}

#[test]
fn a_run_without_a_claim_has_no_consumer_to_read() {
    assert!(pods_to_list(&from_consumer(None), None).is_none());
    let r = resolve_mover_security_contexts(
        "ns",
        &from_consumer(None),
        None,
        &None,
        PodsRead::Listed(vec![]),
    );
    match r {
        Err(Error::MissingDependency(msg)) => assert!(msg.contains("no source PVC")),
        _ => panic!("expected a missing dependency"),
    }
}

fn from_selector(labels: Vec<(String, String)>) -> Option<MoverSpec> {
    Some(MoverSpec {
        inherit_security_context_from: Some(InheritSecurityContextFrom::WorkloadSelector {
            pod_selector: LabelSelector { match_labels: labels, match_expressions: vec![] },
            container: Some("app".to_string()),
        }),
        ..recipe()
    })
}

#[test]
fn a_selector_lists_by_its_query_and_keeps_no_listing() {
    let mover = from_selector(vec![("app".to_string(), "pg".to_string())]);
    match pods_to_list(&mover, None) {
        Some(PodQuery::Labelled(q)) => assert_eq!(q, "app=pg"),
        _ => panic!("expected a label query"),
    }
    let pods = vec![pod_with(Some("Running"), &[("app", Some(1000))], None)];
    let r = resolve_mover_security_contexts("ns", &mover, None, &None, PodsRead::Listed(pods))
        .unwrap_or_else(|e| panic!("{e:?}"));
    assert!(r.unfiltered_pods.is_none());
    assert_eq!(effective_run_as_user(&r.contexts.0, &r.contexts.1), Some(1000));
}

#[test]
fn an_empty_selector_is_a_mistake() {
    let mover = from_selector(vec![]);
    assert!(pods_to_list(&mover, None).is_none());
    let r = resolve_mover_security_contexts("ns", &mover, None, &None, PodsRead::Listed(vec![]));
    match r {
        Err(Error::MissingDependency(msg)) => assert!(msg.contains("podSelector is empty")),
        _ => panic!("expected a missing dependency"),
    }
}

#[test]
fn a_recorded_identity_needs_a_source_and_a_record() {
    let mover = Some(MoverSpec {
        inherit_security_context_from: Some(InheritSecurityContextFrom::Snapshot),
        ..recipe()
    });
    let none = resolve_mover_security_contexts("ns", &mover, None, &None, PodsRead::Listed(vec![]));
    assert!(matches!(none, Err(Error::Invariant(_))));
    let blank = Some(SnapshotRecordedSource { snapshot: "app/b1".to_string(), meta: None });
    match resolve_mover_security_contexts("ns", &mover, None, &blank, PodsRead::Listed(vec![])) {
        Err(Error::MissingDependency(msg)) => assert!(msg.starts_with("Snapshot `app/b1`")),
        _ => panic!("expected a missing dependency"),
    }
    let full = Some(SnapshotRecordedSource {
        snapshot: "app/b1".to_string(),
        meta: Some(meta(Some(3), None, None, RecordedSrc::Inherited)),
    });
    let r = resolve_mover_security_contexts("ns", &mover, None, &full, PodsRead::Listed(vec![]))
        .unwrap_or_else(|e| panic!("{e:?}"));
    assert_eq!(effective_run_as_user(&r.contexts.0, &r.contexts.1), Some(3));
}

#[test]
fn a_cache_claim_is_created_once() {
    let owner = || kopiur_controller::labels::OwnerReference {
        uid: "u".to_string(),
        controller: Some(true),
    };
    assert!(ensure_cache_pvc(true, "ns", "c", owner(), "8Gi", None).is_none());
    let claim = ensure_cache_pvc(false, "ns", "c", owner(), "8Gi", Some("fast")).unwrap();
    assert_eq!(claim.access_mode, "ReadWriteOnce");
    assert_eq!(claim.capacity, "8Gi");
    assert_eq!(claim.storage_class.as_deref(), Some("fast"));
    let labels = claim.metadata.labels.unwrap();
    assert_eq!(
        labels.get("kopiur.home-operations.com/component").as_deref(),
        Some("mover-cache")
    );
    assert_eq!(labels.get("app.kubernetes.io/managed-by").as_deref(), Some("kopiur"));
    assert_eq!(cache_pvc_created(CreateOutcome::Created, "c").unwrap(), "c");
    assert_eq!(cache_pvc_created(CreateOutcome::Conflict, "c").unwrap(), "c");
    assert!(cache_pvc_created(CreateOutcome::Failed("x".to_string()), "c").is_err());
}

#[test]
fn what_has_to_be_named_before_pods_are_read() {
    let empty = LabelSelector { match_labels: Vec::new(), match_expressions: Vec::new() };
    assert!(matches!(workload_query("apps", &empty), Err(Error::MissingDependency(m)) if m.contains("`apps`")));
    let app = LabelSelector {
        match_labels: vec![("app".to_string(), "pg".to_string())],
        match_expressions: Vec::new(),
    };
    assert_eq!(workload_query("apps", &app).unwrap(), "app=pg");
    assert!(matches!(consumed_claim(None), Err(Error::MissingDependency(_))));
    assert_eq!(consumed_claim(Some("data")).unwrap(), "data");
}
