use kopiur_controller::conditions::{
    drop_condition, find_condition, set_ready, upsert_condition, upsert_gate, Condition,
    ReadyOutcome, StructuralGate,
};
use kopiur_controller::labels::{
    child_labels, child_meta, Labels, OwnerReference, MANAGED_BY_LABEL,
};
use kopiur_controller::notes::{truncate_for_note, EVENT_NOTE_MAX_BYTES, TRUNCATION_MARKER};
use kopiur_controller::seed::{
    seed_source_auth_conflict_gate, seed_source_not_ready_gate, seeding_gate,
};

const T0: &str = "2023-11-14T22:13:20Z";
const T1: &str = "2024-06-01T00:00:00Z";

fn cond(type_: &str, status: &str, reason: &str, message: &str, at: &str, generation: i64) -> Condition {
    Condition {
        type_: type_.to_string(),
        status: status.to_string(),
        reason: reason.to_string(),
        message: message.to_string(),
        last_transition_time: at.to_string(),
        observed_generation: Some(generation),
    }
}

fn find<'a>(conds: &'a [Condition], t: &str) -> &'a Condition {
    conds.iter().find(|c| c.type_ == t).unwrap()
}

#[test]
fn truncate_for_note_is_a_noop_under_budget() {
    let s = "short message";
    assert_eq!(truncate_for_note(s, EVENT_NOTE_MAX_BYTES), s);
}

#[test]
fn truncate_for_note_clamps_and_marks_when_over_budget() {
    let s = "x".repeat(5000);
    let out = truncate_for_note(&s, EVENT_NOTE_MAX_BYTES);
    assert_eq!(out.len(), EVENT_NOTE_MAX_BYTES);
    assert!(out.ends_with(TRUNCATION_MARKER));
}

#[test]
fn truncate_for_note_respects_utf8_boundaries() {
    let s = "é".repeat(100);
    let out = truncate_for_note(&s, 51);
    assert!(out.len() <= 51);
    assert!(out.ends_with(TRUNCATION_MARKER));
}

#[test]
fn a_note_of_exactly_the_limit_is_kept() {
    let s = "x".repeat(EVENT_NOTE_MAX_BYTES);
    assert_eq!(truncate_for_note(&s, EVENT_NOTE_MAX_BYTES), s);
    let longer = "x".repeat(EVENT_NOTE_MAX_BYTES + 1);
    assert_ne!(truncate_for_note(&longer, EVENT_NOTE_MAX_BYTES), longer);
}

#[test]
fn child_meta_omits_empty_labels() {
    let m = child_meta("n", "ns", Labels::new(), None);
    assert_eq!(m.name, "n");
    assert!(m.labels.is_none());
}

#[test]
fn child_meta_keeps_labels_and_owner() {
    let mut labels = Labels::new();
    labels.insert("a", "b");
    let m = child_meta(
        "n",
        "ns",
        labels,
        Some(OwnerReference { uid: "u".to_string(), controller: Some(true) }),
    );
    assert_eq!(m.namespace, "ns");
    assert_eq!(m.labels.unwrap().get("a").as_deref(), Some("b"));
    assert_eq!(m.owner.unwrap().uid, "u");
}

#[test]
fn child_labels_always_includes_managed_by() {
    let l = child_labels(&vec![]);
    assert_eq!(l.get(MANAGED_BY_LABEL).as_deref(), Some("kopiur"));
    let l2 = child_labels(&vec![(
        "kopiur.home-operations.com/config".to_string(),
        "pg".to_string(),
    )]);
    assert_eq!(l2.get(MANAGED_BY_LABEL).as_deref(), Some("kopiur"));
    assert_eq!(
        l2.get("kopiur.home-operations.com/config").as_deref(),
        Some("pg")
    );
}

#[test]
fn labels_come_out_in_key_order_with_the_last_value() {
    let mut l = Labels::new();
    assert!(l.is_empty());
    l.insert("b", "1");
    l.insert("a", "2");
    l.insert("c", "3");
    l.insert("b", "4");
    assert_eq!(
        l.to_list(),
        vec![
            ("a".to_string(), "2".to_string()),
            ("b".to_string(), "4".to_string()),
            ("c".to_string(), "3".to_string()),
        ]
    );
    assert_eq!(l.get("z"), None);
}

#[test]
fn set_ready_emits_ready_reconciling_stalled_per_outcome() {
    let out = set_ready(&vec![], Some(7), ReadyOutcome::Ready, "Reconciled", "all good", T0);
    assert_eq!(find(&out, "Ready").status, "True");
    assert_eq!(find(&out, "Ready").observed_generation, Some(7));
    assert_eq!(find(&out, "Reconciling").status, "False");
    assert_eq!(find(&out, "Stalled").status, "False");

    let out = set_ready(&vec![], Some(7), ReadyOutcome::Stalled, "Failed", "bad creds", T0);
    assert_eq!(find(&out, "Ready").status, "False");
    assert_eq!(find(&out, "Stalled").status, "True");
    assert_eq!(find(&out, "Reconciling").status, "False");
}

#[test]
fn set_ready_preserves_transition_time_when_unchanged_and_flips_on_change() {
    let seeded = vec![cond("Ready", "True", "Reconciled", "ok", T0, 1)];
    let same = set_ready(&seeded, Some(2), ReadyOutcome::Ready, "Reconciled", "ok2", T1);
    let ready = find(&same, "Ready");
    assert_eq!(ready.last_transition_time, T0, "Ready time moved on no-op");
    assert_eq!(ready.observed_generation, Some(2));

    let flipped = set_ready(&seeded, Some(2), ReadyOutcome::Stalled, "Failed", "boom", T1);
    let ready = find(&flipped, "Ready");
    assert_ne!(ready.last_transition_time, T0, "Ready time must flip");
    assert_eq!(ready.status, "False");
}

#[test]
fn set_ready_twice_changes_nothing_the_second_time() {
    let once = set_ready(&vec![], Some(2), ReadyOutcome::Reconciling, "Waiting", "m", T0);
    let twice = set_ready(&once, Some(2), ReadyOutcome::Reconciling, "Waiting", "m", T1);
    assert_eq!(once, twice);
}

#[test]
fn upsert_condition_inserts_new_and_preserves_others() {
    let other = cond("Ready", "True", "Ok", "ready", T0, 1);
    let out = upsert_condition(
        &vec![other],
        "MaintenanceConfigured",
        false,
        "MaintenanceNotConfigured",
        "no maintenance",
        Some(2),
        T1,
    );
    assert_eq!(out.len(), 2);
    assert!(out.iter().any(|c| c.type_ == "Ready" && c.status == "True"));
    let m = find(&out, "MaintenanceConfigured");
    assert_eq!(m.status, "False");
    assert_eq!(m.reason, "MaintenanceNotConfigured");
    assert_eq!(m.observed_generation, Some(2));
}

#[test]
fn upsert_condition_preserves_transition_time_when_status_unchanged() {
    let existing = vec![cond(
        "MaintenanceConfigured",
        "False",
        "MaintenanceNotConfigured",
        "old",
        T0,
        1,
    )];
    let out = upsert_condition(
        &existing,
        "MaintenanceConfigured",
        false,
        "MaintenanceNotConfigured",
        "new message",
        Some(2),
        T1,
    );
    let m = &out[0];
    assert_eq!(m.last_transition_time, T0, "timestamp moved on no-op");
    assert_eq!(m.message, "new message");
    assert_eq!(m.observed_generation, Some(2));
}

#[test]
fn upsert_condition_bumps_transition_time_on_flip() {
    let existing = vec![cond(
        "MaintenanceConfigured",
        "False",
        "MaintenanceNotConfigured",
        "old",
        T0,
        1,
    )];
    let out = upsert_condition(
        &existing,
        "MaintenanceConfigured",
        true,
        "MaintenanceConfigured",
        "now configured",
        Some(2),
        T1,
    );
    let m = &out[0];
    assert_eq!(m.status, "True");
    assert_ne!(m.last_transition_time, T0, "timestamp did not advance on flip");
}

#[test]
fn upsert_condition_is_order_stable() {
    let c = |type_: &str| cond(type_, "True", "Ok", "m", T0, 1);
    let existing = vec![c("Bootstrapped"), c("MaintenanceConfigured")];
    let out = upsert_condition(&existing, "Bootstrapped", true, "Ok", "m", Some(1), T1);
    assert_eq!(
        out, existing,
        "no-op upsert of an existing condition must be byte-identical (incl. order)"
    );

    let out = upsert_condition(&existing, "Ready", true, "Ok", "m", Some(1), T1);
    assert_eq!(
        out.iter().map(|c| c.type_.as_str()).collect::<Vec<_>>(),
        ["Bootstrapped", "MaintenanceConfigured", "Ready"]
    );
}

#[test]
fn repeated_bootstrap_then_maintenance_upserts_converge() {
    let pass = |base: &Vec<Condition>, now: &str| {
        let conds = upsert_condition(base, "Bootstrapped", true, "Bootstrapped", "ok", Some(3), now);
        upsert_condition(
            &conds,
            "MaintenanceConfigured",
            true,
            "MaintenanceConfigured",
            "managed",
            Some(3),
            now,
        )
    };
    let first = pass(&vec![], T0);
    let second = pass(&first, T1);
    assert_eq!(second, first, "identical reconcile pass churned conditions");
}

#[test]
fn upsert_from_stale_conditions_drops_a_concurrent_write() {
    let at_reconcile_start: Vec<Condition> = vec![];
    let after_first = upsert_condition(
        &at_reconcile_start,
        "SecurityContextCompatible",
        true,
        "SecurityContextCompatible",
        "the mover's uid matches",
        Some(1),
        T0,
    );
    assert_eq!(after_first.len(), 1);

    let stale = upsert_condition(
        &at_reconcile_start,
        "SecurityContextInherited",
        false,
        "InheritOverridden",
        "explicit uid displaced the inherited one",
        Some(1),
        T0,
    );
    assert!(
        !stale.iter().any(|c| c.type_ == "SecurityContextCompatible"),
        "building from the reconcile-start copy DROPS the first writer's condition"
    );

    let fresh = upsert_condition(
        &after_first,
        "SecurityContextInherited",
        false,
        "InheritOverridden",
        "explicit uid displaced the inherited one",
        Some(1),
        T0,
    );
    assert_eq!(fresh.len(), 2, "both conditions must survive");
    assert!(fresh
        .iter()
        .any(|c| c.type_ == "SecurityContextCompatible" && c.status == "True"));
    assert!(fresh
        .iter()
        .any(|c| c.type_ == "SecurityContextInherited" && c.status == "False"));
}

#[test]
fn upsert_gate_writes_exactly_what_the_row_declares() {
    let held = StructuralGate { condition: "DeletionHeld", blocked: true, reason: "Breaker" };
    let rows = [
        seed_source_not_ready_gate(),
        seed_source_auth_conflict_gate(),
        seeding_gate(),
        held,
    ];
    for gate in rows.iter() {
        let conds = upsert_gate(&vec![], gate, "why this is blocked", Some(7), T0);
        assert_eq!(conds.len(), 1);
        let written = &conds[0];
        assert_eq!(written.type_, gate.condition);
        assert_eq!(written.status, if gate.blocked { "True" } else { "False" });
        assert_eq!(written.reason, gate.reason);
        assert_eq!(written.message, "why this is blocked");
        assert_eq!(written.observed_generation, Some(7));
    }
    let row = seeding_gate();
    let first = upsert_gate(&vec![], &row, "a", None, T0);
    let again = upsert_gate(&first, &row, "b", None, T1);
    assert_eq!(again.len(), 1);
    assert_eq!(again[0].message, "b");
}

#[test]
fn dropping_a_type_leaves_the_others() {
    let conds = vec![
        cond("Ready", "True", "Ok", "m", T0, 1),
        cond("Seeded", "True", "Seeded", "m", T0, 1),
    ];
    let out = drop_condition(&conds, "Seeded");
    assert_eq!(out.len(), 1);
    assert_eq!(out[0].type_, "Ready");
    assert_eq!(drop_condition(&out, "Seeded"), out);
    assert_eq!(find_condition(&conds, "Seeded"), Some(1));
    assert_eq!(find_condition(&out, "Seeded"), None);
}
