use kopiur_controller::backend::Backend;
use kopiur_controller::conditions::Condition;
use kopiur_controller::error::Error;
use kopiur_controller::instant::{read_instant, write_instant, Instant};
use kopiur_controller::labels::Labels;
use kopiur_controller::maintenance_conditions::{
    patch_condition_if_changed, set_ready_if_changed, LEASE_HELD_BY_OTHER_REASON,
    LEASE_OWNED_CONDITION,
};
use kopiur_controller::maintenance_job::{
    active_job_selector, has_active_maintenance_job, maintenance_cache_name,
    maintenance_job_labels, maintenance_job_limits, maintenance_job_plan, maintenance_op,
    maintenance_work_spec, privileged_run_refused,
    record_maintenance_status_metrics, spawn_maintenance_job, Ownership, SpawnAction, SpawnEvent,
    SpawnStage,
};
use kopiur_controller::maintenance_manual::{
    already_running, end_condition, ended_status, handle_manual_run, manual_run_request,
    running_request, running_status, unreadable_answer, JobState, ManualAction, ManualEnd,
    ManualEvent, ManualRequest, ManualRunPhase, ManualRunStatus, ManualStage, RequestParsed,
};
use kopiur_controller::maintenance_names::{
    maintenance_job_name, manual_job_name, mover_mode, ManualRunMode,
};
use kopiur_controller::maintenance_reconcile::{
    action_condition, check_maintenance, read_request, reconcile_inner, sleep_nanos,
    MaintenanceAction, MaintenanceEvent, MaintenanceStage, RequestState,
};
use kopiur_controller::maintenance_schedule::{
    cap, due_mode, last_handled_at, last_run_at, mode_after, mode_word, next_wakeup,
    record_handled_slot, slot_for, wakeup_after, CronSpec, MaintenanceMode, MaintenanceSchedule,
    ModeStatus, RunHistory, ScheduleDefaults, Slots,
};
use kopiur_controller::rbac::{MoverRunIdentity, NamespaceRead};
use kopiur_controller::seed_run::{repository_volume, FailurePolicy, JobLimits, Throttle};

const SEC: u64 = 1_000_000_000;

fn at(secs: i64) -> Instant {
    Instant { secs, nanos: 0 }
}

fn mode_status(run: Option<&str>, handled: Option<&str>) -> Option<ModeStatus> {
    Some(ModeStatus {
        last_run_at: run.map(str::to_string),
        last_handled_at: handled.map(str::to_string),
    })
}

fn no_history() -> RunHistory {
    RunHistory { quick: None, full: None }
}

#[test]
fn instants_are_read_as_rfc3339_in_utc() {
    let read = |s: &str| read_instant(&Some(s.to_string()));
    assert_eq!(read("1970-01-01T00:00:01Z"), Some(at(1)));
    assert_eq!(read("1996-12-19T16:39:57-08:00"), Some(at(851_042_397)));
    assert_eq!(
        read("1970-01-01T00:00:00.250Z"),
        Some(Instant { secs: 0, nanos: 250_000_000 })
    );
    assert_eq!(read("yesterday"), None);
    assert_eq!(read_instant(&None), None);
}

#[test]
fn instants_are_written_as_rfc3339_and_read_back() {
    assert_eq!(
        write_instant(at(1_431_648_000)).as_deref(),
        Some("2015-05-15T00:00:00+00:00")
    );
    for t in [
        at(0),
        at(-62_167_219_200),
        at(253_402_300_799),
        Instant { secs: 1_700_000_000, nanos: 123_456_789 },
        Instant { secs: 1_700_000_000, nanos: 999_000_000 },
        Instant { secs: -1, nanos: 1_000 },
    ] {
        assert_eq!(read_instant(&write_instant(t)), Some(t), "{t:?}");
    }
    assert_eq!(write_instant(at(i64::MAX)), None);
}

#[test]
fn the_search_begins_at_the_later_of_run_and_end() {
    let clock = at(100_000_000);
    let after = |run, handled| {
        mode_after(
            &RunHistory { quick: mode_status(run, handled), full: None },
            MaintenanceMode::Quick,
            clock,
        )
    };
    let early = "1970-01-01T00:00:10Z";
    let late = "1970-01-01T00:00:20Z";
    assert_eq!(after(Some(early), Some(late)), at(20));
    assert_eq!(after(Some(late), Some(early)), at(20));
    assert_eq!(after(Some(early), None), at(10));
    assert_eq!(after(None, Some(late)), at(20));
    assert_eq!(after(None, None), at(100_000_000 - 31_536_000));
    assert_eq!(after(Some("garbage"), None), at(100_000_000 - 31_536_000));
}

#[test]
fn each_kind_of_pass_has_its_own_history() {
    let h = RunHistory {
        quick: mode_status(Some("1970-01-01T00:00:10Z"), None),
        full: mode_status(None, Some("1970-01-01T00:00:20Z")),
    };
    assert_eq!(last_run_at(&h, MaintenanceMode::Quick), Some(at(10)));
    assert_eq!(last_handled_at(&h, MaintenanceMode::Quick), None);
    assert_eq!(last_run_at(&h, MaintenanceMode::Full), None);
    assert_eq!(last_handled_at(&h, MaintenanceMode::Full), Some(at(20)));
    assert_eq!(mode_word(MaintenanceMode::Quick), "quick");
    assert_eq!(mode_word(MaintenanceMode::Full), "full");
}

fn cron(cron: &str, jitter: Option<&str>, timezone: Option<&str>) -> CronSpec {
    CronSpec {
        cron: cron.to_string(),
        jitter: jitter.map(str::to_string),
        timezone: timezone.map(str::to_string),
    }
}

#[test]
fn jitter_and_time_zone_cascade() {
    let schedule = MaintenanceSchedule {
        quick: cron("0 * * * *", None, None),
        full: cron("0 3 * * 0", Some("1h"), Some("Europe/Paris")),
        timezone: Some("America/New_York".to_string()),
    };
    let defaults = Some(ScheduleDefaults {
        timezone: Some("Asia/Tokyo".to_string()),
        jitter: Some("5m".to_string()),
    });
    let quick = slot_for(
        &schedule,
        &Some("uid".to_string()),
        "nas",
        MaintenanceMode::Quick,
        at(7),
        &defaults,
    );
    assert_eq!(quick.cron, "0 * * * *");
    assert_eq!(quick.jitter.as_deref(), Some("5m"));
    assert_eq!(quick.timezone.as_deref(), Some("America/New_York"));
    assert_eq!(quick.seed, "uid");
    assert_eq!(quick.after, at(7));

    let full = slot_for(&schedule, &None, "nas", MaintenanceMode::Full, at(7), &None);
    assert_eq!(full.jitter.as_deref(), Some("1h"));
    assert_eq!(full.timezone.as_deref(), Some("Europe/Paris"));
    assert_eq!(full.seed, "nas");

    let bare = MaintenanceSchedule { timezone: None, ..schedule };
    let quick = slot_for(&bare, &None, "nas", MaintenanceMode::Quick, at(7), &defaults);
    assert_eq!(quick.timezone.as_deref(), Some("Asia/Tokyo"));
    let quick = slot_for(&bare, &None, "nas", MaintenanceMode::Quick, at(7), &None);
    assert_eq!(quick.timezone, None);
    assert_eq!(quick.jitter, None);
}

#[test]
fn a_full_pass_goes_before_a_quick_one() {
    let both = Slots { quick: Some(at(5)), full: Some(at(9)) };
    assert_eq!(due_mode(both, at(10)), Some((MaintenanceMode::Full, at(9))));
    assert_eq!(due_mode(both, at(9)), Some((MaintenanceMode::Full, at(9))));
    assert_eq!(due_mode(both, at(8)), Some((MaintenanceMode::Quick, at(5))));
    assert_eq!(due_mode(both, at(4)), None);
    assert_eq!(due_mode(Slots { quick: None, full: None }, at(4)), None);
}

#[test]
fn a_wait_is_floored_and_capped() {
    let wait = |slot: i64| {
        next_wakeup(Slots { quick: Some(at(slot)), full: None }, at(0)) / u128::from(SEC)
    };
    assert_eq!(wait(100), 100);
    assert_eq!(wait(10), 30);
    assert_eq!(wait(0), 30);
    assert_eq!(wait(-5), 30);
    assert_eq!(
        next_wakeup(Slots { quick: Some(at(500)), full: Some(at(200)) }, at(0)),
        u128::from(200 * SEC)
    );
    assert_eq!(
        next_wakeup(
            Slots { quick: Some(Instant { secs: 40, nanos: 5 }), full: None },
            Instant { secs: 0, nanos: 10 }
        ),
        u128::from(40 * SEC - 5)
    );
    assert_eq!(cap(u128::from(100 * SEC)), 100 * SEC);
    assert_eq!(cap(u128::from(10_000 * SEC)), 1800 * SEC);
    assert_eq!(
        sleep_nanos(Slots { quick: None, full: Some(at(1_000_000)) }, at(0)),
        1800 * SEC
    );
}

#[test]
fn the_handled_pass_wakes_up_from_its_slot() {
    let h = RunHistory {
        quick: mode_status(Some("1970-01-01T00:00:10Z"), None),
        full: mode_status(Some("1970-01-01T00:00:20Z"), None),
    };
    let handled = Some((MaintenanceMode::Quick, at(99)));
    let clock = at(1000);
    assert_eq!(wakeup_after(&h, MaintenanceMode::Quick, handled, clock), at(99));
    assert_eq!(wakeup_after(&h, MaintenanceMode::Full, handled, clock), at(20));
    assert_eq!(wakeup_after(&h, MaintenanceMode::Quick, None, clock), at(10));
}

#[test]
fn an_end_is_stamped_with_the_present_and_only_once() {
    let now = at(1_700_000_000);
    let stamp = record_handled_slot(&no_history(), MaintenanceMode::Full, at(5), now).unwrap();
    assert_eq!(stamp.mode, MaintenanceMode::Full);
    assert_eq!(stamp.last_handled_at, "2023-11-14T22:13:20+00:00");
    let stamped = RunHistory {
        quick: None,
        full: mode_status(None, Some(&stamp.last_handled_at)),
    };
    assert!(record_handled_slot(&stamped, MaintenanceMode::Full, at(5), at(1_700_000_100)).is_none());
    assert!(record_handled_slot(&stamped, MaintenanceMode::Full, now, at(1_700_000_100)).is_none());
    assert!(record_handled_slot(
        &stamped,
        MaintenanceMode::Full,
        at(1_700_000_001),
        at(1_700_000_100)
    )
    .is_some());
    assert!(record_handled_slot(&stamped, MaintenanceMode::Quick, at(5), now).is_some());
    assert!(record_handled_slot(&stamped, MaintenanceMode::Quick, at(5), at(i64::MAX)).is_none());
    assert_eq!(mode_after(&stamped, MaintenanceMode::Full, at(1_700_000_100)), now);
}

#[test]
fn job_names_carry_token_and_second() {
    let name = |mode| maintenance_job_name("nas", mode, 1_700_000_000, "deadbeef");
    assert_eq!(name(MaintenanceMode::Quick), "nas-q-1700000000");
    assert_eq!(name(MaintenanceMode::Full), "nas-f-1700000000");
    let manual = |mode| manual_job_name("nas", mode, 1_700_000_000, "deadbeef");
    assert_eq!(manual(ManualRunMode::Quick), "nas-mq-1700000000");
    assert_eq!(manual(ManualRunMode::Full), "nas-mf-1700000000");
    assert_eq!(
        maintenance_job_name("nas", MaintenanceMode::Quick, -5, "deadbeef"),
        "nas-q--5"
    );
}

#[test]
fn long_names_are_cut_short_with_a_hash() {
    let long = "n".repeat(60);
    let name = maintenance_job_name(&long, MaintenanceMode::Quick, 1_700_000_000, "deadbeef");
    assert_eq!(name.len(), 52);
    assert_eq!(name, format!("{}-deadbeef-q-1700000000", "n".repeat(30)));
    let fits = "n".repeat(39);
    assert_eq!(
        maintenance_job_name(&fits, MaintenanceMode::Quick, 1_700_000_000, "deadbeef"),
        format!("{fits}-q-1700000000")
    );
    let manual = manual_job_name(&long, ManualRunMode::Full, 1_700_000_000, "deadbeef");
    assert_eq!(manual.len(), 52);
    assert_ne!(manual, name);
}

#[test]
fn a_request_names_its_pass() {
    assert_eq!(mover_mode(ManualRunMode::Quick), MaintenanceMode::Quick);
    assert_eq!(mover_mode(ManualRunMode::Full), MaintenanceMode::Full);
}

fn condition(type_: &str, status: &str, reason: &str, message: &str) -> Condition {
    Condition {
        type_: type_.to_string(),
        status: status.to_string(),
        reason: reason.to_string(),
        message: message.to_string(),
        last_transition_time: "t0".to_string(),
        observed_generation: Some(1),
    }
}

#[test]
fn the_lease_condition_is_written_on_a_change_only() {
    let patch =
        patch_condition_if_changed(&vec![], Some(3), "False", "MaintenanceFailed", "m", "t1")
            .unwrap();
    assert_eq!(patch.observed_generation, 3);
    assert_eq!(patch.conditions.len(), 1);
    let written = &patch.conditions[0];
    assert_eq!(written.type_, LEASE_OWNED_CONDITION);
    assert_eq!(written.status, "False");
    assert_eq!(written.last_transition_time, "t1");
    assert_eq!(written.observed_generation, Some(3));
    assert!(patch_condition_if_changed(
        &patch.conditions,
        Some(3),
        "False",
        "MaintenanceFailed",
        "other words",
        "t2"
    )
    .is_none());
    assert!(patch_condition_if_changed(
        &patch.conditions,
        None,
        "False",
        "MoverPodWedged",
        "m",
        "t2"
    )
    .is_some_and(|p| p.observed_generation == 0));
}

#[test]
fn readiness_is_written_on_a_change_only_and_keeps_the_lease() {
    let lease = condition(LEASE_OWNED_CONDITION, "True", "Owned", "ours");
    let patch = set_ready_if_changed(&vec![lease], Some(4), "t1").unwrap();
    let find = |t: &str| patch.conditions.iter().find(|c| c.type_ == t).unwrap();
    assert_eq!(find("Ready").status, "True");
    assert_eq!(find("Ready").reason, "Reconciled");
    assert_eq!(find(LEASE_OWNED_CONDITION).message, "ours");
    assert!(set_ready_if_changed(&patch.conditions, Some(4), "t2").is_none());
}

#[test]
fn a_held_lease_stalls() {
    let lease = condition(
        LEASE_OWNED_CONDITION,
        "False",
        LEASE_HELD_BY_OTHER_REASON,
        "held by bob@laptop",
    );
    let patch = set_ready_if_changed(&vec![lease], Some(4), "t1").unwrap();
    let find = |t: &str| patch.conditions.iter().find(|c| c.type_ == t).unwrap();
    assert_eq!(find("Ready").status, "False");
    assert_eq!(find("Stalled").status, "True");
    assert_eq!(find("Stalled").reason, "MaintenanceYielding");
    assert!(find("Stalled").message.contains("(held by bob@laptop)"));
    assert!(set_ready_if_changed(&patch.conditions, Some(4), "t2").is_none());

    let failed = condition(LEASE_OWNED_CONDITION, "False", "MaintenanceFailed", "m");
    let patch = set_ready_if_changed(&vec![failed], Some(4), "t1").unwrap();
    assert_eq!(patch.conditions[1].status, "True");
}

fn manual(raw: &str, phase: ManualRunPhase) -> Option<ManualRunStatus> {
    Some(ManualRunStatus {
        requested_at: Some(raw.to_string()),
        mode: Some(ManualRunMode::Quick),
        phase: Some(phase),
        completed_at: None,
    })
}

#[test]
fn an_answered_request_is_dropped_before_it_is_read() {
    let raw = "2026-06-11T13:00:00Z";
    let request = ManualRequest { requested: at(1), mode: ManualRunMode::Full };
    let ask = |status: &Option<ManualRunStatus>, parsed: RequestParsed| {
        manual_run_request(&Some(raw.to_string()), status, parsed)
    };
    for phase in [
        ManualRunPhase::Succeeded,
        ManualRunPhase::Failed,
        ManualRunPhase::Running,
        ManualRunPhase::Unknown("Paused".to_string()),
    ] {
        let status = manual(raw, phase);
        assert_eq!(
            ask(&status, RequestParsed::Malformed("scribble".to_string())).unwrap(),
            None
        );
        assert_eq!(ask(&status, RequestParsed::Request(request)).unwrap(), None);
    }
    let unrecorded = Some(ManualRunStatus {
        requested_at: Some(raw.to_string()),
        mode: None,
        phase: None,
        completed_at: None,
    });
    assert_eq!(ask(&unrecorded, RequestParsed::Request(request)).unwrap(), Some(request));
    assert_eq!(
        ask(&manual("older", ManualRunPhase::Succeeded), RequestParsed::Request(request)).unwrap(),
        Some(request)
    );
    match ask(&None, RequestParsed::Malformed("bad mode".to_string())) {
        Err(Error::Validation(m)) => assert_eq!(m, "bad mode"),
        _ => panic!("expected a refusal"),
    }
    assert_eq!(
        manual_run_request(&None, &None, RequestParsed::Request(request)).unwrap(),
        None
    );
}

#[test]
fn a_running_request_is_handed_on_until_it_ends() {
    let raw = Some("r".to_string());
    let request = ManualRequest { requested: at(1), mode: ManualRunMode::Quick };
    let parsed = || RequestParsed::Request(request);
    for phase in [ManualRunPhase::Running, ManualRunPhase::Unknown("Paused".to_string())] {
        let status = manual("r", phase);
        assert_eq!(running_request(&raw, &status, &parsed()), Some(request));
        let reading = read_request(&raw, &status, parsed());
        assert_eq!(reading.state, RequestState::Pending);
        assert_eq!(reading.request, Some(request));
    }
    for phase in [ManualRunPhase::Succeeded, ManualRunPhase::Failed] {
        let status = manual("r", phase);
        assert_eq!(running_request(&raw, &status, &parsed()), None);
        assert_eq!(read_request(&raw, &status, parsed()).state, RequestState::Absent);
    }
    let other = manual("older", ManualRunPhase::Running);
    assert_eq!(running_request(&raw, &other, &parsed()), None);
    assert_eq!(read_request(&raw, &other, parsed()).request, Some(request));
    assert_eq!(running_request(&None, &other, &parsed()), None);
    assert_eq!(read_request(&None, &None, parsed()).state, RequestState::Absent);
    for status in [
        None,
        manual("r", ManualRunPhase::Running),
        manual("r", ManualRunPhase::Unknown("Paused".to_string())),
    ] {
        let bad = read_request(&raw, &status, RequestParsed::Malformed("bad mode".to_string()));
        assert_eq!(bad.state, RequestState::Malformed);
        assert_eq!(bad.complaint.as_deref(), Some("bad mode"));
        assert!(bad.request.is_none());
    }
    let ended = manual("r", ManualRunPhase::Failed);
    let quiet = read_request(&raw, &ended, RequestParsed::Malformed("bad mode".to_string()));
    assert_eq!(quiet.state, RequestState::Absent);
    assert!(quiet.complaint.is_none());
}

#[test]
fn a_phase_that_cannot_be_read_is_named() {
    let raw = Some("r".to_string());
    assert_eq!(
        unreadable_answer(&raw, &manual("r", ManualRunPhase::Unknown("Paused".to_string())))
            .as_deref(),
        Some("Paused")
    );
    assert_eq!(unreadable_answer(&raw, &manual("r", ManualRunPhase::Running)), None);
    assert_eq!(
        unreadable_answer(&raw, &manual("s", ManualRunPhase::Unknown("Paused".to_string()))),
        None
    );
}

#[test]
fn a_request_is_driven_step_by_step() {
    let step = |running, stage, event| handle_manual_run(running, stage, event);
    let observe = |running, job| {
        step(running, ManualStage::Observe, ManualEvent::JobObserved(job)).1
    };
    assert_eq!(
        observe(true, JobState::Succeeded),
        ManualAction::RecordEnd(ManualEnd::Succeeded)
    );
    assert_eq!(
        observe(true, JobState::Failed),
        ManualAction::RecordEnd(ManualEnd::Failed)
    );
    assert_eq!(
        observe(true, JobState::Missing),
        ManualAction::RecordEnd(ManualEnd::Lost)
    );
    assert_eq!(
        observe(false, JobState::Running),
        ManualAction::Stop { requeue_secs: 30 }
    );
    assert_eq!(observe(false, JobState::Missing), ManualAction::CheckActiveJobs);
    assert_eq!(
        step(false, ManualStage::SingleFlight, ManualEvent::ActiveJobs(true)).1,
        ManualAction::Stop { requeue_secs: 30 }
    );
    assert_eq!(
        step(false, ManualStage::SingleFlight, ManualEvent::ActiveJobs(false)),
        (ManualStage::Spawn, ManualAction::SpawnJob)
    );
    assert_eq!(
        step(false, ManualStage::Spawn, ManualEvent::Spawned),
        (ManualStage::Done, ManualAction::RecordRunning { requeue_secs: 30 })
    );
    assert_eq!(
        step(false, ManualStage::Done, ManualEvent::Spawned).1,
        ManualAction::Ignore
    );
}

#[test]
fn ends_are_recorded_and_told() {
    let ended = ended_status("r", ManualRunMode::Full, ManualEnd::Lost, "now");
    assert_eq!(ended.phase, Some(ManualRunPhase::Failed));
    assert_eq!(ended.completed_at.as_deref(), Some("now"));
    assert_eq!(
        manual_run_request(
            &Some("r".to_string()),
            &Some(ended),
            RequestParsed::Request(ManualRequest { requested: at(1), mode: ManualRunMode::Full })
        )
        .unwrap(),
        None
    );
    let running = running_status("r", ManualRunMode::Full);
    assert_eq!(running.completed_at, None);
    assert!(already_running(&Some(running), "r", ManualRunMode::Full));
    assert!(!already_running(
        &Some(running_status("r", ManualRunMode::Full)),
        "r",
        ManualRunMode::Quick
    ));
    assert!(end_condition(ManualEnd::Succeeded).0.is_none());
    let (failed, nudge) = end_condition(ManualEnd::Failed);
    assert_eq!(failed.unwrap().reason, "MaintenanceFailed");
    assert!(nudge);
    let (lost, nudge) = end_condition(ManualEnd::Lost);
    assert_eq!(lost.unwrap().reason, "ManualRunOutcomeLost");
    assert!(!nudge);
}

fn run(events: &[MaintenanceEvent]) -> Vec<MaintenanceAction> {
    let mut stage = MaintenanceStage::Repository;
    let mut actions = Vec::new();
    for event in events {
        let (next, action) = reconcile_inner(stage, *event);
        stage = next;
        actions.push(action);
    }
    actions
}

#[test]
fn a_repository_that_cannot_be_maintained_defers_everything() {
    assert_eq!(
        run(&[
            MaintenanceEvent::RepositoryRead { maintainable: false },
            MaintenanceEvent::RequestRead(RequestState::Pending),
            MaintenanceEvent::ActiveJobs(false),
        ]),
        vec![
            MaintenanceAction::Defer { requeue_secs: 60 },
            MaintenanceAction::Ignore,
            MaintenanceAction::Ignore,
        ]
    );
}

#[test]
fn a_due_slot_is_spawned_once_nothing_else_runs() {
    let slots = Slots { quick: Some(at(5)), full: None };
    let start = [
        MaintenanceEvent::RepositoryRead { maintainable: true },
        MaintenanceEvent::RequestRead(RequestState::Malformed),
        MaintenanceEvent::SlotsFound { slots, now: at(6) },
    ];
    let with = |tail: &[MaintenanceEvent]| {
        let mut all = start.to_vec();
        all.extend_from_slice(tail);
        *run(&all).last().unwrap()
    };
    assert_eq!(
        run(&start),
        vec![
            MaintenanceAction::MarkReady,
            MaintenanceAction::ReportMalformedRequest,
            MaintenanceAction::ObserveJob { mode: MaintenanceMode::Quick, slot: at(5) },
        ]
    );
    assert_eq!(
        with(&[MaintenanceEvent::JobObserved(JobState::Succeeded)]),
        MaintenanceAction::RecordHandled { mode: MaintenanceMode::Quick, slot: at(5) }
    );
    assert_eq!(
        with(&[MaintenanceEvent::JobObserved(JobState::Failed)]),
        MaintenanceAction::ReportFailed { requeue_secs: 300 }
    );
    let running = MaintenanceEvent::JobObserved(JobState::Running);
    assert_eq!(
        with(&[running, MaintenanceEvent::PodsClassified { wedged: true }]),
        MaintenanceAction::ReportWedged { requeue_secs: 300 }
    );
    assert_eq!(
        with(&[running, MaintenanceEvent::PodsClassified { wedged: false }]),
        MaintenanceAction::Wait { requeue_secs: 30 }
    );
    let missing = MaintenanceEvent::JobObserved(JobState::Missing);
    assert_eq!(
        with(&[missing, MaintenanceEvent::ActiveJobs(true)]),
        MaintenanceAction::Wait { requeue_secs: 30 }
    );
    assert_eq!(
        with(&[missing, MaintenanceEvent::ActiveJobs(false)]),
        MaintenanceAction::SpawnJob { mode: MaintenanceMode::Quick, slot: at(5) }
    );
    assert_eq!(
        with(&[missing, MaintenanceEvent::ActiveJobs(false), MaintenanceEvent::Spawned]),
        MaintenanceAction::Wait { requeue_secs: 30 }
    );
}

#[test]
fn a_failed_step_of_maintenance_ends_the_reconcile() {
    let events = [
        MaintenanceEvent::RepositoryRead { maintainable: true },
        MaintenanceEvent::Failed,
        MaintenanceEvent::RequestRead(RequestState::Absent),
    ];
    assert_eq!(run(&events)[1..], [MaintenanceAction::Fail, MaintenanceAction::Ignore]);
}

#[test]
fn a_request_in_flight_stops_the_pass() {
    let start = [
        MaintenanceEvent::RepositoryRead { maintainable: true },
        MaintenanceEvent::RequestRead(RequestState::Pending),
    ];
    let with = |stop| {
        let mut all = start.to_vec();
        all.push(MaintenanceEvent::RequestDriven { stop });
        *run(&all).last().unwrap()
    };
    assert_eq!(with(true), MaintenanceAction::Wait { requeue_secs: 30 });
    assert_eq!(with(false), MaintenanceAction::FindSlots);
    let idle = [
        MaintenanceEvent::RepositoryRead { maintainable: true },
        MaintenanceEvent::RequestRead(RequestState::Absent),
        MaintenanceEvent::SlotsFound {
            slots: Slots { quick: Some(at(50)), full: None },
            now: at(6),
        },
    ];
    assert_eq!(*run(&idle).last().unwrap(), MaintenanceAction::Sleep);
}

#[test]
fn the_spec_is_checked_before_the_namespace() {
    let ns = Some("apps".to_string());
    assert_eq!(check_maintenance(&vec![], &ns).unwrap(), "apps");
    assert!(matches!(
        check_maintenance(&vec!["bad cron".to_string()], &None),
        Err(Error::Validation(m)) if m == "bad cron"
    ));
    assert!(matches!(
        check_maintenance(&vec![], &None),
        Err(Error::Invariant(m)) if m == "Maintenance has no namespace"
    ));
}

fn backend() -> Backend {
    Backend {
        kind: "Filesystem".to_string(),
        workload_identity: None,
        auth_secret: None,
        path: Some("/repo".to_string()),
        volume: Some("pvc".to_string()),
        settings: String::new(),
    }
}

fn ownership() -> Ownership {
    Ownership {
        owner: "kopiur@kopiur.east.apps.nas".to_string(),
        owner_aliases: vec!["kopiur@kopiur-apps-nas".to_string()],
        takeover_policy: "Never".to_string(),
    }
}

#[test]
fn the_mover_gets_the_lease_as_it_is() {
    let op = maintenance_op(&ownership(), MaintenanceMode::Full);
    assert_eq!(op.mode, MaintenanceMode::Full);
    assert_eq!(op.owner, "kopiur@kopiur.east.apps.nas");
    assert_eq!(op.owner_aliases, vec!["kopiur@kopiur-apps-nas".to_string()]);
    assert_eq!(op.takeover_policy, "Never");
}

#[test]
fn the_work_of_a_run_is_told_apart_by_its_namespace() {
    let spec = maintenance_work_spec(
        "apps",
        "nas-maintenance",
        &ownership(),
        MaintenanceMode::Quick,
        backend(),
        Some("CA".to_string()),
        None,
        Throttle {
            upload_bytes_per_second: Some(1),
            download_bytes_per_second: None,
            read_ops_per_second: None,
            write_ops_per_second: None,
        },
    );
    assert_eq!(spec.version, 1);
    assert!(spec.hook_plan.is_none() && spec.options.is_none());
    assert_eq!(spec.identity.username, "kopiur-maintenance");
    assert_eq!(spec.identity.hostname, "apps");
    assert_eq!(spec.identity.source_path, "");
    assert_eq!(spec.target_ref.kind, "Maintenance");
    assert_eq!(spec.target_ref.name, "nas-maintenance");
    assert_eq!(spec.repository.ca_bundle_pem.as_deref(), Some("CA"));
    assert_eq!(spec.throttle.upload_bytes_per_second, Some(1));
}

#[test]
fn a_maintenance_job_carries_two_labels_and_its_limits() {
    assert_eq!(
        maintenance_job_labels("nas").to_list(),
        vec![
            ("app.kubernetes.io/component".to_string(), "maintenance".to_string()),
            ("kopiur.home-operations.com/maintenance".to_string(), "nas".to_string()),
        ]
    );
    let base = JobLimits {
        active_deadline_seconds: Some(60),
        backoff_limit: 2,
        ttl_seconds_after_finished: None,
    };
    let plain = maintenance_job_limits(&None, base);
    assert_eq!(plain.active_deadline_seconds, Some(60));
    assert_eq!(plain.backoff_limit, 2);
    assert_eq!(plain.ttl_seconds_after_finished, Some(3600));
    let policy =
        Some(FailurePolicy { active_deadline_seconds: None, backoff_limit: Some(7) });
    let tuned = maintenance_job_limits(&policy, base);
    assert_eq!(tuned.active_deadline_seconds, Some(60));
    assert_eq!(tuned.backoff_limit, 7);
    let policy =
        Some(FailurePolicy { active_deadline_seconds: Some(9), backoff_limit: None });
    let tuned = maintenance_job_limits(&policy, base);
    assert_eq!(tuned.active_deadline_seconds, Some(9));
    assert_eq!(tuned.backoff_limit, 2);

    let identity = MoverRunIdentity {
        service_account: Some("sa".to_string()),
        azure_workload_identity: true,
    };
    let plan = maintenance_job_plan(
        "nas",
        at(1_700_000_000),
        &backend(),
        &vec!["pw".to_string()],
        &identity,
        &None,
        base,
        Some(99),
    );
    assert_eq!(plan.limits.ttl_seconds_after_finished, Some(99));
    assert_eq!(
        plan.annotations.get("kopiur.home-operations.com/maintenance-slot").as_deref(),
        Some("2023-11-14T22:13:20+00:00")
    );
    assert_eq!(plan.service_account.as_deref(), Some("sa"));
    assert_eq!(plan.creds_secrets[0].secret_name, "pw");
    assert!(plan.creds_secrets[0].prefix.is_none());
    assert_eq!(plan.labels.get("azure.workload.identity/use").as_deref(), Some("true"));
    assert_eq!(plan.labels.to_list().len(), 3);
    assert!(!plan.repo_volume.unwrap().container_mount_read_only);
    assert!(repository_volume(&Backend { volume: None, ..backend() }).is_none());
    assert_eq!(maintenance_cache_name("nas"), "kopiur-cache-nas");
}

#[test]
fn a_privileged_run_is_refused_without_the_opt_in() {
    let closed = NamespaceRead::Annotations(Labels::new());
    let refused = privileged_run_refused(true, &closed, "nas", "apps", None).unwrap().unwrap();
    assert!(refused.contains("Maintenance `nas`"));
    assert!(refused.contains("`kopiur-mover` ServiceAccount"));
    assert_eq!(
        privileged_run_refused(false, &closed, "nas", "apps", None).unwrap(),
        None
    );
    assert_eq!(
        privileged_run_refused(true, &NamespaceRead::Forbidden, "nas", "apps", None).unwrap(),
        None
    );
    assert!(privileged_run_refused(
        true,
        &NamespaceRead::Failed("x".to_string()),
        "nas",
        "apps",
        None
    )
    .is_err());
}

#[test]
fn a_spawn_puts_the_identity_first() {
    let mut stage = SpawnStage::Identity;
    let mut actions = Vec::new();
    for event in [
        SpawnEvent::IdentityEnsured,
        SpawnEvent::CredentialsResolved { projected: 2 },
        SpawnEvent::CacheResolved,
        SpawnEvent::ContextsResolved { requires_privilege: true },
        SpawnEvent::GateChecked { refused: false },
        SpawnEvent::Applied,
    ] {
        let (next, action) = spawn_maintenance_job(stage, event);
        stage = next;
        actions.push(action);
    }
    assert_eq!(
        actions,
        vec![
            SpawnAction::ResolveCredentials,
            SpawnAction::ResolveCache { count_projected: Some(2) },
            SpawnAction::ResolveContexts,
            SpawnAction::CheckGate,
            SpawnAction::ApplyJob,
            SpawnAction::Finish,
        ]
    );
    assert_eq!(
        spawn_maintenance_job(SpawnStage::Identity, SpawnEvent::CredentialsResolved { projected: 0 })
            .1,
        SpawnAction::Ignore
    );
    assert_eq!(
        spawn_maintenance_job(SpawnStage::Gate, SpawnEvent::GateChecked { refused: true }),
        (SpawnStage::Done, SpawnAction::Skip)
    );
    assert_eq!(
        spawn_maintenance_job(SpawnStage::Cache, SpawnEvent::Failed),
        (SpawnStage::Done, SpawnAction::Fail)
    );
}

#[test]
fn unfinished_jobs_count_as_active() {
    assert!(!has_active_maintenance_job(&vec![]));
    assert!(!has_active_maintenance_job(&vec![JobState::Succeeded, JobState::Failed]));
    assert!(has_active_maintenance_job(&vec![JobState::Succeeded, JobState::Running]));
    assert_eq!(
        active_job_selector("nas"),
        "app.kubernetes.io/component=maintenance,kopiur.home-operations.com/maintenance=nas"
    );
}

#[test]
fn reclaimed_bytes_are_published_after_a_good_reconcile() {
    assert_eq!(record_maintenance_status_metrics(true, true, Some(5)), Some(5));
    assert_eq!(record_maintenance_status_metrics(true, false, Some(5)), None);
    assert_eq!(record_maintenance_status_metrics(false, true, Some(5)), None);
}

#[test]
fn what_an_action_reports() {
    let told = action_condition(MaintenanceAction::Defer { requeue_secs: 60 }, "x").unwrap();
    assert_eq!(told.reason, "WaitingForRepository");
    assert!(told.message.ends_with("deferring maintenance"));
    let told = action_condition(MaintenanceAction::ReportMalformedRequest, "bad mode").unwrap();
    assert_eq!((told.reason.as_str(), told.message.as_str()), ("InvalidRunRequest", "bad mode"));
    let failed = MaintenanceAction::ReportFailed { requeue_secs: 300 };
    let told = action_condition(failed, "x").unwrap();
    assert_eq!(told.reason, "MaintenanceFailed");
    assert_eq!(told.message, "maintenance Job failed; see the Job/pod logs");
    let wedged = MaintenanceAction::ReportWedged { requeue_secs: 300 };
    assert_eq!(action_condition(wedged, "stuck").unwrap().message, "stuck");
    assert!(action_condition(MaintenanceAction::FindSlots, "x").is_none());
}

#[test]
fn a_job_name_is_a_label_and_ends_in_its_run() {
    let is_label = |name: &str| {
        name.len() <= 52
            && name.bytes().all(|b| b.is_ascii_lowercase() || b.is_ascii_digit() || b == b'-')
            && !name.starts_with('-')
            && !name.ends_with('-')
    };
    let long = "a".repeat(63);
    let slot = maintenance_job_name(&long, MaintenanceMode::Full, 1_700_000_000, "0123abcd");
    assert!(is_label(&slot), "{slot}");
    assert!(slot.ends_with("-0123abcd-f-1700000000"), "{slot}");
    assert_eq!(slot.len(), 52);
    let manual = manual_job_name(&long, ManualRunMode::Full, 1_700_000_000, "0123abcd");
    assert!(is_label(&manual), "{manual}");
    assert_ne!(manual, slot);
    let early = maintenance_job_name("nas", MaintenanceMode::Quick, -5, "0123abcd");
    assert_eq!(early, "nas-q--5");
    assert!(is_label(&early));
}

#[test]
fn a_slot_that_does_not_read_back_is_planned_too() {
    let identity = MoverRunIdentity { service_account: None, azure_workload_identity: false };
    let base = JobLimits {
        active_deadline_seconds: None,
        backoff_limit: 2,
        ttl_seconds_after_finished: None,
    };
    let plan = |slot: Instant| {
        maintenance_job_plan("nas", slot, &backend(), &vec![], &identity, &None, base, None)
            .annotations
            .get("kopiur.home-operations.com/maintenance-slot")
    };
    assert_eq!(plan(at(253_402_300_800)).as_deref(), Some("+10000-01-01T00:00:00+00:00"));
    assert_eq!(plan(at(i64::MAX)), None);
}
