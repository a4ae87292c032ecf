//! One reconcile of a `Maintenance`, as a machine: what was observed goes in,
//! and the next thing to do comes out.
use crate::error::{Error, ErrorView};
use crate::instant::{earlier, on_the_clock, Instant};
use crate::maintenance_manual::{
    answers, is_end, manual_run_request, recorded_open, running_request, unread_recorded_request,
    EndCondition, JobState, ManualRequest, ManualRunStatus, RequestParsed,
};
use crate::maintenance_schedule::{
    cap, capped, due, due_mode, next_wakeup, wait_nanos, MaintenanceMode, Slots,
    REQUEUE_FAILED_SECS, REQUEUE_NOT_READY_SECS, REQUEUE_RUNNING_SECS,
};
use crate::text::opt_text;
use vstd::prelude::*;

verus! {

/// `reason` while the repository cannot be maintained.
pub const WAITING_FOR_REPOSITORY_REASON: &'static str = "WaitingForRepository";

/// What is said while the repository cannot be maintained.
pub const WAITING_FOR_REPOSITORY_MESSAGE: &'static str = "target repository is not ready for maintenance: it has never bootstrapped, its backend is confirmed unreachable or the repository vanished, or it is in a terminal or unknown phase; deferring maintenance";

/// `reason` of a failed run.
pub const MAINTENANCE_FAILED_REASON: &'static str = "MaintenanceFailed";

/// What is said of a failed run.
pub const MAINTENANCE_FAILED_MESSAGE: &'static str = "maintenance Job failed; see the Job/pod logs";

/// `reason` of a request that cannot be read.
pub const INVALID_RUN_REQUEST_REASON: &'static str = "InvalidRunRequest";

/// `reason` of a Job whose pod does not start.
pub const MOVER_POD_WEDGED_REASON: &'static str = "MoverPodWedged";

/// The namespace to work in, unless the spec is not acceptable or the object
/// has none.
pub fn check_maintenance(complaints: &Vec<String>, namespace: &Option<String>) -> (ns: Result<
    String,
    Error,
>)
    ensures
        complaints@.len() > 0 ==> ns is Err && ns->Err_0@ == ErrorView::Validation(
            complaints@[0]@,
        ),
        complaints@.len() == 0 && *namespace is None ==> ns is Err && ns->Err_0@
            == ErrorView::Invariant("Maintenance has no namespace"@),
        complaints@.len() == 0 && *namespace is Some ==> ns is Ok && ns->Ok_0@ == namespace->0@,
{
    if complaints.len() > 0 {
        return Err(Error::Validation(complaints[0].clone()));
    }
    match namespace {
        Some(n) => Ok(n.clone()),
        None => Err(Error::Invariant("Maintenance has no namespace".to_owned())),
    }
}

/// Where a reconcile stands.
#[derive(Clone, Copy, Debug, PartialEq, Eq, Structural)]
pub enum MaintenanceStage {
    /// The repository is to be asked.
    Repository,
    /// The request annotations are to be read.
    Request,
    /// A request is being driven.
    Manual,
    /// The slots are to be found.
    Schedule,
    /// The Job of a slot is to be looked up.
    Job { mode: MaintenanceMode, slot: Instant },
    /// The pods of a running Job are to be looked at.
    Pods,
    /// Other Jobs are to be looked up.
    SingleFlight { mode: MaintenanceMode, slot: Instant },
    /// The Job is to be spawned.
    Spawn,
    /// The reconcile is over.
    Done,
}

/// What reading the request came to.
#[derive(Clone, Copy, Debug, PartialEq, Eq, Structural)]
pub enum RequestState {
    Absent,
    Pending,
    Malformed,
}

/// A request as a reconcile takes it: what reading it came to, the request to
/// drive, and what was wrong with it.
pub struct RequestReading {
    pub state: RequestState,
    pub request: Option<ManualRequest>,
    pub complaint: Option<String>,
}

/// What a [`RequestReading`] says, as plain values.
#[verifier::ext_equal]
pub enum RequestReadingView {
    Absent,
    Pending(ManualRequest),
    Malformed(Seq<char>),
}

/// The request of a reconcile: none without the annotation, and none that came
/// to an end; else what was read from the annotations, be it a new request or
/// one that the status records without an end.
pub open spec fn request_reading(
    raw: Option<Seq<char>>,
    status: Option<ManualRunStatus>,
    parsed: RequestParsed,
) -> RequestReadingView {
    match raw {
        None => RequestReadingView::Absent,
        Some(text) => if answers(status, text) && is_end(status->0.phase->0) {
            RequestReadingView::Absent
        } else {
            match parsed {
                RequestParsed::Absent => RequestReadingView::Absent,
                RequestParsed::Request(r) => RequestReadingView::Pending(r),
                RequestParsed::Malformed(why) => RequestReadingView::Malformed(why@),
            }
        },
    }
}

/// Whether a reading says this, and nothing else.
pub open spec fn reads_as(reading: RequestReading, view: RequestReadingView) -> bool {
    match view {
        RequestReadingView::Absent => reading.state == RequestState::Absent && reading.request
            is None && reading.complaint is None,
        RequestReadingView::Pending(r) => reading.state == RequestState::Pending && reading.request
            == Some(r) && reading.complaint is None,
        RequestReadingView::Malformed(why) => reading.state == RequestState::Malformed
            && reading.request is None && opt_text(reading.complaint) == Some(why),
    }
}

/// Reads the request of a reconcile: a new one, or one that runs and whose end
/// is to be seen, is driven; one of either that cannot be read is told.
pub fn read_request(
    raw: &Option<String>,
    status: &Option<ManualRunStatus>,
    parsed: RequestParsed,
) -> (reading: RequestReading)
    ensures
        reads_as(reading, request_reading(opt_text(*raw), *status, parsed)),
        *raw is Some && recorded_open(*status, raw->0@) && parsed is Malformed ==> reading.state
            == RequestState::Malformed && opt_text(reading.complaint) == Some(
            parsed->Malformed_0@,
        ),
{
    let runs = running_request(raw, status, &parsed);
    let unread = unread_recorded_request(raw, status, &parsed);
    match manual_run_request(raw, status, parsed) {
        Err(e) => RequestReading {
            state: RequestState::Malformed,
            request: None,
            complaint: Some(e.message()),
        },
        Ok(new) => {
            if unread.is_some() {
                return RequestReading {
                    state: RequestState::Malformed,
                    request: None,
                    complaint: unread,
                };
            }
            let request = if runs.is_some() {
                runs
            } else {
                new
            };
            let state = if request.is_some() {
                RequestState::Pending
            } else {
                RequestState::Absent
            };
            RequestReading { state, request, complaint: None }
        },
    }
}

/// What the outside answered.
#[derive(Clone, Copy, Debug, PartialEq, Eq, Structural)]
pub enum MaintenanceEvent {
    RepositoryRead { maintainable: bool },
    RequestRead(RequestState),
    /// The request was driven; `stop`: its Job is in flight.
    RequestDriven { stop: bool },
    SlotsFound { slots: Slots, now: Instant },
    JobObserved(JobState),
    PodsClassified { wedged: bool },
    ActiveJobs(bool),
    Spawned,
    /// The step failed.
    Failed,
}

/// What to do next.
#[derive(Clone, Copy, Debug, PartialEq, Eq, Structural)]
pub enum MaintenanceAction {
    /// Say that the repository cannot be maintained, and look again.
    Defer { requeue_secs: u64 },
    /// Write readiness, and read the request.
    MarkReady,
    DriveRequest,
    /// Say that the request cannot be read, and find the slots all the same.
    ReportMalformedRequest,
    FindSlots,
    /// Sleep until the next slot.
    Sleep,
    ObserveJob { mode: MaintenanceMode, slot: Instant },
    /// Stamp the slot as handled, and sleep until the next one.
    RecordHandled { mode: MaintenanceMode, slot: Instant },
    /// Say that the run failed, ask the repository to look at its backend, and
    /// look again.
    ReportFailed { requeue_secs: u64 },
    CheckPods,
    /// Say that the pod does not start, delete the Job, and look again.
    ReportWedged { requeue_secs: u64 },
    CheckActiveJobs,
    SpawnJob { mode: MaintenanceMode, slot: Instant },
    Wait { requeue_secs: u64 },
    /// The failure comes out.
    Fail,
    /// The event does not belong to the stage.
    Ignore,
}

/// The next stage and action.
pub open spec fn maintenance_next(stage: MaintenanceStage, event: MaintenanceEvent) -> (
    MaintenanceStage,
    MaintenanceAction,
) {
    match (stage, event) {
        (MaintenanceStage::Done, _) => (stage, MaintenanceAction::Ignore),
        (_, MaintenanceEvent::Failed) => (MaintenanceStage::Done, MaintenanceAction::Fail),
        (MaintenanceStage::Repository, MaintenanceEvent::RepositoryRead { maintainable }) =>
        if maintainable {
            (MaintenanceStage::Request, MaintenanceAction::MarkReady)
        } else {
            (
                MaintenanceStage::Done,
                MaintenanceAction::Defer { requeue_secs: REQUEUE_NOT_READY_SECS },
            )
        },
        (MaintenanceStage::Request, MaintenanceEvent::RequestRead(request)) => match request {
            RequestState::Absent => (MaintenanceStage::Schedule, MaintenanceAction::FindSlots),
            RequestState::Pending => (MaintenanceStage::Manual, MaintenanceAction::DriveRequest),
            RequestState::Malformed => (
                MaintenanceStage::Schedule,
                MaintenanceAction::ReportMalformedRequest,
            ),
        },
        (MaintenanceStage::Manual, MaintenanceEvent::RequestDriven { stop }) => if stop {
            (
                MaintenanceStage::Done,
                MaintenanceAction::Wait { requeue_secs: REQUEUE_RUNNING_SECS },
            )
        } else {
            (MaintenanceStage::Schedule, MaintenanceAction::FindSlots)
        },
        (MaintenanceStage::Schedule, MaintenanceEvent::SlotsFound { slots, now }) => match due(
            slots,
            now,
        ) {
            None => (MaintenanceStage::Done, MaintenanceAction::Sleep),
            Some((mode, slot)) => (
                MaintenanceStage::Job { mode, slot },
                MaintenanceAction::ObserveJob { mode, slot },
            ),
        },
        (MaintenanceStage::Job { mode, slot }, MaintenanceEvent::JobObserved(job)) => match job {
            JobState::Succeeded => (
                MaintenanceStage::Done,
                MaintenanceAction::RecordHandled { mode, slot },
            ),
            JobState::Failed => (
                MaintenanceStage::Done,
                MaintenanceAction::ReportFailed { requeue_secs: REQUEUE_FAILED_SECS },
            ),
            JobState::Running => (MaintenanceStage::Pods, MaintenanceAction::CheckPods),
            JobState::Missing => (
                MaintenanceStage::SingleFlight { mode, slot },
                MaintenanceAction::CheckActiveJobs,
            ),
        },
        (MaintenanceStage::Pods, MaintenanceEvent::PodsClassified { wedged }) => if wedged {
            (
                MaintenanceStage::Done,
                MaintenanceAction::ReportWedged { requeue_secs: REQUEUE_FAILED_SECS },
            )
        } else {
            (
                MaintenanceStage::Done,
                MaintenanceAction::Wait { requeue_secs: REQUEUE_RUNNING_SECS },
            )
        },
        (MaintenanceStage::SingleFlight { mode, slot }, MaintenanceEvent::ActiveJobs(active)) =>
        if active {
            (
                MaintenanceStage::Done,
                MaintenanceAction::Wait { requeue_secs: REQUEUE_RUNNING_SECS },
            )
        } else {
            (MaintenanceStage::Spawn, MaintenanceAction::SpawnJob { mode, slot })
        },
        (MaintenanceStage::Spawn, MaintenanceEvent::Spawned) => (
            MaintenanceStage::Done,
            MaintenanceAction::Wait { requeue_secs: REQUEUE_RUNNING_SECS },
        ),
        _ => (stage, MaintenanceAction::Ignore),
    }
}

/// Takes one step of a reconcile.
pub fn reconcile_inner(stage: MaintenanceStage, event: MaintenanceEvent) -> (next: (
    MaintenanceStage,
    MaintenanceAction,
))
    ensures
        next == maintenance_next(stage, event),
{
    match (stage, event) {
        (MaintenanceStage::Done, _) => (stage, MaintenanceAction::Ignore),
        (_, MaintenanceEvent::Failed) => (MaintenanceStage::Done, MaintenanceAction::Fail),
        (MaintenanceStage::Repository, MaintenanceEvent::RepositoryRead { maintainable }) => {
            if maintainable {
                (MaintenanceStage::Request, MaintenanceAction::MarkReady)
            } else {
                (
                    MaintenanceStage::Done,
                    MaintenanceAction::Defer { requeue_secs: REQUEUE_NOT_READY_SECS },
                )
            }
        },
        (MaintenanceStage::Request, MaintenanceEvent::RequestRead(request)) => match request {
            RequestState::Absent => (MaintenanceStage::Schedule, MaintenanceAction::FindSlots),
            RequestState::Pending => (MaintenanceStage::Manual, MaintenanceAction::DriveRequest),
            RequestState::Malformed => (
                MaintenanceStage::Schedule,
                MaintenanceAction::ReportMalformedRequest,
            ),
        },
        (MaintenanceStage::Manual, MaintenanceEvent::RequestDriven { stop }) => {
            if stop {
                (
                    MaintenanceStage::Done,
                    MaintenanceAction::Wait { requeue_secs: REQUEUE_RUNNING_SECS },
                )
            } else {
                (MaintenanceStage::Schedule, MaintenanceAction::FindSlots)
            }
        },
        (MaintenanceStage::Schedule, MaintenanceEvent::SlotsFound { slots, now }) => match due_mode(
            slots,
            now,
        ) {
            None => (MaintenanceStage::Done, MaintenanceAction::Sleep),
            Some((mode, slot)) => (
                MaintenanceStage::Job { mode, slot },
                MaintenanceAction::ObserveJob { mode, slot },
            ),
        },
        (MaintenanceStage::Job { mode, slot }, MaintenanceEvent::JobObserved(job)) => match job {
            JobState::Succeeded => (
                MaintenanceStage::Done,
                MaintenanceAction::RecordHandled { mode, slot },
            ),
            JobState::Failed => (
                MaintenanceStage::Done,
                MaintenanceAction::ReportFailed { requeue_secs: REQUEUE_FAILED_SECS },
            ),
            JobState::Running => (MaintenanceStage::Pods, MaintenanceAction::CheckPods),
            JobState::Missing => (
                MaintenanceStage::SingleFlight { mode, slot },
                MaintenanceAction::CheckActiveJobs,
            ),
        },
        (MaintenanceStage::Pods, MaintenanceEvent::PodsClassified { wedged }) => {
            if wedged {
                (
                    MaintenanceStage::Done,
                    MaintenanceAction::ReportWedged { requeue_secs: REQUEUE_FAILED_SECS },
                )
            } else {
                (
                    MaintenanceStage::Done,
                    MaintenanceAction::Wait { requeue_secs: REQUEUE_RUNNING_SECS },
                )
            }
        },
        (MaintenanceStage::SingleFlight { mode, slot }, MaintenanceEvent::ActiveJobs(active)) => {
            if active {
                (
                    MaintenanceStage::Done,
                    MaintenanceAction::Wait { requeue_secs: REQUEUE_RUNNING_SECS },
                )
            } else {
                (MaintenanceStage::Spawn, MaintenanceAction::SpawnJob { mode, slot })
            }
        },
        (MaintenanceStage::Spawn, MaintenanceEvent::Spawned) => (
            MaintenanceStage::Done,
            MaintenanceAction::Wait { requeue_secs: REQUEUE_RUNNING_SECS },
        ),
        _ => (stage, MaintenanceAction::Ignore),
    }
}

/// The reason and the message of the condition that goes with an action;
/// `detail` is what was wrong with the request, or with the pod.
pub open spec fn told_by(action: MaintenanceAction, detail: Seq<char>) -> Option<
    (Seq<char>, Seq<char>),
> {
    match action {
        MaintenanceAction::Defer { .. } => Some(
            (WAITING_FOR_REPOSITORY_REASON@, WAITING_FOR_REPOSITORY_MESSAGE@),
        ),
        MaintenanceAction::ReportMalformedRequest => Some((INVALID_RUN_REQUEST_REASON@, detail)),
        MaintenanceAction::ReportFailed { .. } => Some(
            (MAINTENANCE_FAILED_REASON@, MAINTENANCE_FAILED_MESSAGE@),
        ),
        MaintenanceAction::ReportWedged { .. } => Some((MOVER_POD_WEDGED_REASON@, detail)),
        _ => None,
    }
}

/// The condition that goes with an action, where one does.
pub fn action_condition(action: MaintenanceAction, detail: &str) -> (told: Option<EndCondition>)
    ensures
        told is Some <==> told_by(action, detail@) is Some,
        told is Some ==> told_by(action, detail@) == Some((told->0.reason@, told->0.message@)),
{
    let (reason, message) = match action {
        MaintenanceAction::Defer { .. } => (
            WAITING_FOR_REPOSITORY_REASON,
            WAITING_FOR_REPOSITORY_MESSAGE,
        ),
        MaintenanceAction::ReportMalformedRequest => (INVALID_RUN_REQUEST_REASON, detail),
        MaintenanceAction::ReportFailed { .. } => (
            MAINTENANCE_FAILED_REASON,
            MAINTENANCE_FAILED_MESSAGE,
        ),
        MaintenanceAction::ReportWedged { .. } => (MOVER_POD_WEDGED_REASON, detail),
        _ => {
            return None;
        },
    };
    Some(EndCondition { reason: reason.to_owned(), message: message.to_owned() })
}

/// How long to sleep, in nanoseconds, before the next slot of those found.
pub fn sleep_nanos(slots: Slots, now: Instant) -> (nanos: u64)
    requires
        on_the_clock(now),
        slots.quick is Some ==> on_the_clock(slots.quick->0),
        slots.full is Some ==> on_the_clock(slots.full->0),
    ensures
        nanos == capped(wait_nanos(slots, now)),
{
    cap(next_wakeup(slots, now))
}

/// The stage and the actions that a run of events leads to from the start.
pub open spec fn maintenance_trace(events: Seq<MaintenanceEvent>) -> (
    MaintenanceStage,
    Seq<MaintenanceAction>,
)
    decreases events.len(),
{
    if events.len() == 0 {
        (MaintenanceStage::Repository, Seq::empty())
    } else {
        let (stage, actions) = maintenance_trace(events.drop_last());
        let (next, action) = maintenance_next(stage, events.last());
        (next, actions.push(action))
    }
}

/// What a spawn rests on: the repository can be maintained, the slot's Job was
/// found missing, and no other Job was active.
pub open spec fn clear_to_spawn(events: Seq<MaintenanceEvent>) -> bool {
    &&& events.contains(MaintenanceEvent::RepositoryRead { maintainable: true })
    &&& events.contains(MaintenanceEvent::JobObserved(JobState::Missing))
    &&& events.contains(MaintenanceEvent::ActiveJobs(false))
}

proof fn maintenance_invariant(events: Seq<MaintenanceEvent>)
    ensures
        ({
            let (stage, actions) = maintenance_trace(events);
            &&& actions.len() == events.len()
            &&& !(stage is Repository) && !(stage is Done) ==> events.contains(
                MaintenanceEvent::RepositoryRead { maintainable: true },
            )
            &&& stage is SingleFlight ==> events.contains(
                MaintenanceEvent::JobObserved(JobState::Missing),
            )
            &&& forall|k: int|
                0 <= k < actions.len() && (#[trigger] actions[k]) is SpawnJob ==> clear_to_spawn(
                    events,
                )
            &&& forall|k: int|
                0 <= k < actions.len() && (#[trigger] actions[k]) is DriveRequest
                    ==> events.contains(MaintenanceEvent::RepositoryRead { maintainable: true })
        }),
    decreases events.len(),
{
    if events.len() > 0 {
        let front = events.drop_last();
        maintenance_invariant(front);
        let (stage, actions) = maintenance_trace(front);
        let all = maintenance_trace(events).1;
        assert(events[events.len() - 1] == events.last());
        assert(events.contains(events.last()));
        assert forall|e: MaintenanceEvent| front.contains(e) implies #[trigger] events.contains(
            e,
        ) by {
            let k = choose|k: int| 0 <= k < front.len() && front[k] == e;
            assert(events[k] == e);
        }
        assert forall|k: int|
            0 <= k < all.len() && (#[trigger] all[k]) is SpawnJob implies clear_to_spawn(events) by {
            if k < actions.len() {
                assert(all[k] == actions[k]);
            }
        }
        assert forall|k: int|
            0 <= k < all.len() && (#[trigger] all[k]) is DriveRequest implies events.contains(
            MaintenanceEvent::RepositoryRead { maintainable: true },
        ) by {
            if k < actions.len() {
                assert(all[k] == actions[k]);
            }
        }
    }
}

/// What is done at a step depends on the answers up to it alone.
proof fn later_answers_change_nothing(events: Seq<MaintenanceEvent>, k: int)
    requires
        0 <= k < events.len(),
    ensures
        maintenance_trace(events.take(k + 1)).1.len() == k + 1,
        maintenance_trace(events.take(k + 1)).1[k] == maintenance_trace(events).1[k],
    decreases events.len(),
{
    maintenance_invariant(events);
    maintenance_invariant(events.take(k + 1));
    if k + 1 == events.len() {
        assert(events.take(k + 1) =~= events);
    } else {
        let front = events.drop_last();
        later_answers_change_nothing(front, k);
        assert(front.take(k + 1) =~= events.take(k + 1));
        maintenance_invariant(front);
        assert(maintenance_trace(events).1[k] == maintenance_trace(front).1[k]);
    }
}

/// Two maintenance Jobs never run at once: a slot's Job is spawned only where
/// it was found missing and no other was active, and only for a repository
/// that can be maintained.
pub proof fn one_maintenance_job_at_a_time(events: Seq<MaintenanceEvent>, k: int)
    requires
        0 <= k < maintenance_trace(events).1.len(),
        maintenance_trace(events).1[k] is SpawnJob,
    ensures
        clear_to_spawn(events.take(k + 1)),
{
    maintenance_invariant(events);
    later_answers_change_nothing(events, k);
    maintenance_invariant(events.take(k + 1));
}

/// Nothing runs against a repository that cannot be maintained: neither a slot
/// nor a request.
pub proof fn nothing_runs_while_deferred(events: Seq<MaintenanceEvent>, k: int)
    requires
        0 <= k < maintenance_trace(events).1.len(),
        !events.take(k + 1).contains(MaintenanceEvent::RepositoryRead { maintainable: true }),
    ensures
        !(maintenance_trace(events).1[k] is SpawnJob),
        !(maintenance_trace(events).1[k] is DriveRequest),
{
    maintenance_invariant(events);
    later_answers_change_nothing(events, k);
    maintenance_invariant(events.take(k + 1));
}

/// A request that cannot be read does not suspend the schedule: the slots are
/// looked for next, as where there is no request.
pub proof fn malformed_request_keeps_the_schedule()
    ensures
        maintenance_next(
            MaintenanceStage::Request,
            MaintenanceEvent::RequestRead(RequestState::Malformed),
        ).0 == maintenance_next(
            MaintenanceStage::Request,
            MaintenanceEvent::RequestRead(RequestState::Absent),
        ).0,
{
}

/// A step that failed ends the reconcile, and one that is over does nothing
/// more.
pub proof fn failure_ends_the_reconcile(stage: MaintenanceStage, event: MaintenanceEvent)
    ensures
        !(stage is Done) ==> maintenance_next(stage, MaintenanceEvent::Failed) == (
            MaintenanceStage::Done,
            MaintenanceAction::Fail,
        ),
        maintenance_next(MaintenanceStage::Done, event) == (
            MaintenanceStage::Done,
            MaintenanceAction::Ignore,
        ),
{
}

/// A repository is maintained only where it can be, and is put off for a minute
/// where it cannot; readiness is written before the request is read.
pub proof fn repository_is_asked_first(stage: MaintenanceStage, event: MaintenanceEvent)
    ensures
        ({
            let (next, action) = maintenance_next(stage, event);
            &&& action is MarkReady <==> stage is Repository && event
                == (MaintenanceEvent::RepositoryRead { maintainable: true })
            &&& action is MarkReady ==> next is Request
            &&& action is Defer <==> stage is Repository && event
                == (MaintenanceEvent::RepositoryRead { maintainable: false })
            &&& action matches MaintenanceAction::Defer { requeue_secs } ==> requeue_secs == 60
                && next is Done
        }),
{
}

/// A request goes before the schedule: one that is pending is driven, and the
/// slots wait only while its Job is in flight; one that cannot be read is told,
/// and the slots are found all the same.
pub proof fn request_goes_before_the_schedule(stage: MaintenanceStage, event: MaintenanceEvent)
    ensures
        ({
            let (next, action) = maintenance_next(stage, event);
            &&& action is DriveRequest <==> stage is Request && event
                == MaintenanceEvent::RequestRead(RequestState::Pending)
            &&& action is DriveRequest ==> next is Manual
            &&& action is ReportMalformedRequest <==> stage is Request && event
                == MaintenanceEvent::RequestRead(RequestState::Malformed)
            &&& action is FindSlots <==> {
                ||| stage is Request && event == MaintenanceEvent::RequestRead(RequestState::Absent)
                ||| stage is Manual && event == (MaintenanceEvent::RequestDriven { stop: false })
            }
            &&& action is FindSlots || action is ReportMalformedRequest ==> next is Schedule
            &&& stage is Manual && event == (MaintenanceEvent::RequestDriven { stop: true })
                ==> action == (MaintenanceAction::Wait { requeue_secs: 30 }) && next is Done
        }),
{
}

/// A slot that has come is looked after, the full pass before the quick one,
/// and the reconcile sleeps only where none has come.
pub proof fn slot_that_has_come_is_looked_after(stage: MaintenanceStage, event: MaintenanceEvent)
    ensures
        ({
            let (next, action) = maintenance_next(stage, event);
            let slots = event->SlotsFound_slots;
            let now = event->SlotsFound_now;
            let found = stage is Schedule && event is SlotsFound;
            let full = slots.full is Some && !earlier(now, slots.full->0);
            let quick = slots.quick is Some && !earlier(now, slots.quick->0);
            &&& action is Sleep <==> found && !full && !quick
            &&& action is Sleep ==> next is Done
            &&& action is ObserveJob <==> found && (full || quick)
            &&& found && full ==> action == (MaintenanceAction::ObserveJob {
                mode: MaintenanceMode::Full,
                slot: slots.full->0,
            })
            &&& found && !full && quick ==> action == (MaintenanceAction::ObserveJob {
                mode: MaintenanceMode::Quick,
                slot: slots.quick->0,
            })
            &&& action matches MaintenanceAction::ObserveJob { mode, slot } ==> next
                == (MaintenanceStage::Job { mode, slot })
        }),
{
}

/// A slot's Job is handled by how it stands: a success stamps its slot, a
/// failure is told and looked at again in five minutes, a running Job has its
/// pods looked at, and a missing one is spawned where no other is active.
pub proof fn slot_follows_its_job(stage: MaintenanceStage, event: MaintenanceEvent)
    ensures
        ({
            let (next, action) = maintenance_next(stage, event);
            &&& action is RecordHandled <==> stage is Job && event == MaintenanceEvent::JobObserved(
                JobState::Succeeded,
            )
            &&& action matches MaintenanceAction::RecordHandled { mode, slot } ==> stage
                == (MaintenanceStage::Job { mode, slot }) && next is Done
            &&& action is ReportFailed <==> stage is Job && event == MaintenanceEvent::JobObserved(
                JobState::Failed,
            )
            &&& action matches MaintenanceAction::ReportFailed { requeue_secs } ==> requeue_secs
                == 300 && next is Done
            &&& action is CheckPods <==> stage is Job && event == MaintenanceEvent::JobObserved(
                JobState::Running,
            )
            &&& action is CheckPods ==> next is Pods
            &&& action is CheckActiveJobs <==> stage is Job && event
                == MaintenanceEvent::JobObserved(JobState::Missing)
            &&& action is CheckActiveJobs ==> next == (MaintenanceStage::SingleFlight {
                mode: stage->Job_mode,
                slot: stage->Job_slot,
            })
            &&& action is ReportWedged <==> stage is Pods && event
                == (MaintenanceEvent::PodsClassified { wedged: true })
            &&& action matches MaintenanceAction::ReportWedged { requeue_secs } ==> requeue_secs
                == 300 && next is Done
            &&& action is SpawnJob <==> stage is SingleFlight && event
                == MaintenanceEvent::ActiveJobs(false)
            &&& action matches MaintenanceAction::SpawnJob { mode, slot } ==> next is Spawn && stage
                == (MaintenanceStage::SingleFlight { mode, slot })
            &&& action is Wait <==> {
                ||| stage is Pods && event == (MaintenanceEvent::PodsClassified { wedged: false })
                ||| stage is SingleFlight && event == MaintenanceEvent::ActiveJobs(true)
                ||| stage is Spawn && event is Spawned
                ||| stage is Manual && event == (MaintenanceEvent::RequestDriven { stop: true })
            }
            &&& action matches MaintenanceAction::Wait { requeue_secs } ==> requeue_secs == 30
                && next is Done
        }),
{
}

/// An answer that belongs to another stage changes nothing, and a reconcile
/// that is not over fails on no answer but a failure.
pub proof fn stray_answer_changes_nothing(stage: MaintenanceStage, event: MaintenanceEvent)
    ensures
        maintenance_next(stage, event).1 is Ignore ==> maintenance_next(stage, event).0 == stage,
        maintenance_next(stage, event).1 is Fail <==> event is Failed && !(stage is Done),
{
}

/// A `Maintenance` says why it does not run: that its repository cannot be
/// maintained, that its request cannot be read, that a run failed or that a pod
/// does not start; the last three with what was wrong. Nothing else is told as
/// a failure.
pub proof fn what_goes_wrong_is_told(action: MaintenanceAction, detail: Seq<char>)
    ensures
        ({
            let told = told_by(action, detail);
            &&& told is Some <==> action is Defer || action is ReportMalformedRequest || action
                is ReportFailed || action is ReportWedged
            &&& action is Defer ==> told == Some(
                (WAITING_FOR_REPOSITORY_REASON@, WAITING_FOR_REPOSITORY_MESSAGE@),
            )
            &&& action is ReportMalformedRequest ==> told == Some(
                (INVALID_RUN_REQUEST_REASON@, detail),
            )
            &&& action is ReportFailed ==> told == Some(
                (MAINTENANCE_FAILED_REASON@, MAINTENANCE_FAILED_MESSAGE@),
            )
            &&& action is ReportWedged ==> told == Some((MOVER_POD_WEDGED_REASON@, detail))
        }),
{
}

/// A request that is on record with an end is read as none, whatever its
/// annotations say now; any other is read as its annotations say, and without
/// the annotation there is none.
pub proof fn request_is_read_until_it_ended(
    raw: Option<Seq<char>>,
    status: Option<ManualRunStatus>,
    parsed: RequestParsed,
)
    ensures
        ({
            let reading = request_reading(raw, status, parsed);
            let ended = status is Some && raw is Some && status->0.requested_at is Some
                && status->0.requested_at->0@ == raw->0 && status->0.phase is Some && (
            status->0.phase->0 is Succeeded || status->0.phase->0 is Failed);
            &&& reading is Absent <==> raw is None || ended || parsed is Absent
            &&& reading is Pending <==> raw is Some && !ended && parsed is Request
            &&& reading is Pending ==> reading->Pending_0 == parsed->Request_0
            &&& reading is Malformed <==> raw is Some && !ended && parsed is Malformed
            &&& reading is Malformed ==> reading->Malformed_0 == parsed->Malformed_0@
        }),
{
}

} // verus!
