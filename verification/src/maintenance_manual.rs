//! Maintenance on request: whether a request is still to be answered, and how
//! its Job is driven.
use crate::error::{Error, ErrorView};
use crate::instant::Instant;
use crate::maintenance_names::ManualRunMode;
use crate::maintenance_schedule::REQUEUE_RUNNING_SECS;
use crate::text::{is_text, opt_text};
use vstd::prelude::*;

verus! {

/// How far a requested run has come.
#[derive(Debug, PartialEq, Eq)]
pub enum ManualRunPhase {
    Running,
    Succeeded,
    Failed,
    /// A word that this build does not know.
    Unknown(String),
}

/// What the status says of the last request.
pub struct ManualRunStatus {
    pub requested_at: Option<String>,
    pub mode: Option<ManualRunMode>,
    pub phase: Option<ManualRunPhase>,
    pub completed_at: Option<String>,
}

/// A request that was read.
#[derive(Clone, Copy, Debug, PartialEq, Eq, Structural)]
pub struct ManualRequest {
    pub requested: Instant,
    pub mode: ManualRunMode,
}

/// Whether the status answers the request that a text stands for: it records
/// that very request, under any phase.
pub open spec fn answers(status: Option<ManualRunStatus>, raw: Seq<char>) -> bool {
    status is Some && opt_text(status->0.requested_at) == Some(raw) && status->0.phase is Some
}

/// Whether a phase is an end.
pub open spec fn is_end(phase: ManualRunPhase) -> bool {
    phase is Succeeded || phase is Failed
}

/// Whether the status records a request that has not come to an end: it runs,
/// or it is recorded under a word that this build does not know.
pub open spec fn recorded_open(status: Option<ManualRunStatus>, raw: Seq<char>) -> bool {
    answers(status, raw) && !is_end(status->0.phase->0)
}

/// What reading the request annotations came to.
pub enum RequestParsed {
    /// Nothing is requested.
    Absent,
    Request(ManualRequest),
    /// The annotations cannot be read.
    Malformed(String),
}

/// The request that is still to be answered: none without the annotation, none
/// where the status records it, else what was read from the annotations.
pub open spec fn open_request(
    raw: Option<Seq<char>>,
    status: Option<ManualRunStatus>,
    parsed: RequestParsed,
) -> Result<Option<ManualRequest>, ErrorView> {
    match raw {
        None => Ok(None),
        Some(text) => if answers(status, text) {
            Ok(None)
        } else {
            match parsed {
                RequestParsed::Absent => Ok(None),
                RequestParsed::Request(r) => Ok(Some(r)),
                RequestParsed::Malformed(why) => Err(ErrorView::Validation(why@)),
            }
        },
    }
}

/// What a result says.
pub open spec fn request_view(r: Result<Option<ManualRequest>, Error>) -> Result<
    Option<ManualRequest>,
    ErrorView,
> {
    match r {
        Ok(x) => Ok(x),
        Err(e) => Err(e@),
    }
}

fn answered(status: &Option<ManualRunStatus>, raw: &str) -> (yes: bool)
    ensures
        yes == answers(*status, raw@),
{
    match status {
        None => false,
        Some(m) => is_text(&m.requested_at, raw) && m.phase.is_some(),
    }
}

/// Decides whether a request is still to be answered. `raw` is the annotation
/// as it was written, `parsed` what was read from it. A request that the
/// status records and that has not come to an end is [`running_request`]'s.
pub fn manual_run_request(
    raw: &Option<String>,
    status: &Option<ManualRunStatus>,
    parsed: RequestParsed,
) -> (request: Result<Option<ManualRequest>, Error>)
    ensures
        request_view(request) == open_request(opt_text(*raw), *status, parsed),
{
    match raw {
        None => Ok(None),
        Some(text) => {
            if answered(status, text.as_str()) {
                return Ok(None);
            }
            match parsed {
                RequestParsed::Absent => Ok(None),
                RequestParsed::Request(r) => Ok(Some(r)),
                RequestParsed::Malformed(why) => Err(Error::Validation(why)),
            }
        },
    }
}

/// The request that the status records and whose end is still to be seen.
pub open spec fn open_recorded_request(
    raw: Option<Seq<char>>,
    status: Option<ManualRunStatus>,
    parsed: RequestParsed,
) -> Option<ManualRequest> {
    match (raw, parsed) {
        (Some(text), RequestParsed::Request(r)) => if recorded_open(status, text) {
            Some(r)
        } else {
            None
        },
        _ => None,
    }
}

fn is_recorded_open(raw: &str, status: &Option<ManualRunStatus>) -> (yes: bool)
    ensures
        yes == recorded_open(*status, raw@),
{
    match status {
        None => false,
        Some(m) => is_text(&m.requested_at, raw) && match &m.phase {
            Some(ManualRunPhase::Running) => true,
            Some(ManualRunPhase::Unknown(_)) => true,
            Some(ManualRunPhase::Succeeded) => false,
            Some(ManualRunPhase::Failed) => false,
            None => false,
        },
    }
}

/// The request that the status records and whose end is still to be seen, for
/// its Job to be looked at: one that runs, or one recorded under a word that
/// this build does not know.
pub fn running_request(
    raw: &Option<String>,
    status: &Option<ManualRunStatus>,
    parsed: &RequestParsed,
) -> (r: Option<ManualRequest>)
    ensures
        r == open_recorded_request(opt_text(*raw), *status, *parsed),
        r is Some <==> *raw is Some && *parsed is Request && recorded_open(*status, raw->0@),
        r is Some ==> r->0 == parsed->Request_0,
{
    match (raw, parsed) {
        (Some(text), RequestParsed::Request(r)) => if is_recorded_open(text.as_str(), status) {
            Some(*r)
        } else {
            None
        },
        _ => None,
    }
}

/// What is wrong with a request that the status records without an end, and
/// whose annotations cannot be read any more.
pub fn unread_recorded_request(
    raw: &Option<String>,
    status: &Option<ManualRunStatus>,
    parsed: &RequestParsed,
) -> (why: Option<String>)
    ensures
        why is Some <==> *raw is Some && *parsed is Malformed && recorded_open(*status, raw->0@),
        why is Some ==> why->0@ == parsed->Malformed_0@,
{
    match (raw, parsed) {
        (Some(text), RequestParsed::Malformed(why)) => if is_recorded_open(text.as_str(), status) {
            Some(why.clone())
        } else {
            None
        },
        _ => None,
    }
}

/// The word that is about to be overwritten, where the status records this
/// request under a phase that this build does not know.
pub fn unreadable_answer(raw: &Option<String>, status: &Option<ManualRunStatus>) -> (word: Option<
    String,
>)
    ensures
        word is Some <==> raw is Some && status is Some && opt_text(status->0.requested_at)
            == opt_text(*raw) && status->0.phase is Some && status->0.phase->0 is Unknown,
        word is Some ==> word->0@ == status->0.phase->0->Unknown_0@,
{
    match (raw, status) {
        (Some(text), Some(m)) => {
            if !is_text(&m.requested_at, text.as_str()) {
                return None;
            }
            match &m.phase {
                Some(ManualRunPhase::Unknown(word)) => Some(word.clone()),
                _ => None,
            }
        },
        _ => None,
    }
}

/// Whether the status records this very request as running.
pub open spec fn recorded_running(
    status: Option<ManualRunStatus>,
    raw: Seq<char>,
    mode: ManualRunMode,
) -> bool {
    status is Some && opt_text(status->0.requested_at) == Some(raw) && status->0.mode == Some(mode)
        && status->0.phase is Some && status->0.phase->0 is Running
}

/// Whether the status records this very request as running.
pub fn already_running(status: &Option<ManualRunStatus>, raw: &str, mode: ManualRunMode) -> (yes:
    bool)
    ensures
        yes == recorded_running(*status, raw@, mode),
{
    match status {
        None => false,
        Some(m) => {
            let same_mode = match m.mode {
                Some(x) => x == mode,
                None => false,
            };
            let running = match &m.phase {
                Some(ManualRunPhase::Running) => true,
                _ => false,
            };
            is_text(&m.requested_at, raw) && same_mode && running
        },
    }
}

/// How a Job stands.
#[derive(Clone, Copy, Debug, PartialEq, Eq, Structural)]
pub enum JobState {
    Missing,
    Running,
    Succeeded,
    Failed,
}

/// Where the drive of a request stands.
#[derive(Clone, Copy, Debug, PartialEq, Eq, Structural)]
pub enum ManualStage {
    /// The request's Job is to be looked up.
    Observe,
    /// Other Jobs are to be looked up.
    SingleFlight,
    /// The Job is to be spawned.
    Spawn,
    /// The drive is over.
    Done,
}

/// What the outside answered.
#[derive(Clone, Copy, Debug, PartialEq, Eq, Structural)]
pub enum ManualEvent {
    JobObserved(JobState),
    ActiveJobs(bool),
    Spawned,
}

/// Which end a request came to.
#[derive(Clone, Copy, Debug, PartialEq, Eq, Structural)]
pub enum ManualEnd {
    Succeeded,
    Failed,
    /// The Job went away before its end was seen.
    Lost,
}

/// What to do next.
#[derive(Clone, Copy, Debug, PartialEq, Eq, Structural)]
pub enum ManualAction {
    /// Write the end into the status, and go on with the schedule.
    RecordEnd(ManualEnd),
    /// Stop here, and look again after so many seconds.
    Stop { requeue_secs: u64 },
    CheckActiveJobs,
    SpawnJob,
    /// Write that the request runs, stop, and look again after so many seconds.
    RecordRunning { requeue_secs: u64 },
    /// The event does not belong to the stage.
    Ignore,
}

/// The next stage and action of a request; `running` says whether the status
/// records it as running.
pub open spec fn manual_next(running: bool, stage: ManualStage, event: ManualEvent) -> (
    ManualStage,
    ManualAction,
) {
    match (stage, event) {
        (ManualStage::Observe, ManualEvent::JobObserved(job)) => match job {
            JobState::Succeeded => (
                ManualStage::Done,
                ManualAction::RecordEnd(ManualEnd::Succeeded),
            ),
            JobState::Failed => (ManualStage::Done, ManualAction::RecordEnd(ManualEnd::Failed)),
            JobState::Running => (
                ManualStage::Done,
                ManualAction::Stop { requeue_secs: REQUEUE_RUNNING_SECS },
            ),
            JobState::Missing => if running {
                (ManualStage::Done, ManualAction::RecordEnd(ManualEnd::Lost))
            } else {
                (ManualStage::SingleFlight, ManualAction::CheckActiveJobs)
            },
        },
        (ManualStage::SingleFlight, ManualEvent::ActiveJobs(active)) => if active {
            (ManualStage::Done, ManualAction::Stop { requeue_secs: REQUEUE_RUNNING_SECS })
        } else {
            (ManualStage::Spawn, ManualAction::SpawnJob)
        },
        (ManualStage::Spawn, ManualEvent::Spawned) => (
            ManualStage::Done,
            ManualAction::RecordRunning { requeue_secs: REQUEUE_RUNNING_SECS },
        ),
        _ => (stage, ManualAction::Ignore),
    }
}

/// Takes one step of the drive of a request.
pub fn handle_manual_run(running: bool, stage: ManualStage, event: ManualEvent) -> (next: (
    ManualStage,
    ManualAction,
))
    ensures
        next == manual_next(running, stage, event),
{
    match (stage, event) {
        (ManualStage::Observe, ManualEvent::JobObserved(job)) => match job {
            JobState::Succeeded => (
                ManualStage::Done,
                ManualAction::RecordEnd(ManualEnd::Succeeded),
            ),
            JobState::Failed => (ManualStage::Done, ManualAction::RecordEnd(ManualEnd::Failed)),
            JobState::Running => (
                ManualStage::Done,
                ManualAction::Stop { requeue_secs: REQUEUE_RUNNING_SECS },
            ),
            JobState::Missing => {
                if running {
                    (ManualStage::Done, ManualAction::RecordEnd(ManualEnd::Lost))
                } else {
                    (ManualStage::SingleFlight, ManualAction::CheckActiveJobs)
                }
            },
        },
        (ManualStage::SingleFlight, ManualEvent::ActiveJobs(active)) => {
            if active {
                (ManualStage::Done, ManualAction::Stop { requeue_secs: REQUEUE_RUNNING_SECS })
            } else {
                (ManualStage::Spawn, ManualAction::SpawnJob)
            }
        },
        (ManualStage::Spawn, ManualEvent::Spawned) => (
            ManualStage::Done,
            ManualAction::RecordRunning { requeue_secs: REQUEUE_RUNNING_SECS },
        ),
        _ => (stage, ManualAction::Ignore),
    }
}

/// The phase that an end is recorded under: a lost end counts as a failure.
pub open spec fn end_phase(end: ManualEnd) -> ManualRunPhase {
    match end {
        ManualEnd::Succeeded => ManualRunPhase::Succeeded,
        ManualEnd::Failed => ManualRunPhase::Failed,
        ManualEnd::Lost => ManualRunPhase::Failed,
    }
}

/// The status of a request that came to an end.
pub fn ended_status(annotation: &str, mode: ManualRunMode, end: ManualEnd, now: &str) -> (status:
    ManualRunStatus)
    ensures
        opt_text(status.requested_at) == Some(annotation@),
        status.mode == Some(mode),
        status.phase == Some(end_phase(end)),
        opt_text(status.completed_at) == Some(now@),
{
    let phase = match end {
        ManualEnd::Succeeded => ManualRunPhase::Succeeded,
        ManualEnd::Failed => ManualRunPhase::Failed,
        ManualEnd::Lost => ManualRunPhase::Failed,
    };
    ManualRunStatus {
        requested_at: Some(annotation.to_owned()),
        mode: Some(mode),
        phase: Some(phase),
        completed_at: Some(now.to_owned()),
    }
}

/// The status of a request whose Job was spawned.
pub fn running_status(annotation: &str, mode: ManualRunMode) -> (status: ManualRunStatus)
    ensures
        opt_text(status.requested_at) == Some(annotation@),
        status.mode == Some(mode),
        status.phase == Some(ManualRunPhase::Running),
        status.completed_at is None,
{
    ManualRunStatus {
        requested_at: Some(annotation.to_owned()),
        mode: Some(mode),
        phase: Some(ManualRunPhase::Running),
        completed_at: None,
    }
}

/// A condition that an end is told by: its reason and its message.
pub struct EndCondition {
    pub reason: String,
    pub message: String,
}

/// The condition that an end is told by; a success is told by none. A failure
/// also asks the repository to look at its backend again.
pub fn end_condition(end: ManualEnd) -> (told: (Option<EndCondition>, bool))
    ensures
        match end {
            ManualEnd::Succeeded => told.0 is None && !told.1,
            ManualEnd::Failed => told.0 is Some && told.1 && told.0->0.reason@
                == "MaintenanceFailed"@ && told.0->0.message@
                == "manual maintenance Job failed; see the Job/pod logs"@,
            ManualEnd::Lost => told.0 is Some && !told.1 && told.0->0.reason@
                == "ManualRunOutcomeLost"@ && told.0->0.message@
                == "the manual maintenance Job disappeared before its outcome was observed (TTL-reaped?); re-annotate to run again"@,
        },
{
    match end {
        ManualEnd::Succeeded => (None, false),
        ManualEnd::Failed => (
            Some(
                EndCondition {
                    reason: "MaintenanceFailed".to_owned(),
                    message: "manual maintenance Job failed; see the Job/pod logs".to_owned(),
                },
            ),
            true,
        ),
        ManualEnd::Lost => (
            Some(
                EndCondition {
                    reason: "ManualRunOutcomeLost".to_owned(),
                    message: "the manual maintenance Job disappeared before its outcome was observed (TTL-reaped?); re-annotate to run again".to_owned(),
                },
            ),
            false,
        ),
    }
}

/// The stage and the actions that a run of events leads to from the start.
pub open spec fn manual_trace(running: bool, events: Seq<ManualEvent>) -> (
    ManualStage,
    Seq<ManualAction>,
)
    decreases events.len(),
{
    if events.len() == 0 {
        (ManualStage::Observe, Seq::empty())
    } else {
        let (stage, actions) = manual_trace(running, events.drop_last());
        let (next, action) = manual_next(running, stage, events.last());
        (next, actions.push(action))
    }
}

/// A request that the status records is not taken for a new one, under
/// whatever phase and whatever is written into its other annotations later.
pub proof fn recorded_request_is_not_new(
    status: ManualRunStatus,
    raw: Seq<char>,
    parsed: RequestParsed,
)
    requires
        opt_text(status.requested_at) == Some(raw),
        status.phase is Some,
    ensures
        open_request(Some(raw), Some(status), parsed) == Ok::<Option<ManualRequest>, ErrorView>(
            None,
        ),
{
}

/// A request that came to an end is driven no more, neither as a new one nor
/// as one that runs.
pub proof fn ended_request_stays_answered(
    status: ManualRunStatus,
    raw: Seq<char>,
    end: ManualEnd,
    parsed: RequestParsed,
)
    requires
        opt_text(status.requested_at) == Some(raw),
        status.phase == Some(end_phase(end)),
    ensures
        open_request(Some(raw), Some(status), parsed) == Ok::<Option<ManualRequest>, ErrorView>(
            None,
        ),
        open_recorded_request(Some(raw), Some(status), parsed) is None,
{
}

/// No request is dropped before its end: one that can be read is driven as a
/// new one exactly where the status does not record it, and as one that runs
/// exactly where the status records it without an end.
pub proof fn unended_request_is_driven(
    status: Option<ManualRunStatus>,
    raw: Seq<char>,
    request: ManualRequest,
)
    ensures
        ({
            let parsed = RequestParsed::Request(request);
            &&& !answers(status, raw) ==> open_request(Some(raw), status, parsed) == Ok::<
                Option<ManualRequest>,
                ErrorView,
            >(Some(request)) && open_recorded_request(Some(raw), status, parsed) is None
            &&& recorded_open(status, raw) ==> open_request(Some(raw), status, parsed) == Ok::<
                Option<ManualRequest>,
                ErrorView,
            >(None) && open_recorded_request(Some(raw), status, parsed) == Some(request)
            &&& recorded_running(status, raw, request.mode) ==> open_recorded_request(
                Some(raw),
                status,
                parsed,
            ) == Some(request)
        }),
{
}

proof fn manual_invariant(running: bool, events: Seq<ManualEvent>)
    ensures
        ({
            let (stage, actions) = manual_trace(running, events);
            &&& actions.len() == events.len()
            &&& (stage is SingleFlight || stage is Spawn) ==> !running
            &&& stage is SingleFlight ==> events.contains(
                ManualEvent::JobObserved(JobState::Missing),
            )
            &&& forall|k: int|
                0 <= k < actions.len() && (#[trigger] actions[k]) is SpawnJob ==> {
                    &&& !running
                    &&& events.contains(ManualEvent::JobObserved(JobState::Missing))
                    &&& events.contains(ManualEvent::ActiveJobs(false))
                }
        }),
    decreases events.len(),
{
    if events.len() > 0 {
        let front = events.drop_last();
        manual_invariant(running, front);
        let (stage, actions) = manual_trace(running, front);
        let all = manual_trace(running, events).1;
        assert(events[events.len() - 1] == events.last());
        assert forall|e: ManualEvent| front.contains(e) implies #[trigger] events.contains(e) by {
            let k = choose|k: int| 0 <= k < front.len() && front[k] == e;
            assert(events[k] == e);
        }
        assert(events.contains(events.last()));
        assert forall|k: int| 0 <= k < all.len() && (#[trigger] all[k]) is SpawnJob implies {
            &&& !running
            &&& events.contains(ManualEvent::JobObserved(JobState::Missing))
            &&& events.contains(ManualEvent::ActiveJobs(false))
        } by {
            if k < actions.len() {
                assert(all[k] == actions[k]);
            }
        }
    }
}

/// What is done at a step depends on the answers up to it alone.
proof fn later_answers_change_nothing(running: bool, events: Seq<ManualEvent>, k: int)
    requires
        0 <= k < events.len(),
    ensures
        manual_trace(running, events.take(k + 1)).1.len() == k + 1,
        manual_trace(running, events.take(k + 1)).1[k] == manual_trace(running, events).1[k],
    decreases events.len(),
{
    manual_invariant(running, events);
    manual_invariant(running, events.take(k + 1));
    if k + 1 == events.len() {
        assert(events.take(k + 1) =~= events);
    } else {
        let front = events.drop_last();
        later_answers_change_nothing(running, front, k);
        assert(front.take(k + 1) =~= events.take(k + 1));
        manual_invariant(running, front);
        assert(manual_trace(running, events).1[k] == manual_trace(running, front).1[k]);
    }
}

/// A request's Job is spawned only where it was found missing, no other Job
/// was active, and the request was not recorded as running: what has side
/// effects is never silently run again.
pub proof fn request_is_spawned_once_and_alone(running: bool, events: Seq<ManualEvent>, k: int)
    requires
        0 <= k < manual_trace(running, events).1.len(),
        manual_trace(running, events).1[k] is SpawnJob,
    ensures
        !running,
        events.take(k + 1).contains(ManualEvent::JobObserved(JobState::Missing)),
        events.take(k + 1).contains(ManualEvent::ActiveJobs(false)),
{
    manual_invariant(running, events);
    later_answers_change_nothing(running, events, k);
    manual_invariant(running, events.take(k + 1));
}

/// A request's end is recorded only where it was seen: a success answers a Job
/// that succeeded, a failure one that failed, and a lost end a Job that is gone
/// though the status records its request as running. Each of these is recorded
/// whenever it is seen, and it ends the drive.
pub proof fn only_an_end_that_was_seen_is_recorded(
    running: bool,
    stage: ManualStage,
    event: ManualEvent,
)
    ensures
        ({
            let (next, action) = manual_next(running, stage, event);
            &&& action == ManualAction::RecordEnd(ManualEnd::Succeeded) <==> stage is Observe
                && event == ManualEvent::JobObserved(JobState::Succeeded)
            &&& action == ManualAction::RecordEnd(ManualEnd::Failed) <==> stage is Observe && event
                == ManualEvent::JobObserved(JobState::Failed)
            &&& action == ManualAction::RecordEnd(ManualEnd::Lost) <==> stage is Observe && running
                && event == ManualEvent::JobObserved(JobState::Missing)
            &&& action is RecordEnd ==> next is Done
        }),
{
}

/// A Job that runs is left to run: nothing is recorded, and it is looked at
/// again in half a minute; so is a request that has to wait for another Job.
pub proof fn running_job_is_left_to_run(running: bool, stage: ManualStage, event: ManualEvent)
    ensures
        ({
            let (next, action) = manual_next(running, stage, event);
            &&& action is Stop <==> {
                ||| stage is Observe && event == ManualEvent::JobObserved(JobState::Running)
                ||| stage is SingleFlight && event == ManualEvent::ActiveJobs(true)
            }
            &&& action matches ManualAction::Stop { requeue_secs } ==> requeue_secs == 30 && next
                is Done
        }),
{
}

/// A request that is not recorded as running and whose Job is missing is
/// carried out, as soon as no other Job is active: its Job is spawned, and then
/// it is recorded as running. What belongs to another stage changes nothing.
pub proof fn new_request_is_spawned_and_recorded(
    running: bool,
    stage: ManualStage,
    event: ManualEvent,
)
    ensures
        ({
            let (next, action) = manual_next(running, stage, event);
            &&& action is CheckActiveJobs <==> stage is Observe && !running && event
                == ManualEvent::JobObserved(JobState::Missing)
            &&& action is CheckActiveJobs ==> next is SingleFlight
            &&& action is SpawnJob <==> stage is SingleFlight && event == ManualEvent::ActiveJobs(
                false,
            )
            &&& action is SpawnJob ==> next is Spawn
            &&& action is RecordRunning <==> stage is Spawn && event is Spawned
            &&& action matches ManualAction::RecordRunning { requeue_secs } ==> requeue_secs == 30
                && next is Done
            &&& action is Ignore ==> next == stage
            &&& stage is Done ==> action is Ignore
        }),
{
}

/// What is done at a step answers the event of that step.
proof fn action_answers_its_event(running: bool, events: Seq<ManualEvent>, k: int)
    requires
        0 <= k < events.len(),
    ensures
        manual_trace(running, events).1.len() == events.len(),
        manual_trace(running, events).1[k] == manual_next(
            running,
            manual_trace(running, events.take(k)).0,
            events[k],
        ).1,
{
    manual_invariant(running, events);
    manual_invariant(running, events.take(k));
    later_answers_change_nothing(running, events, k);
    assert(events.take(k + 1).drop_last() =~= events.take(k));
    assert(events.take(k + 1).last() == events[k]);
}

/// In every run of answers an end is recorded only for what was seen at that
/// step, and a Job that was seen running is never recorded as ended.
pub proof fn recorded_end_answers_the_job(running: bool, events: Seq<ManualEvent>, k: int)
    requires
        0 <= k < events.len(),
    ensures
        ({
            let action = manual_trace(running, events).1[k];
            &&& action == ManualAction::RecordEnd(ManualEnd::Succeeded) ==> events[k]
                == ManualEvent::JobObserved(JobState::Succeeded)
            &&& action == ManualAction::RecordEnd(ManualEnd::Failed) ==> events[k]
                == ManualEvent::JobObserved(JobState::Failed)
            &&& action == ManualAction::RecordEnd(ManualEnd::Lost) ==> running && events[k]
                == ManualEvent::JobObserved(JobState::Missing)
            &&& events[k] == ManualEvent::JobObserved(JobState::Running) ==> !(action is RecordEnd)
            &&& events[0] == ManualEvent::JobObserved(JobState::Running) ==> manual_trace(
                running,
                events,
            ).1[0] is Stop
        }),
{
    action_answers_its_event(running, events, k);
    action_answers_its_event(running, events, 0);
    only_an_end_that_was_seen_is_recorded(
        running,
        manual_trace(running, events.take(k)).0,
        events[k],
    );
    assert(events.take(0) =~= Seq::<ManualEvent>::empty());
}

/// An end is recorded under what it was: a success as one, a failure and a lost
/// end as failures, and each of them answers the request for good.
pub proof fn end_is_recorded_as_what_it_was(end: ManualEnd)
    ensures
        end_phase(end) is Succeeded <==> end == ManualEnd::Succeeded,
        end_phase(end) is Failed <==> end == ManualEnd::Failed || end == ManualEnd::Lost,
        is_end(end_phase(end)),
        !is_end(ManualRunPhase::Running),
{
}

/// A request is new until the status records it: it is read from its
/// annotations where the status is silent on it, an unreadable one is refused
/// with what was wrong, and one that is on record is left to its phase.
pub proof fn request_is_new_until_recorded(
    raw: Option<Seq<char>>,
    status: Option<ManualRunStatus>,
    parsed: RequestParsed,
)
    ensures
        ({
            let on_record = status is Some && raw is Some && status->0.requested_at is Some
                && status->0.requested_at->0@ == raw->0 && status->0.phase is Some;
            let unended = on_record && !(status->0.phase->0 is Succeeded)
                && !(status->0.phase->0 is Failed);
            let new = open_request(raw, status, parsed);
            let driven = open_recorded_request(raw, status, parsed);
            &&& new is Err <==> raw is Some && !on_record && parsed is Malformed
            &&& new is Err ==> new->Err_0 == ErrorView::Validation(parsed->Malformed_0@)
            &&& new is Ok && new->Ok_0 is Some <==> raw is Some && !on_record && parsed is Request
            &&& new is Ok && new->Ok_0 is Some ==> new->Ok_0->0 == parsed->Request_0
            &&& driven is Some <==> unended && parsed is Request
            &&& driven is Some ==> driven->0 == parsed->Request_0
        }),
{
}

/// A request is recorded as running only where the status names this very
/// request, in this very mode, and says so.
pub proof fn running_is_recorded_per_request(
    status: Option<ManualRunStatus>,
    raw: Seq<char>,
    mode: ManualRunMode,
)
    ensures
        recorded_running(status, raw, mode) <==> {
            &&& status is Some
            &&& status->0.requested_at is Some && status->0.requested_at->0@ == raw
            &&& status->0.mode is Some && status->0.mode->0 == mode
            &&& status->0.phase is Some && status->0.phase->0 is Running
        },
{
}

} // verus!
