//! The verdict on a finished bootstrap Job: what its result and its terminal
//! state amount to, and which way a failure is routed.
use crate::conditions::ReadyOutcome;
use crate::text::{is_text, opt_text, same_text};
use vstd::prelude::*;

verus! {

/// Where a repository stands in its life.
#[derive(Debug, PartialEq, Eq)]
pub enum RepositoryPhase {
    Pending,
    Initializing,
    Ready,
    Degraded,
    Failed,
    /// A phase that a newer operator wrote.
    Unknown(String),
}

/// The standard conditions that a phase shows: only `Ready` is ready, only
/// `Failed` is stalled, and everything else is still being worked on.
pub open spec fn phase_outcome(phase: RepositoryPhase) -> ReadyOutcome {
    match phase {
        RepositoryPhase::Ready => ReadyOutcome::Ready,
        RepositoryPhase::Failed => ReadyOutcome::Stalled,
        _ => ReadyOutcome::Reconciling,
    }
}

/// The standard conditions that a phase shows.
pub fn ready_outcome_for_phase(phase: &RepositoryPhase) -> (outcome: ReadyOutcome)
    ensures
        outcome == phase_outcome(*phase),
{
    match phase {
        RepositoryPhase::Ready => ReadyOutcome::Ready,
        RepositoryPhase::Failed => ReadyOutcome::Stalled,
        _ => ReadyOutcome::Reconciling,
    }
}

/// The word a phase is written as.
pub open spec fn phase_word(phase: RepositoryPhase) -> Seq<char> {
    match phase {
        RepositoryPhase::Pending => "Pending"@,
        RepositoryPhase::Initializing => "Initializing"@,
        RepositoryPhase::Ready => "Ready"@,
        RepositoryPhase::Degraded => "Degraded"@,
        RepositoryPhase::Failed => "Failed"@,
        RepositoryPhase::Unknown(word) => word@,
    }
}

impl RepositoryPhase {
    /// The word this phase is written as.
    pub fn label(&self) -> (word: String)
        ensures
            word@ == phase_word(*self),
    {
        match self {
            RepositoryPhase::Pending => "Pending".to_owned(),
            RepositoryPhase::Initializing => "Initializing".to_owned(),
            RepositoryPhase::Ready => "Ready".to_owned(),
            RepositoryPhase::Degraded => "Degraded".to_owned(),
            RepositoryPhase::Failed => "Failed".to_owned(),
            RepositoryPhase::Unknown(word) => word.clone(),
        }
    }
}

/// Whether an object is recorded as `Failed` at exactly its current
/// generation.
pub open spec fn terminal_at(
    phase: Option<RepositoryPhase>,
    observed: Option<i64>,
    current: Option<i64>,
) -> bool {
    phase is Some && phase->0 is Failed && observed is Some && observed == current
}

/// Whether an object is recorded as `Failed` at exactly its current
/// generation, so that nothing but a change can help.
pub fn is_terminal_for_generation(
    phase: &Option<RepositoryPhase>,
    observed: Option<i64>,
    current: Option<i64>,
) -> (terminal: bool)
    ensures
        terminal == terminal_at(*phase, observed, current),
{
    let failed = match phase {
        Some(RepositoryPhase::Failed) => true,
        _ => false,
    };
    match (observed, current) {
        (Some(o), Some(c)) => failed && o == c,
        _ => false,
    }
}

/// Whether a terminally failed repository is left alone: it failed at this
/// generation and with this very revision of its credential Secret.
pub open spec fn gate_holds(
    phase: Option<RepositoryPhase>,
    observed: Option<i64>,
    current: Option<i64>,
    recorded: Option<Seq<char>>,
    revision: Seq<char>,
) -> bool {
    terminal_at(phase, observed, current) && recorded == Some(revision)
}

/// Whether a terminally failed repository is left alone until its spec or its
/// credential Secret changes.
pub fn terminal_gate_holds(
    phase: &Option<RepositoryPhase>,
    observed: Option<i64>,
    current: Option<i64>,
    recorded: &Option<String>,
    revision: &str,
) -> (holds: bool)
    ensures
        holds == gate_holds(*phase, observed, current, opt_text(*recorded), revision@),
{
    is_terminal_for_generation(phase, observed, current) && crate::text::is_text(
        recorded,
        revision,
    )
}

/// A change of the generation or of the credential Secret ends the hold.
pub proof fn gate_reopens_on_change(
    phase: Option<RepositoryPhase>,
    observed: Option<i64>,
    current: Option<i64>,
    recorded: Option<Seq<char>>,
    revision: Seq<char>,
)
    requires
        observed != current || recorded != Some(revision),
    ensures
        !gate_holds(phase, observed, current, recorded, revision),
{
}

/// What kopia said was wrong.
#[derive(Clone, Copy, Debug, PartialEq, Eq, Structural)]
pub enum KopiaErrorClass {
    AccessDenied,
    PermissionDenied,
    AuthFailure,
    RepositoryUnavailable,
    NotFound,
    Locked,
    SourceError,
    Unknown,
}

/// The ways a seeding bootstrap fails that its relaunch resumes.
#[derive(Clone, Copy, Debug, PartialEq, Eq, Structural)]
pub enum SeedFailure {
    SourceNotFound,
    SourceEmpty,
    Incomplete,
    LeftEmpty,
}

/// What a mover wrote as the class of its failure.
#[derive(Clone, Copy, Debug, PartialEq, Eq, Structural)]
pub enum FailureClass {
    Kopia(KopiaErrorClass),
    NotInitialized,
    Seed(SeedFailure),
    InternalInconsistency,
}

/// How a mover Job ended.
#[derive(Clone, Copy, Debug, PartialEq, Eq, Structural)]
pub enum MoverJobTerminal {
    Complete,
    Failed { deadline_exceeded: bool },
}

/// A condition of a Job.
pub struct JobCondition {
    pub type_: String,
    pub status: String,
    pub reason: Option<String>,
}

/// What the status of a Job says of its end.
pub struct JobEnd {
    pub conditions: Vec<JobCondition>,
    pub succeeded: Option<i32>,
}

/// The reason of a Job that ran into its deadline.
pub const DEADLINE_EXCEEDED_REASON: &'static str = "DeadlineExceeded";

/// How a Job ended by one of its conditions.
pub open spec fn condition_end(c: JobCondition) -> Option<MoverJobTerminal> {
    if c.status@ != "True"@ {
        None
    } else if c.type_@ == "Complete"@ {
        Some(MoverJobTerminal::Complete)
    } else if c.type_@ == "Failed"@ {
        Some(
            MoverJobTerminal::Failed {
                deadline_exceeded: opt_text(c.reason) == Some(DEADLINE_EXCEEDED_REASON@),
            },
        )
    } else {
        None
    }
}

/// How a Job ended by the first of its conditions that says so.
pub open spec fn conditions_end(conds: Seq<JobCondition>) -> Option<MoverJobTerminal>
    decreases conds.len(),
{
    if conds.len() == 0 {
        None
    } else if condition_end(conds[0]) is Some {
        condition_end(conds[0])
    } else {
        conditions_end(conds.skip(1))
    }
}

/// How a Job ended; a Job without such a condition has ended well once a pod
/// of it succeeded.
pub open spec fn job_end(end: JobEnd) -> Option<MoverJobTerminal> {
    match conditions_end(end.conditions@) {
        Some(t) => Some(t),
        None => if end.succeeded is Some && end.succeeded->0 > 0 {
            Some(MoverJobTerminal::Complete)
        } else {
            None
        },
    }
}

fn end_of_condition(c: &JobCondition) -> (end: Option<MoverJobTerminal>)
    ensures
        end == condition_end(*c),
{
    if !same_text(c.status.as_str(), "True") {
        return None;
    }
    if same_text(c.type_.as_str(), "Complete") {
        return Some(MoverJobTerminal::Complete);
    }
    if same_text(c.type_.as_str(), "Failed") {
        let deadline_exceeded = is_text(&c.reason, DEADLINE_EXCEEDED_REASON);
        return Some(MoverJobTerminal::Failed { deadline_exceeded });
    }
    None
}

/// Reads how a Job ended, and whether its deadline ended it; `None` while it
/// runs.
pub fn mover_job_terminal(end: &JobEnd) -> (terminal: Option<MoverJobTerminal>)
    ensures
        terminal == job_end(*end),
{
    let mut i: usize = 0;
    proof {
        assert(end.conditions@.skip(0) =~= end.conditions@);
    }
    while i < end.conditions.len()
        invariant
            i <= end.conditions.len(),
            conditions_end(end.conditions@) == conditions_end(end.conditions@.skip(i as int)),
        decreases end.conditions.len() - i,
    {
        let ghost rest = end.conditions@.skip(i as int);
        proof {
            assert(rest[0] == end.conditions@[i as int]);
            assert(rest.skip(1) =~= end.conditions@.skip(i + 1));
        }
        let by = end_of_condition(&end.conditions[i]);
        if by.is_some() {
            return by;
        }
        i = i + 1;
    }
    match end.succeeded {
        Some(n) => if n > 0 {
            Some(MoverJobTerminal::Complete)
        } else {
            None
        },
        None => None,
    }
}

/// Why a bootstrap did not succeed.
#[derive(Debug, PartialEq, Eq)]
pub enum BootstrapFailure {
    Backend { class: KopiaErrorClass, message: String },
    JobFailedWithoutResult { job_name: String },
    JobDeadlineExceeded { job_name: String, deadline_secs: i64 },
    RepositoryNotInitialized,
    Seed { failure: SeedFailure, message: String },
    SeedMoverTooOld,
    InternalInconsistency { message: String },
}

/// What a [`BootstrapFailure`] says, as plain values.
#[verifier::ext_equal]
pub enum BootstrapFailureView {
    Backend { class: KopiaErrorClass, message: Seq<char> },
    JobFailedWithoutResult { job_name: Seq<char> },
    JobDeadlineExceeded { job_name: Seq<char>, deadline_secs: int },
    RepositoryNotInitialized,
    Seed { failure: SeedFailure, message: Seq<char> },
    SeedMoverTooOld,
    InternalInconsistency { message: Seq<char> },
}

impl View for BootstrapFailure {
    type V = BootstrapFailureView;

    open spec fn view(&self) -> BootstrapFailureView {
        match *self {
            BootstrapFailure::Backend { class, message } => BootstrapFailureView::Backend {
                class,
                message: message@,
            },
            BootstrapFailure::JobFailedWithoutResult {
                job_name,
            } => BootstrapFailureView::JobFailedWithoutResult { job_name: job_name@ },
            BootstrapFailure::JobDeadlineExceeded {
                job_name,
                deadline_secs,
            } => BootstrapFailureView::JobDeadlineExceeded {
                job_name: job_name@,
                deadline_secs: deadline_secs as int,
            },
            BootstrapFailure::RepositoryNotInitialized => BootstrapFailureView::RepositoryNotInitialized,
            BootstrapFailure::Seed { failure, message } => BootstrapFailureView::Seed {
                failure,
                message: message@,
            },
            BootstrapFailure::SeedMoverTooOld => BootstrapFailureView::SeedMoverTooOld,
            BootstrapFailure::InternalInconsistency {
                message,
            } => BootstrapFailureView::InternalInconsistency { message: message@ },
        }
    }
}

/// Which way a bootstrap failure is handled.
#[derive(Clone, Copy, Debug, PartialEq, Eq, Structural)]
pub enum FailureRoute {
    /// Recycle as an outage that the backend sensor counts.
    OutageSensor,
    /// Recycle with the failure streak stamped.
    Recycle,
    /// Recycle promptly, without a streak.
    SeedRetry,
    /// Stop until something changes.
    Terminal,
}

/// The route of a failure: an outage of a repository that was once
/// bootstrapped feeds the sensor, before anything else is asked.
pub open spec fn route_of(failure: BootstrapFailureView, bootstrapped: bool) -> FailureRoute {
    match failure {
        BootstrapFailureView::Backend { class, .. } => if bootstrapped && class
            == KopiaErrorClass::RepositoryUnavailable {
            FailureRoute::OutageSensor
        } else {
            FailureRoute::Terminal
        },
        BootstrapFailureView::JobDeadlineExceeded { .. } => if bootstrapped {
            FailureRoute::OutageSensor
        } else {
            FailureRoute::Recycle
        },
        BootstrapFailureView::JobFailedWithoutResult { .. } => FailureRoute::Recycle,
        BootstrapFailureView::Seed { .. } => FailureRoute::SeedRetry,
        _ => FailureRoute::Terminal,
    }
}

/// Whether a failure is an outage of a backend that was once bootstrapped: it
/// was unavailable, or too slow for the deadline of its Job.
pub open spec fn is_bootstrapped_outage(failure: BootstrapFailureView, bootstrapped: bool) -> bool {
    bootstrapped && match failure {
        BootstrapFailureView::Backend { class, .. } => class
            == KopiaErrorClass::RepositoryUnavailable,
        BootstrapFailureView::JobDeadlineExceeded { .. } => true,
        _ => false,
    }
}

/// Whether a failure is worth another run: there was no verdict of the
/// backend, or the next run resumes a seed.
pub open spec fn is_worth_a_retry(failure: BootstrapFailureView) -> bool {
    failure is JobFailedWithoutResult || failure is JobDeadlineExceeded || failure is Seed
}

impl BootstrapFailure {
    /// Whether this failure is an outage of a backend that was once
    /// bootstrapped.
    pub fn retryable_outage_for_bootstrapped(&self, bootstrapped: bool) -> (outage: bool)
        ensures
            outage == is_bootstrapped_outage(self@, bootstrapped),
    {
        bootstrapped && match self {
            BootstrapFailure::Backend { class, .. } => *class
                == KopiaErrorClass::RepositoryUnavailable,
            BootstrapFailure::JobDeadlineExceeded { .. } => true,
            _ => false,
        }
    }

    /// Whether this failure is worth another run.
    pub fn recycles_for_retry(&self) -> (recycles: bool)
        ensures
            recycles == is_worth_a_retry(self@),
    {
        match self {
            BootstrapFailure::JobFailedWithoutResult { .. } => true,
            BootstrapFailure::JobDeadlineExceeded { .. } => true,
            BootstrapFailure::Seed { .. } => true,
            _ => false,
        }
    }

    /// Which way this failure is handled.
    pub fn route(&self, bootstrapped: bool) -> (route: FailureRoute)
        ensures
            route == route_of(self@, bootstrapped),
    {
        if self.retryable_outage_for_bootstrapped(bootstrapped) {
            return FailureRoute::OutageSensor;
        }
        match self {
            BootstrapFailure::Seed { .. } => FailureRoute::SeedRetry,
            _ => if self.recycles_for_retry() {
                FailureRoute::Recycle
            } else {
                FailureRoute::Terminal
            },
        }
    }
}

/// What the mover wrote about a failed run.
pub struct FailureBlock {
    pub class: FailureClass,
    pub message: String,
}

/// The generic message of an unsuccessful result that says no more.
pub const GENERIC_FAILURE_MESSAGE: &'static str = "bootstrap failed";

/// The part of a bootstrap result that decides its outcome.
pub struct ResultVerdict {
    pub success: bool,
    pub acknowledges_seed: bool,
    pub failure: Option<FailureBlock>,
}

/// What a finished bootstrap Job amounts to.
#[derive(Debug, PartialEq, Eq)]
pub enum BootstrapOutcome {
    /// The Job is complete and its result cannot be read yet.
    ResultPending,
    Failed(BootstrapFailure),
    Succeeded,
}

/// What a [`BootstrapOutcome`] says, as plain values.
#[verifier::ext_equal]
pub enum BootstrapOutcomeView {
    ResultPending,
    Failed(BootstrapFailureView),
    Succeeded,
}

impl View for BootstrapOutcome {
    type V = BootstrapOutcomeView;

    open spec fn view(&self) -> BootstrapOutcomeView {
        match *self {
            BootstrapOutcome::ResultPending => BootstrapOutcomeView::ResultPending,
            BootstrapOutcome::Failed(f) => BootstrapOutcomeView::Failed(f@),
            BootstrapOutcome::Succeeded => BootstrapOutcomeView::Succeeded,
        }
    }
}

/// The failure that a mover's own words stand for.
pub open spec fn reported_failure(failure: Option<FailureBlock>) -> BootstrapFailureView {
    match failure {
        None => BootstrapFailureView::Backend {
            class: KopiaErrorClass::Unknown,
            message: GENERIC_FAILURE_MESSAGE@,
        },
        Some(block) => match block.class {
            FailureClass::Kopia(class) => BootstrapFailureView::Backend {
                class,
                message: block.message@,
            },
            FailureClass::NotInitialized => BootstrapFailureView::RepositoryNotInitialized,
            FailureClass::Seed(failure) => BootstrapFailureView::Seed {
                failure,
                message: block.message@,
            },
            FailureClass::InternalInconsistency => BootstrapFailureView::InternalInconsistency {
                message: block.message@,
            },
        },
    }
}

/// The outcome of a bootstrap Job. A result that was written outranks how the
/// Job ended, and a success that was to seed but does not acknowledge the seed
/// is refused.
pub open spec fn outcome_of(
    result: Option<ResultVerdict>,
    terminal: MoverJobTerminal,
    job_name: Seq<char>,
    seed_armed: bool,
    deadline_secs: int,
) -> BootstrapOutcomeView {
    match result {
        Some(r) => if !r.success {
            BootstrapOutcomeView::Failed(reported_failure(r.failure))
        } else if seed_armed && !r.acknowledges_seed {
            BootstrapOutcomeView::Failed(BootstrapFailureView::SeedMoverTooOld)
        } else {
            BootstrapOutcomeView::Succeeded
        },
        None => match terminal {
            MoverJobTerminal::Complete => BootstrapOutcomeView::ResultPending,
            MoverJobTerminal::Failed { deadline_exceeded } => if deadline_exceeded {
                BootstrapOutcomeView::Failed(
                    BootstrapFailureView::JobDeadlineExceeded { job_name, deadline_secs },
                )
            } else {
                BootstrapOutcomeView::Failed(
                    BootstrapFailureView::JobFailedWithoutResult { job_name },
                )
            },
        },
    }
}

/// Classifies a finished bootstrap Job by its result and by how it ended.
pub fn bootstrap_outcome(
    result: &Option<ResultVerdict>,
    terminal: MoverJobTerminal,
    job_name: &str,
    seed_armed: bool,
    deadline_secs: i64,
) -> (outcome: BootstrapOutcome)
    ensures
        outcome@ == outcome_of(*result, terminal, job_name@, seed_armed, deadline_secs as int),
{
    match result {
        Some(r) => {
            if !r.success {
                let failure = match &r.failure {
                    None => BootstrapFailure::Backend {
                        class: KopiaErrorClass::Unknown,
                        message: GENERIC_FAILURE_MESSAGE.to_owned(),
                    },
                    Some(block) => match block.class {
                        FailureClass::Kopia(class) => BootstrapFailure::Backend {
                            class,
                            message: block.message.clone(),
                        },
                        FailureClass::NotInitialized => BootstrapFailure::RepositoryNotInitialized,
                        FailureClass::Seed(failure) => BootstrapFailure::Seed {
                            failure,
                            message: block.message.clone(),
                        },
                        FailureClass::InternalInconsistency => BootstrapFailure::InternalInconsistency {
                            message: block.message.clone(),
                        },
                    },
                };
                BootstrapOutcome::Failed(failure)
            } else if seed_armed && !r.acknowledges_seed {
                BootstrapOutcome::Failed(BootstrapFailure::SeedMoverTooOld)
            } else {
                BootstrapOutcome::Succeeded
            }
        },
        None => match terminal {
            MoverJobTerminal::Complete => BootstrapOutcome::ResultPending,
            MoverJobTerminal::Failed { deadline_exceeded } => {
                if deadline_exceeded {
                    BootstrapOutcome::Failed(
                        BootstrapFailure::JobDeadlineExceeded {
                            job_name: job_name.to_owned(),
                            deadline_secs,
                        },
                    )
                } else {
                    BootstrapOutcome::Failed(
                        BootstrapFailure::JobFailedWithoutResult { job_name: job_name.to_owned() },
                    )
                }
            },
        },
    }
}

/// A result that the mover wrote decides alone: how the Job ended does not
/// change the outcome.
pub proof fn written_result_outranks_the_job(
    result: ResultVerdict,
    one: MoverJobTerminal,
    other: MoverJobTerminal,
    job_name: Seq<char>,
    seed_armed: bool,
    deadline_secs: int,
)
    ensures
        outcome_of(Some(result), one, job_name, seed_armed, deadline_secs) == outcome_of(
            Some(result),
            other,
            job_name,
            seed_armed,
            deadline_secs,
        ),
{
}

/// A bootstrap that was to seed never counts as a success without the mover's
/// acknowledgement.
pub proof fn armed_success_needs_acknowledgement(
    result: Option<ResultVerdict>,
    terminal: MoverJobTerminal,
    job_name: Seq<char>,
    deadline_secs: int,
)
    ensures
        outcome_of(result, terminal, job_name, true, deadline_secs) is Succeeded ==> result is Some
            && result->0.success && result->0.acknowledges_seed,
{
}

/// An outage feeds the sensor before it could be retried in any other way, and
/// what is worth no other run stops.
pub proof fn outage_is_asked_first(failure: BootstrapFailureView, bootstrapped: bool)
    ensures
        route_of(failure, bootstrapped) == FailureRoute::OutageSensor <==> is_bootstrapped_outage(
            failure,
            bootstrapped,
        ),
        route_of(failure, bootstrapped) == FailureRoute::Terminal <==> !is_bootstrapped_outage(
            failure,
            bootstrapped,
        ) && !is_worth_a_retry(failure),
{
}

/// A repository that never bootstrapped is never routed through the outage
/// sensor, so its first misconfiguration fails loudly or retries plainly.
pub proof fn sensor_needs_a_bootstrapped_repository(failure: BootstrapFailureView)
    ensures
        route_of(failure, false) != FailureRoute::OutageSensor,
{
}

/// A phase shows one outcome: a repository is ready in no phase but `Ready`,
/// stalled in no phase but `Failed`, and worked on in every other, a phase of a
/// newer operator among them.
pub proof fn phase_shows_its_outcome(phase: RepositoryPhase)
    ensures
        phase_outcome(phase) == ReadyOutcome::Ready <==> phase is Ready,
        phase_outcome(phase) == ReadyOutcome::Stalled <==> phase is Failed,
        phase_outcome(phase) == ReadyOutcome::Reconciling <==> !(phase is Ready) && !(phase
            is Failed),
{
}

/// The phases of this build are written as different words, each by its own
/// name, and a phase that it does not know is written back as it was read.
pub proof fn phases_are_told_apart(one: RepositoryPhase, other: RepositoryPhase)
    ensures
        !(one is Unknown) && !(other is Unknown) && phase_word(one) == phase_word(other) ==> one
            == other,
        one matches RepositoryPhase::Unknown(word) ==> phase_word(one) == word@,
        one is Ready ==> phase_word(one) == "Ready"@,
        one is Failed ==> phase_word(one) == "Failed"@,
        one is Degraded ==> phase_word(one) == "Degraded"@,
        one is Pending ==> phase_word(one) == "Pending"@,
        one is Initializing ==> phase_word(one) == "Initializing"@,
{
    reveal_strlit("Pending");
    reveal_strlit("Initializing");
    reveal_strlit("Ready");
    reveal_strlit("Degraded");
    reveal_strlit("Failed");
    assert("Pending"@.len() == 7 && "Initializing"@.len() == 12 && "Ready"@.len() == 5
        && "Degraded"@.len() == 8 && "Failed"@.len() == 6);
}

/// A repository is left alone only where it is recorded as `Failed` at this
/// generation and with this revision of its Secret, and then it always is.
pub proof fn gate_holds_a_terminal_failure(
    phase: Option<RepositoryPhase>,
    observed: Option<i64>,
    current: Option<i64>,
    recorded: Option<Seq<char>>,
    revision: Seq<char>,
)
    ensures
        gate_holds(phase, observed, current, recorded, revision) <==> {
            &&& phase == Some(RepositoryPhase::Failed)
            &&& observed is Some && current is Some && observed->0 == current->0
            &&& recorded is Some && recorded->0 == revision
        },
        terminal_at(phase, observed, current) <==> phase == Some(RepositoryPhase::Failed)
            && observed is Some && current is Some && observed->0 == current->0,
{
}

/// Whether a condition of a Job says that it has ended.
pub open spec fn says_ended(c: JobCondition) -> bool {
    c.status@ == "True"@ && (c.type_@ == "Complete"@ || c.type_@ == "Failed"@)
}

/// Whether a terminal state is the one that a condition tells: complete or
/// failed by its type, and ended by the deadline where its reason says so.
pub open spec fn told_by_condition(t: MoverJobTerminal, c: JobCondition) -> bool {
    &&& t is Complete <==> c.type_@ == "Complete"@
    &&& t is Failed <==> c.type_@ == "Failed"@
    &&& t matches MoverJobTerminal::Failed { deadline_exceeded } ==> (deadline_exceeded
        <==> c.reason is Some && c.reason->0@ == "DeadlineExceeded"@)
}

proof fn first_ending_condition_tells(conds: Seq<JobCondition>)
    ensures
        conditions_end(conds) is None <==> forall|k: int|
            0 <= k < conds.len() ==> !says_ended(#[trigger] conds[k]),
        conditions_end(conds) matches Some(t) ==> exists|k: int|
            0 <= k < conds.len() && says_ended(#[trigger] conds[k]) && told_by_condition(t, conds[k])
                && forall|j: int| 0 <= j < k ==> !says_ended(#[trigger] conds[j]),
    decreases conds.len(),
{
    reveal_strlit("Complete");
    reveal_strlit("Failed");
    assert("Complete"@.len() == 8 && "Failed"@.len() == 6);
    if conds.len() > 0 {
        let rest = conds.skip(1);
        first_ending_condition_tells(rest);
        if says_ended(conds[0]) {
            assert(condition_end(conds[0]) is Some);
            assert(told_by_condition(conditions_end(conds)->0, conds[0]));
        } else {
            assert(condition_end(conds[0]) is None);
            assert(conditions_end(conds) == conditions_end(rest));
            if conditions_end(rest) is Some {
                let t = conditions_end(rest)->0;
                let k = choose|k: int|
                    0 <= k < rest.len() && says_ended(#[trigger] rest[k]) && told_by_condition(
                        t,
                        rest[k],
                    ) && forall|j: int| 0 <= j < k ==> !says_ended(#[trigger] rest[j]);
                assert(conds[k + 1] == rest[k]);
                assert forall|j: int| 0 <= j < k + 1 implies !says_ended(#[trigger] conds[j]) by {
                    if j > 0 {
                        assert(conds[j] == rest[j - 1]);
                    }
                }
            } else {
                assert forall|k: int| 0 <= k < conds.len() implies !says_ended(
                    #[trigger] conds[k],
                ) by {
                    if k > 0 {
                        assert(conds[k] == rest[k - 1]);
                    }
                }
            }
        }
        if forall|k: int| 0 <= k < conds.len() ==> !says_ended(#[trigger] conds[k]) {
            assert forall|k: int| 0 <= k < rest.len() implies !says_ended(#[trigger] rest[k]) by {
                assert(rest[k] == conds[k + 1]);
            }
        }
    }
}

/// A Job ends by the first of its conditions that says so, complete or failed
/// as that one tells; where none does it is complete once a pod succeeded, and
/// it runs for as long as neither holds.
pub proof fn job_ends_by_its_first_verdict(end: JobEnd)
    ensures
        ({
            let conds = end.conditions@;
            let silent = forall|k: int| 0 <= k < conds.len() ==> !says_ended(#[trigger] conds[k]);
            let succeeded = end.succeeded is Some && end.succeeded->0 >= 1;
            &&& job_end(end) is None <==> silent && !succeeded
            &&& silent && succeeded ==> job_end(end) == Some(MoverJobTerminal::Complete)
            &&& !silent ==> job_end(end) is Some && exists|k: int|
                0 <= k < conds.len() && says_ended(#[trigger] conds[k]) && told_by_condition(
                    job_end(end)->0,
                    conds[k],
                ) && forall|j: int| 0 <= j < k ==> !says_ended(#[trigger] conds[j])
        }),
{
    first_ending_condition_tells(end.conditions@);
}

/// Every failure is handled in the one way that can help: an outage of a
/// backend that was bootstrapped once feeds the sensor, a seed is retried
/// promptly, a run without a verdict is recycled, and whatever the backend or
/// the mover says for good stops.
pub proof fn failure_takes_the_way_that_helps(failure: BootstrapFailureView, bootstrapped: bool)
    ensures
        ({
            let route = route_of(failure, bootstrapped);
            let unavailable = failure matches BootstrapFailureView::Backend { class, .. } && class
                == KopiaErrorClass::RepositoryUnavailable;
            let late = failure is JobDeadlineExceeded;
            &&& route == FailureRoute::OutageSensor <==> bootstrapped && (unavailable || late)
            &&& route == FailureRoute::SeedRetry <==> failure is Seed
            &&& route == FailureRoute::Recycle <==> failure is JobFailedWithoutResult || (late
                && !bootstrapped)
            &&& route == FailureRoute::Terminal <==> {
                ||| failure is Backend && !(unavailable && bootstrapped)
                ||| failure is RepositoryNotInitialized
                ||| failure is SeedMoverTooOld
                ||| failure is InternalInconsistency
            }
            &&& is_bootstrapped_outage(failure, bootstrapped) <==> bootstrapped && (unavailable
                || late)
            &&& is_worth_a_retry(failure) <==> failure is JobFailedWithoutResult || late || failure
                is Seed
        }),
{
}

/// What a finished Job amounts to: it succeeded where its result says so and,
/// where it was to seed, acknowledges the seed; it is waited for where it is
/// complete and wrote nothing; and without a result it failed as the Job did,
/// under the Job's name and deadline.
pub proof fn outcome_follows_result_then_job(
    result: Option<ResultVerdict>,
    terminal: MoverJobTerminal,
    job_name: Seq<char>,
    seed_armed: bool,
    deadline_secs: int,
)
    ensures
        ({
            let o = outcome_of(result, terminal, job_name, seed_armed, deadline_secs);
            let good = result is Some && result->0.success;
            let unacknowledged = seed_armed && !result->0.acknowledges_seed;
            &&& o is Succeeded <==> good && !unacknowledged
            &&& o is ResultPending <==> result is None && terminal is Complete
            &&& o == BootstrapOutcomeView::Failed(BootstrapFailureView::SeedMoverTooOld) <==> good
                && unacknowledged
            &&& result is Some && !result->0.success ==> o is Failed
            &&& result is None && terminal == (MoverJobTerminal::Failed { deadline_exceeded: true })
                ==> o == BootstrapOutcomeView::Failed(
                BootstrapFailureView::JobDeadlineExceeded { job_name, deadline_secs },
            )
            &&& result is None && terminal == (MoverJobTerminal::Failed {
                deadline_exceeded: false,
            }) ==> o == BootstrapOutcomeView::Failed(
                BootstrapFailureView::JobFailedWithoutResult { job_name },
            )
        }),
{
}

/// A mover is taken at its word: the class and the message that it wrote are
/// those of the failure, and one that wrote neither failed for a reason that
/// nobody knows.
pub proof fn mover_is_taken_at_its_word(
    result: ResultVerdict,
    terminal: MoverJobTerminal,
    job_name: Seq<char>,
    seed_armed: bool,
    deadline_secs: int,
)
    requires
        !result.success,
    ensures
        ({
            let o = outcome_of(Some(result), terminal, job_name, seed_armed, deadline_secs);
            let f = o->Failed_0;
            &&& o is Failed
            &&& result.failure is None ==> f is Backend && f->Backend_class
                == KopiaErrorClass::Unknown && f->Backend_message == "bootstrap failed"@
            &&& result.failure matches Some(block) ==> {
                &&& f is Backend <==> block.class is Kopia
                &&& f is RepositoryNotInitialized <==> block.class is NotInitialized
                &&& f is Seed <==> block.class is Seed
                &&& f is InternalInconsistency <==> block.class is InternalInconsistency
                &&& f is Backend ==> FailureClass::Kopia(f->Backend_class) == block.class
                    && f->Backend_message == block.message@
                &&& f is Seed ==> FailureClass::Seed(f->Seed_failure) == block.class
                    && f->Seed_message == block.message@
                &&& f is InternalInconsistency ==> f->InternalInconsistency_message
                    == block.message@
            }
        }),
{
}

} // verus!
