//! How a seed that migrates from a repository is armed: its source is looked
//! up and held against the repository first, and only then are Secrets touched.
use crate::backend::Backend;
use crate::error::{Error, ErrorView};
use crate::seed_messages::{
    bare_path_seed_source_message, bare_path_seed_source_text, waiting_for_seed_source_message,
    waiting_for_seed_source_text,
};
use crate::seed_run::{
    migrate_source_backend_park, opt_park, pair_park, parked_on_source, BackendPair, SeedPark,
    SeedParkView, SeedSpec,
};
use vstd::prelude::*;

verus! {

/// How a source that was found and is ready holds a seed back: a filesystem
/// path without a volume, which no Job can mount, and then what its backend and
/// the repository's own come to.
pub open spec fn source_park(
    source_description: Seq<char>,
    backend: Backend,
    pair: BackendPair,
) -> Option<SeedParkView> {
    if backend.path is Some && backend.volume is None {
        Some(parked_on_source(bare_path_seed_source_text(source_description, backend.path->0@)))
    } else {
        pair_park(source_description, pair)
    }
}

/// Decides whether a source that was found and is ready holds a seed back.
pub fn migrate_source_park(source_description: &str, backend: &Backend, pair: &BackendPair) -> (park:
    Option<SeedPark>)
    ensures
        opt_park(park) == source_park(source_description@, *backend, *pair),
{
    if let Some(path) = &backend.path {
        if backend.volume.is_none() {
            return Some(
                SeedPark::source_not_usable(
                    bare_path_seed_source_message(source_description, path.as_str()),
                ),
            );
        }
    }
    migrate_source_backend_park(source_description, pair)
}

/// Where the arming of a seed stands.
#[derive(Clone, Copy, Debug, PartialEq, Eq, Structural)]
pub enum ArmStage {
    /// The source is to be looked up.
    Resolve,
    /// The source is to be asked whether it is ready.
    Readiness,
    /// The backends are to be compared.
    Compare,
    /// The source's Secrets are to be found, or copied in.
    Credentials,
    /// The Secrets are to be looked up where the Job runs.
    Presence,
    /// The arming is over.
    Done,
}

/// What the outside answered.
pub enum ArmEvent {
    SourceResolved,
    /// The source could not be looked up.
    ResolveFailed(Error),
    ReadyRead(bool),
    /// The source's backend, and how it compares with the repository's own.
    SourceFound { backend: Backend, pair: BackendPair },
    CredsResolved,
    CredsPresent,
    /// A later step failed.
    StepFailed(Error),
}

/// What to do next.
pub enum ArmAction {
    ReadReadiness,
    CompareBackends,
    /// Find the source's Secrets; copy them in where `project` says so.
    ResolveCredentials { project: bool },
    CheckCredentials,
    /// Put the armed seed together.
    Arm,
    /// Write the condition that holds the seed back.
    Park(SeedPark),
    /// The failure comes out.
    Fail(Error),
    /// The event does not belong to the stage.
    Ignore,
}

/// What an [`ArmAction`] says, as plain values.
#[verifier::ext_equal]
pub enum ArmActionView {
    ReadReadiness,
    CompareBackends,
    ResolveCredentials { project: bool },
    CheckCredentials,
    Arm,
    Park(SeedParkView),
    Fail(ErrorView),
    Ignore,
}

impl View for ArmAction {
    type V = ArmActionView;

    open spec fn view(&self) -> ArmActionView {
        match *self {
            ArmAction::ReadReadiness => ArmActionView::ReadReadiness,
            ArmAction::CompareBackends => ArmActionView::CompareBackends,
            ArmAction::ResolveCredentials { project } => ArmActionView::ResolveCredentials {
                project,
            },
            ArmAction::CheckCredentials => ArmActionView::CheckCredentials,
            ArmAction::Arm => ArmActionView::Arm,
            ArmAction::Park(park) => ArmActionView::Park(park@),
            ArmAction::Fail(e) => ArmActionView::Fail(e@),
            ArmAction::Ignore => ArmActionView::Ignore,
        }
    }
}

/// A stage and what its action says.
pub open spec fn step_view(next: (ArmStage, ArmAction)) -> (ArmStage, ArmActionView) {
    (next.0, next.1@)
}

/// The park on a source that has to be waited for.
pub open spec fn waiting_park(seed: SeedSpec, why: Seq<char>) -> ArmActionView {
    ArmActionView::Park(parked_on_source(waiting_for_seed_source_text(seed.description@, why)))
}

/// The next stage and action of an arming. A source that is missing, or not
/// ready, is waited for; any other failure comes out.
pub open spec fn arm_step(seed: SeedSpec, stage: ArmStage, event: ArmEvent) -> (
    ArmStage,
    ArmActionView,
) {
    match (stage, event) {
        (ArmStage::Resolve, ArmEvent::ResolveFailed(e)) => (
            ArmStage::Done,
            if e is MissingDependency {
                waiting_park(seed, "it does not exist (yet)"@)
            } else {
                ArmActionView::Fail(e@)
            },
        ),
        (ArmStage::Resolve, ArmEvent::SourceResolved) => (
            ArmStage::Readiness,
            ArmActionView::ReadReadiness,
        ),
        (ArmStage::Readiness, ArmEvent::ReadyRead(ready)) => if ready {
            (ArmStage::Compare, ArmActionView::CompareBackends)
        } else {
            (ArmStage::Done, waiting_park(seed, "it is not Ready"@))
        },
        (ArmStage::Compare, ArmEvent::SourceFound { backend, pair }) => match source_park(
            seed.description@,
            backend,
            pair,
        ) {
            Some(park) => (ArmStage::Done, ArmActionView::Park(park)),
            None => (
                ArmStage::Credentials,
                ArmActionView::ResolveCredentials { project: seed.project_credentials },
            ),
        },
        (ArmStage::Credentials, ArmEvent::CredsResolved) => (
            ArmStage::Presence,
            ArmActionView::CheckCredentials,
        ),
        (ArmStage::Presence, ArmEvent::CredsPresent) => (ArmStage::Done, ArmActionView::Arm),
        (ArmStage::Readiness, ArmEvent::StepFailed(e)) => (
            ArmStage::Done,
            ArmActionView::Fail(e@),
        ),
        (ArmStage::Credentials, ArmEvent::StepFailed(e)) => (
            ArmStage::Done,
            ArmActionView::Fail(e@),
        ),
        (ArmStage::Presence, ArmEvent::StepFailed(e)) => (ArmStage::Done, ArmActionView::Fail(e@)),
        _ => (stage, ArmActionView::Ignore),
    }
}

fn wait_for_source(seed: &SeedSpec, why: &str) -> (action: ArmAction)
    ensures
        action@ == waiting_park(*seed, why@),
{
    ArmAction::Park(
        SeedPark::source_not_usable(
            waiting_for_seed_source_message(seed.description.as_str(), why),
        ),
    )
}

/// Takes one step of the arming of a seed that migrates. The first thing to do
/// is to look up the source; once told to put the armed seed together,
/// [`crate::seed_run::arm_migrate_seed`] does.
pub fn arm_migrate_step(seed: &SeedSpec, stage: ArmStage, event: &ArmEvent) -> (next: (
    ArmStage,
    ArmAction,
))
    ensures
        step_view(next) == arm_step(*seed, stage, *event),
{
    match (stage, event) {
        (ArmStage::Resolve, ArmEvent::ResolveFailed(e)) => {
            let action = match e {
                Error::MissingDependency(_) => wait_for_source(seed, "it does not exist (yet)"),
                _ => ArmAction::Fail(e.clone()),
            };
            (ArmStage::Done, action)
        },
        (ArmStage::Resolve, ArmEvent::SourceResolved) => (
            ArmStage::Readiness,
            ArmAction::ReadReadiness,
        ),
        (ArmStage::Readiness, ArmEvent::ReadyRead(ready)) => {
            if *ready {
                (ArmStage::Compare, ArmAction::CompareBackends)
            } else {
                (ArmStage::Done, wait_for_source(seed, "it is not Ready"))
            }
        },
        (ArmStage::Compare, ArmEvent::SourceFound { backend, pair }) => match migrate_source_park(
            seed.description.as_str(),
            backend,
            pair,
        ) {
            Some(park) => (ArmStage::Done, ArmAction::Park(park)),
            None => (
                ArmStage::Credentials,
                ArmAction::ResolveCredentials { project: seed.project_credentials },
            ),
        },
        (ArmStage::Credentials, ArmEvent::CredsResolved) => (
            ArmStage::Presence,
            ArmAction::CheckCredentials,
        ),
        (ArmStage::Presence, ArmEvent::CredsPresent) => (ArmStage::Done, ArmAction::Arm),
        (ArmStage::Readiness, ArmEvent::StepFailed(e)) => (
            ArmStage::Done,
            ArmAction::Fail(e.clone()),
        ),
        (ArmStage::Credentials, ArmEvent::StepFailed(e)) => (
            ArmStage::Done,
            ArmAction::Fail(e.clone()),
        ),
        (ArmStage::Presence, ArmEvent::StepFailed(e)) => (
            ArmStage::Done,
            ArmAction::Fail(e.clone()),
        ),
        _ => (stage, ArmAction::Ignore),
    }
}

/// The stage and the actions that a run of events leads to from the start.
pub open spec fn arm_trace(seed: SeedSpec, events: Seq<ArmEvent>) -> (ArmStage, Seq<ArmActionView>)
    decreases events.len(),
{
    if events.len() == 0 {
        (ArmStage::Resolve, Seq::empty())
    } else {
        let (stage, actions) = arm_trace(seed, events.drop_last());
        let (next, action) = arm_step(seed, stage, events.last());
        (next, actions.push(action))
    }
}

/// Whether an event says that the source holds the seed back in no way.
pub open spec fn passes_the_parks(seed: SeedSpec, event: ArmEvent) -> bool {
    event matches ArmEvent::SourceFound { backend, pair } && source_park(
        seed.description@,
        backend,
        pair,
    ) is None
}

/// Whether a source was looked up, was ready, and held the seed back in no
/// way, in that order and up to a point of a run of events.
pub open spec fn source_accepted(seed: SeedSpec, events: Seq<ArmEvent>, upto: int) -> bool {
    exists|a: int, b: int, c: int|
        0 <= a < b < c <= upto && c < events.len() && (#[trigger] events[a]) is SourceResolved
            && #[trigger] events[b] == ArmEvent::ReadyRead(true) && passes_the_parks(
            seed,
            #[trigger] events[c],
        )
}

spec fn source_ready(events: Seq<ArmEvent>) -> bool {
    exists|a: int, b: int|
        0 <= a < b < events.len() && (#[trigger] events[a]) is SourceResolved
            && #[trigger] events[b] == ArmEvent::ReadyRead(true)
}

spec fn source_resolved(events: Seq<ArmEvent>) -> bool {
    exists|a: int| 0 <= a < events.len() && (#[trigger] events[a]) is SourceResolved
}

/// What holds at every stage of an arming.
spec fn arm_invariant(seed: SeedSpec, events: Seq<ArmEvent>) -> bool {
    let (stage, actions) = arm_trace(seed, events);
    &&& actions.len() == events.len()
    &&& stage is Readiness ==> source_resolved(events)
    &&& stage is Compare ==> source_ready(events)
    &&& stage is Credentials || stage is Presence ==> source_accepted(
        seed,
        events,
        events.len() - 1,
    )
    &&& forall|k: int|
        0 <= k < actions.len() && ((#[trigger] actions[k]) is ResolveCredentials || actions[k]
            is CheckCredentials || actions[k] is Arm) ==> source_accepted(seed, events, k)
    &&& (exists|k: int| 0 <= k < actions.len() && (#[trigger] actions[k]) is Park) ==> stage is Done
        && forall|k: int|
        0 <= k < actions.len() ==> !((#[trigger] actions[k]) is ResolveCredentials)
    &&& (exists|k: int| 0 <= k < actions.len() && (#[trigger] actions[k]) is ResolveCredentials)
        ==> stage is Credentials || stage is Presence || stage is Done
}

proof fn longer_run_is_accepted(seed: SeedSpec, events: Seq<ArmEvent>, upto: int, later: int)
    requires
        events.len() > 0,
        source_accepted(seed, events.drop_last(), upto),
        upto <= later,
    ensures
        source_accepted(seed, events, later),
{
    let front = events.drop_last();
    let (a, b, c) = choose|a: int, b: int, c: int|
        0 <= a < b < c <= upto && c < front.len() && (#[trigger] front[a]) is SourceResolved
            && #[trigger] front[b] == ArmEvent::ReadyRead(true) && passes_the_parks(
            seed,
            #[trigger] front[c],
        );
    assert(events[a] == front[a] && events[b] == front[b] && events[c] == front[c]);
}

proof fn arm_invariant_holds(seed: SeedSpec, events: Seq<ArmEvent>)
    ensures
        arm_invariant(seed, events),
    decreases events.len(),
{
    if events.len() > 0 {
        let front = events.drop_last();
        arm_invariant_holds(seed, front);
        let (stage, actions) = arm_trace(seed, front);
        let (next, action) = arm_step(seed, stage, events.last());
        let all = arm_trace(seed, events).1;
        let last = events.len() - 1;
        assert(events[last] == events.last());
        assert(all == actions.push(action));
        assert(all[last] == action);
        if source_resolved(front) {
            let a = choose|a: int| 0 <= a < front.len() && (#[trigger] front[a]) is SourceResolved;
            assert(events[a] == front[a]);
            if next is Compare && stage is Readiness {
                assert(events[last] == ArmEvent::ReadyRead(true));
            }
        }
        if source_ready(front) {
            let (a, b) = choose|a: int, b: int|
                0 <= a < b < front.len() && (#[trigger] front[a]) is SourceResolved
                    && #[trigger] front[b] == ArmEvent::ReadyRead(true);
            assert(events[a] == front[a] && events[b] == front[b]);
            if stage is Compare && next is Credentials {
                assert(passes_the_parks(seed, events[last]));
                assert(source_accepted(seed, events, last));
            }
        }
        if source_accepted(seed, front, front.len() - 1) {
            longer_run_is_accepted(seed, events, front.len() - 1, last);
        }
        assert forall|k: int|
            0 <= k < all.len() && ((#[trigger] all[k]) is ResolveCredentials || all[k]
                is CheckCredentials || all[k] is Arm) implies source_accepted(seed, events, k) by {
            if k < actions.len() {
                assert(all[k] == actions[k]);
                longer_run_is_accepted(seed, events, k, k);
            }
        }
        if exists|k: int| 0 <= k < all.len() && (#[trigger] all[k]) is Park {
            let k = choose|k: int| 0 <= k < all.len() && (#[trigger] all[k]) is Park;
            if k < actions.len() {
                assert(actions[k] is Park);
            }
            assert forall|j: int| 0 <= j < all.len() implies !((#[trigger] all[j])
                is ResolveCredentials) by {
                if j < actions.len() {
                    assert(all[j] == actions[j]);
                }
            }
        }
        if exists|k: int| 0 <= k < all.len() && (#[trigger] all[k]) is ResolveCredentials {
            let k = choose|k: int| 0 <= k < all.len() && (#[trigger] all[k]) is ResolveCredentials;
            if k < actions.len() {
                assert(actions[k] is ResolveCredentials);
            }
        }
    }
}

/// No Secret is looked for or copied in, and nothing is armed, before the
/// source was looked up, was ready, and held the seed back in no way.
pub proof fn credentials_wait_for_the_parks(seed: SeedSpec, events: Seq<ArmEvent>, k: int)
    requires
        0 <= k < arm_trace(seed, events).1.len(),
        arm_trace(seed, events).1[k] is ResolveCredentials || arm_trace(seed, events).1[k]
            is CheckCredentials || arm_trace(seed, events).1[k] is Arm,
    ensures
        source_accepted(seed, events, k),
{
    arm_invariant_holds(seed, events);
}

/// An arming that parks touches no Secret, at no time.
pub proof fn parked_arming_touches_no_secret(seed: SeedSpec, events: Seq<ArmEvent>, k: int, j: int)
    requires
        0 <= k < arm_trace(seed, events).1.len(),
        0 <= j < arm_trace(seed, events).1.len(),
        arm_trace(seed, events).1[k] is Park,
    ensures
        !(arm_trace(seed, events).1[j] is ResolveCredentials),
{
    arm_invariant_holds(seed, events);
}

/// Only a source that is missing is waited for: any other failure to look it
/// up comes out as it is.
pub proof fn only_a_missing_source_is_waited_for(seed: SeedSpec, e: Error)
    ensures
        e is MissingDependency ==> arm_step(seed, ArmStage::Resolve, ArmEvent::ResolveFailed(e)) == (
            ArmStage::Done,
            waiting_park(seed, "it does not exist (yet)"@),
        ),
        !(e is MissingDependency) ==> arm_step(seed, ArmStage::Resolve, ArmEvent::ResolveFailed(e))
            == (ArmStage::Done, ArmActionView::Fail(e@)),
{
}

/// A source holds a seed back where no Job can mount it, and else exactly where
/// its backend clashes with the repository's own.
pub proof fn unmountable_source_holds_a_seed_back(
    source_description: Seq<char>,
    backend: Backend,
    pair: BackendPair,
)
    ensures
        ({
            let park = source_park(source_description, backend, pair);
            let bare = backend.path is Some && backend.volume is None;
            &&& park is None <==> !bare && !pair.same_storage && pair.mount_collision is None
                && !pair.auth_conflict
            &&& bare ==> park == Some(
                parked_on_source(bare_path_seed_source_text(source_description, backend.path->0@)),
            )
            &&& !bare ==> park == pair_park(source_description, pair)
        }),
{
}

/// The steps of an arming follow each other: the source is looked up, asked
/// whether it is ready and held against the repository; then its Secrets are
/// found, copied in where the seed says so, and looked up; and then it is
/// armed. Each is taken on the answer to the one before and on no other.
pub proof fn arming_takes_its_steps_in_order(seed: SeedSpec, stage: ArmStage, event: ArmEvent)
    ensures
        ({
            let (next, action) = arm_step(seed, stage, event);
            let found = stage is Compare && event is SourceFound;
            let park = source_park(
                seed.description@,
                event->SourceFound_backend,
                event->SourceFound_pair,
            );
            &&& action is ReadReadiness <==> stage is Resolve && event is SourceResolved
            &&& action is ReadReadiness ==> next is Readiness
            &&& action is CompareBackends <==> stage is Readiness && event == ArmEvent::ReadyRead(
                true,
            )
            &&& action is CompareBackends ==> next is Compare
            &&& action is ResolveCredentials <==> found && park is None
            &&& action matches ArmActionView::ResolveCredentials { project } ==> next is Credentials
                && project == seed.project_credentials
            &&& action is CheckCredentials <==> stage is Credentials && event is CredsResolved
            &&& action is CheckCredentials ==> next is Presence
            &&& action is Arm <==> stage is Presence && event is CredsPresent
            &&& action is Arm || action is Park || action is Fail ==> next is Done
            &&& action is Ignore ==> next == stage
        }),
{
}

/// A seed is held back, under its own condition, where its source is missing,
/// is not ready, or cannot be used, and says which; every other failure comes
/// out as it is.
pub proof fn arming_is_held_back_or_fails(seed: SeedSpec, stage: ArmStage, event: ArmEvent)
    ensures
        ({
            let action = arm_step(seed, stage, event).1;
            let missing = stage is Resolve && event is ResolveFailed && event->ResolveFailed_0
                is MissingDependency;
            let unready = stage is Readiness && event == ArmEvent::ReadyRead(false);
            let park = source_park(
                seed.description@,
                event->SourceFound_backend,
                event->SourceFound_pair,
            );
            let unusable = stage is Compare && event is SourceFound && park is Some;
            &&& action is Park <==> missing || unready || unusable
            &&& missing ==> action->Park_0.reason == "WaitingForSeedSource"@
                && action->Park_0.message == waiting_for_seed_source_text(
                seed.description@,
                "it does not exist (yet)"@,
            )
            &&& unready ==> action->Park_0.reason == "WaitingForSeedSource"@
                && action->Park_0.message == waiting_for_seed_source_text(
                seed.description@,
                "it is not Ready"@,
            )
            &&& unusable ==> action->Park_0 == park->0
            &&& action is Park ==> action->Park_0.condition == "Seeded"@ && !action->Park_0.blocked
            &&& action is Fail <==> {
                ||| stage is Resolve && event is ResolveFailed && !missing
                ||| event is StepFailed && (stage is Readiness || stage is Credentials || stage
                    is Presence)
            }
            &&& action is Fail && event is StepFailed ==> action->Fail_0 == event->StepFailed_0@
            &&& action is Fail && event is ResolveFailed ==> action->Fail_0
                == event->ResolveFailed_0@
        }),
{
}

} // verus!
