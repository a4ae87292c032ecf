//! Laws of the status writes of a bootstrap: a probe never rebinds an
//! identity, a steady pass changes nothing, and news is told once.
use crate::bootstrap::{
    phase_outcome, phase_word, BootstrapOutcomeView, KopiaErrorClass, RepositoryPhase,
};
use crate::cluster_finalize::{
    backoff_step, breaker_text, connected_text, failed_conditions, finalize_follow_up,
    healthy_conditions, healthy_patch, namespace_count, outage_patch, parked_patch,
    probe_failure_patch, recycle_is_news, recycled_patch, sensor_follow_up, standing_reason,
    step_of_outcome, AllowedNamespaces, BootstrapResult, BreakerPhase, FailureStep, FailureText,
    FinalizeStep, RepositoryState, SensorFold, StreakStamp, REPOSITORY_BOOTSTRAPPED_CONDITION,
    RESULT_PENDING_REQUEUE_SECS,
};
use crate::condition_laws::{
    holds, outcome_is_shown_in_all_three, ready_fold_is_idempotent, ready_fold_keeps_other_types,
    shows, upsert_keeps_other_types, upsert_of_held_is_noop, upsert_writes,
    without_absent_is_noop, without_drops_only_its_type, written_condition_is_shown,
};
use crate::conditions::{
    condition_of, first_is_position, lookup, position, position_is_first, ready_folded, upserted,
    views, without, ConditionView, ReadyOutcome, READY_CONDITION, RECONCILING_CONDITION,
    STALLED_CONDITION,
};
use crate::seed::{
    already_initialized_text, seed_folded, seeded_text, SeedOutcomeLabel,
    ALREADY_INITIALIZED_REASON, SEEDED_CONDITION, SEEDED_REASON,
};
use crate::status::{HealthPatchView, StatusPatchView};
use crate::text::opt_text;
use vstd::prelude::*;

verus! {

/// A probe never rebinds a pinned identity: whatever repository it found at
/// the backend, the pinned one is written back.
pub proof fn probe_never_rebinds_identity(
    repo: RepositoryState,
    backend: Seq<char>,
    result: BootstrapResult,
    allowed_count: i64,
    folded: Seq<ConditionView>,
    health: Option<Seq<char>>,
    now: Seq<char>,
)
    requires
        repo.unique_id is Some,
    ensures
        healthy_patch(
            repo,
            backend,
            result,
            true,
            allowed_count,
            folded,
            health,
            now,
        ).unique_id == Some(Some(repo.unique_id->0@)),
{
}

/// The condition types of a finalize are different words.
proof fn finalize_types_differ()
    ensures
        REPOSITORY_BOOTSTRAPPED_CONDITION@ != SEEDED_CONDITION@,
        REPOSITORY_BOOTSTRAPPED_CONDITION@ != READY_CONDITION@,
        REPOSITORY_BOOTSTRAPPED_CONDITION@ != RECONCILING_CONDITION@,
        REPOSITORY_BOOTSTRAPPED_CONDITION@ != STALLED_CONDITION@,
        SEEDED_CONDITION@ != READY_CONDITION@,
        SEEDED_CONDITION@ != RECONCILING_CONDITION@,
        SEEDED_CONDITION@ != STALLED_CONDITION@,
        "True"@ != "False"@,
{
    reveal_strlit("Bootstrapped");
    reveal_strlit("Seeded");
    reveal_strlit("Ready");
    reveal_strlit("Reconciling");
    reveal_strlit("Stalled");
    reveal_strlit("True");
    reveal_strlit("False");
    assert(REPOSITORY_BOOTSTRAPPED_CONDITION@.len() == 12);
    assert(SEEDED_CONDITION@.len() == 6);
    assert(READY_CONDITION@.len() == 5);
    assert(RECONCILING_CONDITION@.len() == 11);
    assert(STALLED_CONDITION@.len() == 7);
    assert("True"@.len() == 4);
    assert("False"@.len() == 5);
}

/// Dropping a type leaves the first condition of every other type.
proof fn without_keeps_other_types(conds: Seq<ConditionView>, gone: Seq<char>, t: Seq<char>)
    requires
        t != gone,
    ensures
        lookup(without(conds, gone), t) == lookup(conds, t),
    decreases conds.len(),
{
    if conds.len() > 0 {
        let front = conds.drop_last();
        without_keeps_other_types(front, gone, t);
        position_is_first(front, t);
        position_is_first(without(front, gone), t);
        assert(conds =~= front.push(conds.last()));
        push_lookup(front, conds.last(), t);
        if conds.last().type_ != gone {
            push_lookup(without(front, gone), conds.last(), t);
        }
    } else {
        assert(without(conds, gone) =~= conds);
    }
}

/// The first condition of a type in a list that grew at its end.
proof fn push_lookup(conds: Seq<ConditionView>, c: ConditionView, t: Seq<char>)
    ensures
        lookup(conds.push(c), t) == (match lookup(conds, t) {
            Some(found) => Some(found),
            None => if c.type_ == t {
                Some(c)
            } else {
                None
            },
        }),
{
    let grown = conds.push(c);
    position_is_first(conds, t);
    let p = position(conds, t);
    assert forall|j: int| 0 <= j < p implies (#[trigger] grown[j]).type_ != t by {
        assert(grown[j] == conds[j]);
    }
    if p < conds.len() {
        assert(grown[p] == conds[p]);
        first_is_position(grown, t, p);
    } else if c.type_ == t {
        assert(grown[p] == c);
        first_is_position(grown, t, p);
    } else {
        assert forall|j: int| 0 <= j < grown.len() implies (#[trigger] grown[j]).type_ != t by {
            if j < conds.len() {
                assert(grown[j] == conds[j]);
            }
        }
        first_is_position(grown, t, grown.len() as int);
    }
}

/// Whether no condition of a type is there.
pub open spec fn absent(conds: Seq<ConditionView>, t: Seq<char>) -> bool {
    forall|j: int| 0 <= j < conds.len() ==> (#[trigger] conds[j]).type_ != t
}

/// A write of one type brings no other type in.
proof fn upsert_keeps_absent(conds: Seq<ConditionView>, c: ConditionView, t: Seq<char>)
    requires
        absent(conds, t),
        c.type_ != t,
    ensures
        absent(upserted(conds, c), t),
{
    let out = upserted(conds, c);
    position_is_first(conds, c.type_);
    assert forall|j: int| 0 <= j < out.len() implies (#[trigger] out[j]).type_ != t by {
        if j < conds.len() && j != position(conds, c.type_) {
            assert(out[j] == conds[j]);
        }
    }
}

/// The standard fold brings no other type in.
proof fn ready_fold_keeps_absent(
    conds: Seq<ConditionView>,
    generation: Option<i64>,
    outcome: ReadyOutcome,
    reason: Seq<char>,
    message: Seq<char>,
    now: Seq<char>,
    t: Seq<char>,
)
    requires
        absent(conds, t),
        t != READY_CONDITION@,
        t != RECONCILING_CONDITION@,
        t != STALLED_CONDITION@,
    ensures
        absent(ready_folded(conds, generation, outcome, reason, message, now), t),
{
    let a = condition_of(
        READY_CONDITION@,
        outcome == ReadyOutcome::Ready,
        reason,
        message,
        generation,
        now,
    );
    let b = condition_of(
        RECONCILING_CONDITION@,
        outcome == ReadyOutcome::Reconciling,
        reason,
        message,
        generation,
        now,
    );
    let c = condition_of(
        STALLED_CONDITION@,
        outcome == ReadyOutcome::Stalled,
        reason,
        message,
        generation,
        now,
    );
    upsert_keeps_absent(conds, a, t);
    upsert_keeps_absent(upserted(conds, a), b, t);
    upsert_keeps_absent(upserted(upserted(conds, a), b), c, t);
}

/// The `Bootstrapped` condition of a healthy finalize.
pub open spec fn bootstrapped_condition(
    generation: Option<i64>,
    created: bool,
    now: Seq<char>,
) -> ConditionView {
    condition_of(
        REPOSITORY_BOOTSTRAPPED_CONDITION@,
        true,
        "Bootstrapped"@,
        connected_text(created),
        generation,
        now,
    )
}

/// The conditions that one healthy finalize leaves behind, where no other fold
/// has anything to add.
pub open spec fn finalize_pass(
    conds: Seq<ConditionView>,
    generation: Option<i64>,
    result: BootstrapResult,
    now: Seq<char>,
) -> Seq<ConditionView> {
    healthy_conditions(
        upserted(conds, bootstrapped_condition(generation, result.created, now)),
        generation,
        result,
        now,
    )
}

/// A healthy finalize that is done over, at whatever later time, leaves the
/// conditions as they are: the pass over a lingering Job writes nothing.
pub proof fn steady_finalize_changes_no_condition(
    conds: Seq<ConditionView>,
    generation: Option<i64>,
    result: BootstrapResult,
    now: Seq<char>,
    later: Seq<char>,
)
    ensures
        finalize_pass(
            finalize_pass(conds, generation, result, now),
            generation,
            result,
            later,
        ) == finalize_pass(conds, generation, result, now),
{
    finalize_types_differ();
    let b = bootstrapped_condition(generation, result.created, now);
    let b2 = bootstrapped_condition(generation, result.created, later);
    let bt = REPOSITORY_BOOTSTRAPPED_CONDITION@;
    let st = SEEDED_CONDITION@;
    let start = upserted(conds, b);
    upsert_writes(conds, b);
    let text = connected_text(result.created);
    let once = finalize_pass(conds, generation, result, now);
    let reason = if result.seed is Some && result.seed->0.performed {
        SEEDED_REASON@
    } else {
        ALREADY_INITIALIZED_REASON@
    };
    let message = if result.seed is Some && result.seed->0.performed {
        seeded_text(result.seed->0)
    } else {
        already_initialized_text(result.seed->0)
    };
    let s = condition_of(st, true, reason, message, generation, now);
    let s2 = condition_of(st, true, reason, message, generation, later);
    let seeded = if result.seed is Some {
        upserted(start, s)
    } else {
        without(start, st)
    };
    assert(once == ready_folded(
        seeded,
        generation,
        ReadyOutcome::Ready,
        "Bootstrapped"@,
        text,
        now,
    ));
    // The first write of the second pass finds its condition in place.
    if result.seed is Some {
        upsert_keeps_other_types(start, s, bt);
    } else {
        without_keeps_other_types(start, st, bt);
    }
    ready_fold_keeps_other_types(
        seeded,
        generation,
        ReadyOutcome::Ready,
        "Bootstrapped"@,
        text,
        now,
        bt,
    );
    assert(holds(once, b2));
    upsert_of_held_is_noop(once, b2);
    // So does the seed's story.
    if result.seed is Some {
        upsert_writes(start, s);
        ready_fold_keeps_other_types(
            seeded,
            generation,
            ReadyOutcome::Ready,
            "Bootstrapped"@,
            text,
            now,
            st,
        );
        assert(holds(once, s2));
        upsert_of_held_is_noop(once, s2);
    } else {
        without_drops_only_its_type(start, st);
        assert(absent(seeded, st));
        ready_fold_keeps_absent(
            seeded,
            generation,
            ReadyOutcome::Ready,
            "Bootstrapped"@,
            text,
            now,
            st,
        );
        without_absent_is_noop(once, st);
    }
    // And the standard conditions.
    ready_fold_is_idempotent(
        seeded,
        generation,
        ReadyOutcome::Ready,
        "Bootstrapped"@,
        text,
        now,
        later,
    );
}

/// The first condition of the bootstrap's type, where it records a failure,
/// is the one that stands.
proof fn first_failed_bootstrap_stands(conds: Seq<ConditionView>)
    requires
        lookup(conds, REPOSITORY_BOOTSTRAPPED_CONDITION@) is Some,
        lookup(conds, REPOSITORY_BOOTSTRAPPED_CONDITION@)->0.status == "False"@,
    ensures
        standing_reason(conds) == Some(
            lookup(conds, REPOSITORY_BOOTSTRAPPED_CONDITION@)->0.reason,
        ),
    decreases conds.len(),
{
    let t = REPOSITORY_BOOTSTRAPPED_CONDITION@;
    position_is_first(conds, t);
    if conds[0].type_ != t {
        let rest = conds.skip(1);
        position_is_first(rest, t);
        assert(position(conds, t) == 1 + position(rest, t));
        assert(conds[position(conds, t)] == rest[position(rest, t)]);
        first_failed_bootstrap_stands(rest);
    }
}

/// A failure with a stamped streak is told once: after its write the same
/// failure is no news, however often it repeats.
pub proof fn repeated_failure_is_told_once(
    repo: RepositoryState,
    text: FailureText,
    after: RepositoryState,
    now: Seq<char>,
    wrote: bool,
)
    requires
        after.phase == Some(RepositoryPhase::Degraded),
        views(after.conditions@) == failed_conditions(repo, text, ReadyOutcome::Reconciling, now),
    ensures
        !recycle_is_news(after, text.reason@, true, wrote),
{
    finalize_types_differ();
    let bt = REPOSITORY_BOOTSTRAPPED_CONDITION@;
    let b = condition_of(bt, false, text.reason@, text.message@, repo.generation, now);
    let start = upserted(views(repo.conditions@), b);
    upsert_writes(views(repo.conditions@), b);
    let seed_reason = crate::text::opt_text(text.seed_reason);
    let seeded = seed_folded(start, repo.generation, seed_reason, text.message@, now);
    if seed_reason is Some {
        upsert_keeps_other_types(
            start,
            condition_of(
                SEEDED_CONDITION@,
                false,
                seed_reason->0,
                text.message@,
                repo.generation,
                now,
            ),
            bt,
        );
    } else {
        without_keeps_other_types(start, SEEDED_CONDITION@, bt);
    }
    ready_fold_keeps_other_types(
        seeded,
        repo.generation,
        ReadyOutcome::Reconciling,
        text.reason@,
        text.message@,
        now,
        bt,
    );
    first_failed_bootstrap_stands(views(after.conditions@));
}

/// The breaker trips once: a repository that is already `Degraded` trips no
/// more, whatever is written.
pub proof fn breaker_trips_on_transition_only(
    repo: RepositoryState,
    alert: bool,
    opened: bool,
    wrote: bool,
)
    requires
        repo.phase == Some(RepositoryPhase::Degraded),
    ensures
        !sensor_follow_up(repo, alert, opened, wrote).trip,
{
}

/// A result that cannot be read yet is waited for, whatever the repository and
/// whatever the launch; and no other outcome is.
pub proof fn unread_result_is_awaited(
    outcome: BootstrapOutcomeView,
    bootstrapped: bool,
    probe_run: bool,
)
    ensures
        step_of_outcome(outcome, bootstrapped, probe_run) is AwaitResult <==> outcome
            is ResultPending,
        outcome is ResultPending ==> step_of_outcome(outcome, bootstrapped, probe_run)
            == (FinalizeStep::AwaitResult { requeue_secs: RESULT_PENDING_REQUEUE_SECS }),
{
}

/// A healthy finalize binds what the mover reported: the identity that it
/// found or created is the one written, and so is the lack of one. Only a probe
/// of a repository whose identity is pinned writes the pinned one back.
pub proof fn healthy_finalize_binds_what_was_reported(
    repo: RepositoryState,
    backend: Seq<char>,
    result: BootstrapResult,
    probe_run: bool,
    allowed_count: i64,
    folded: Seq<ConditionView>,
    health: Option<Seq<char>>,
    now: Seq<char>,
)
    ensures
        ({
            let p = healthy_patch(
                repo,
                backend,
                result,
                probe_run,
                allowed_count,
                folded,
                health,
                now,
            );
            let pinned_probe = probe_run && repo.unique_id is Some;
            &&& p.unique_id is Some
            &&& !pinned_probe && result.unique_id is Some ==> p.unique_id->0 == Some(
                result.unique_id->0@,
            )
            &&& !pinned_probe && result.unique_id is None ==> p.unique_id->0 is None
            &&& pinned_probe ==> p.unique_id->0 == Some(repo.unique_id->0@)
        }),
{
}

/// A healthy finalize writes what was found: `Ready` at the generation that was
/// bootstrapped, the backend, the figures that were taken and no others, the
/// parameters where any was reported, the probe's verdict where there was one,
/// and the seed where there was one.
pub proof fn healthy_finalize_writes_what_was_found(
    repo: RepositoryState,
    backend: Seq<char>,
    result: BootstrapResult,
    probe_run: bool,
    allowed_count: i64,
    folded: Seq<ConditionView>,
    health: Option<Seq<char>>,
    now: Seq<char>,
)
    ensures
        ({
            let p = healthy_patch(
                repo,
                backend,
                result,
                probe_run,
                allowed_count,
                folded,
                health,
                now,
            );
            &&& p.phase == Some("Ready"@)
            &&& p.observed_generation == Some(repo.generation)
            &&& p.backend == Some(backend)
            &&& p.allowed_namespace_count == Some(allowed_count)
            &&& p.storage_stats is Some
            &&& p.storage_stats->0.snapshot_count == result.snapshot_count
            &&& p.storage_stats->0.index_blob_count == result.index_blob_count
            &&& p.storage_stats->0.total_size_bytes is None
            &&& p.parameters is None <==> result.epoch is None && result.blob_retention is None
            &&& p.parameters is Some ==> p.parameters->0.epoch == opt_text(result.epoch)
                && p.parameters->0.blob_retention == opt_text(result.blob_retention)
            &&& p.health is Some <==> health is Some
            &&& health is Some ==> p.health == Some(HealthPatchView::Fold(health->0))
            &&& p.seed is Some <==> result.seed is Some
            &&& p.seed is Some ==> {
                &&& p.seed->0.mode == Some(result.seed->0.mode)
                &&& p.seed->0.source == Some(result.seed->0.source@)
                &&& p.seed->0.seeded_at is Some <==> result.seed->0.performed
            }
            &&& p.conditions is Some
            &&& p.resolved_credential_version is None && p.last_reverify_at is None
            &&& p.catalog is None
        }),
{
}

/// A healthy finalize is shown: the repository is ready, in all three standard
/// conditions, the seed's story stands where there is one and is gone where
/// there is none, and every other condition is as the folds before left it.
pub proof fn healthy_finalize_is_shown(
    folded: Seq<ConditionView>,
    generation: Option<i64>,
    result: BootstrapResult,
    now: Seq<char>,
)
    ensures
        ({
            let out = healthy_conditions(folded, generation, result, now);
            let message = if result.created {
                "created a new repository"@
            } else {
                "connected to the existing repository"@
            };
            &&& shows(out, "Ready"@, true, "Bootstrapped"@, message, generation)
            &&& shows(out, "Reconciling"@, false, "Bootstrapped"@, message, generation)
            &&& shows(out, "Stalled"@, false, "Bootstrapped"@, message, generation)
            &&& result.seed is None ==> lookup(out, "Seeded"@) is None
            &&& result.seed is Some && result.seed->0.performed ==> shows(
                out,
                "Seeded"@,
                true,
                "Seeded"@,
                seeded_text(result.seed->0),
                generation,
            )
            &&& result.seed is Some && !result.seed->0.performed ==> shows(
                out,
                "Seeded"@,
                true,
                "AlreadyInitialized"@,
                already_initialized_text(result.seed->0),
                generation,
            )
            &&& forall|t: Seq<char>|
                t != "Ready"@ && t != "Reconciling"@ && t != "Stalled"@ && t != "Seeded"@
                    ==> #[trigger] lookup(out, t) == lookup(folded, t)
        }),
{
    finalize_types_differ();
    let st = SEEDED_CONDITION@;
    let reason = if result.seed is Some && result.seed->0.performed {
        SEEDED_REASON@
    } else {
        ALREADY_INITIALIZED_REASON@
    };
    let story = if result.seed is Some && result.seed->0.performed {
        seeded_text(result.seed->0)
    } else {
        already_initialized_text(result.seed->0)
    };
    let s = condition_of(st, true, reason, story, generation, now);
    let seeded = if result.seed is Some {
        upserted(folded, s)
    } else {
        without(folded, st)
    };
    if result.seed is Some {
        written_condition_is_shown(folded, st, true, reason, story, generation, now);
    } else {
        without_drops_only_its_type(folded, st);
        position_is_first(seeded, st);
    }
    outcome_is_shown_in_all_three(
        seeded,
        generation,
        ReadyOutcome::Ready,
        "Bootstrapped"@,
        connected_text(result.created),
        now,
    );
    let out = healthy_conditions(folded, generation, result, now);
    assert(lookup(out, st) == lookup(seeded, st));
    assert forall|t: Seq<char>|
        t != "Ready"@ && t != "Reconciling"@ && t != "Stalled"@ && t != "Seeded"@ implies #[trigger] lookup(
        out,
        t,
    ) == lookup(folded, t) by {
        assert(lookup(out, t) == lookup(seeded, t));
        if result.seed is Some {
            upsert_keeps_other_types(folded, s, t);
        } else {
            without_keeps_other_types(folded, st, t);
        }
    }
}

/// What follows a healthy write: a warning exactly where the parameters were
/// not applied, the announcement of a seed exactly where one is new, under its
/// mode and under what became of it, a scan where a listing was taken and one
/// is due, and the end of the Job of a probe.
pub proof fn healthy_write_is_followed_up(
    result: BootstrapResult,
    probe_run: bool,
    wrote: bool,
    scan_due: bool,
)
    ensures
        ({
            let e = finalize_follow_up(result, probe_run, wrote, scan_due);
            &&& e.warn_parameters <==> result.parameters_error is Some
            &&& e.announce_seed is Some <==> result.seed is Some && wrote
            &&& e.announce_seed matches Some((mode, label)) ==> {
                &&& mode == result.seed->0.mode
                &&& label == SeedOutcomeLabel::Seeded <==> result.seed->0.performed
                &&& label == SeedOutcomeLabel::AlreadyInitialized <==> !result.seed->0.performed
            }
            &&& e.scan <==> result.snapshot_count is Some && scan_due
            &&& e.delete_job <==> probe_run
        }),
{
}

/// A finished bootstrap is handled by what it amounts to: a success is written
/// down, and a failure goes the way that helps. A probe's failure goes to the
/// probe; else an outage of a bootstrapped backend is recycled for the sensor,
/// a run without a verdict under a stamped streak, a seed without one, and
/// everything else is parked.
pub proof fn finished_bootstrap_is_handled_by_its_outcome(
    outcome: BootstrapOutcomeView,
    bootstrapped: bool,
    probe_run: bool,
)
    ensures
        ({
            let step = step_of_outcome(outcome, bootstrapped, probe_run);
            let f = outcome->Failed_0;
            let outage = bootstrapped && (f is JobDeadlineExceeded || (f is Backend
                && f->Backend_class == KopiaErrorClass::RepositoryUnavailable));
            let unjudged = f is JobFailedWithoutResult || (f is JobDeadlineExceeded
                && !bootstrapped);
            &&& step is WriteSuccess <==> outcome is Succeeded
            &&& step is HandleFailure <==> outcome is Failed
            &&& step matches FinalizeStep::HandleFailure { step: way } ==> {
                &&& way == FailureStep::ProbeFailure <==> probe_run
                &&& !probe_run ==> (way == FailureStep::RecycleOutage <==> outage)
                &&& !probe_run ==> (way == (FailureStep::Recycle { stamp_streak: true })
                    <==> unjudged)
                &&& !probe_run ==> (way == (FailureStep::Recycle { stamp_streak: false }) <==> f
                    is Seed)
                &&& !probe_run ==> (way == FailureStep::ParkTerminal <==> !outage && !unjudged && !(f
                    is Seed))
            }
        }),
{
}

/// A failed bootstrap is shown: `Bootstrapped` is false under its reason, the
/// standard conditions show the outcome, and the seed's story is the failure's
/// own or none at all.
pub proof fn failed_bootstrap_is_shown(
    repo: RepositoryState,
    text: FailureText,
    outcome: ReadyOutcome,
    now: Seq<char>,
)
    ensures
        ({
            let out = failed_conditions(repo, text, outcome, now);
            let g = repo.generation;
            &&& shows(out, "Bootstrapped"@, false, text.reason@, text.message@, g)
            &&& shows(
                out,
                "Ready"@,
                outcome == ReadyOutcome::Ready,
                text.reason@,
                text.message@,
                g,
            )
            &&& shows(
                out,
                "Reconciling"@,
                outcome == ReadyOutcome::Reconciling,
                text.reason@,
                text.message@,
                g,
            )
            &&& shows(
                out,
                "Stalled"@,
                outcome == ReadyOutcome::Stalled,
                text.reason@,
                text.message@,
                g,
            )
            &&& text.seed_reason is None ==> lookup(out, "Seeded"@) is None
            &&& text.seed_reason is Some ==> shows(
                out,
                "Seeded"@,
                false,
                text.seed_reason->0@,
                text.message@,
                g,
            )
            &&& forall|t: Seq<char>|
                t != "Ready"@ && t != "Reconciling"@ && t != "Stalled"@ && t != "Seeded"@ && t
                    != "Bootstrapped"@ ==> #[trigger] lookup(out, t) == lookup(
                    views(repo.conditions@),
                    t,
                )
        }),
{
    finalize_types_differ();
    let conds = views(repo.conditions@);
    let bt = REPOSITORY_BOOTSTRAPPED_CONDITION@;
    let st = SEEDED_CONDITION@;
    let b = condition_of(bt, false, text.reason@, text.message@, repo.generation, now);
    let start = upserted(conds, b);
    written_condition_is_shown(
        conds,
        bt,
        false,
        text.reason@,
        text.message@,
        repo.generation,
        now,
    );
    let reason = opt_text(text.seed_reason);
    let s = condition_of(st, false, reason->0, text.message@, repo.generation, now);
    let seeded = seed_folded(start, repo.generation, reason, text.message@, now);
    if reason is Some {
        written_condition_is_shown(
            start,
            st,
            false,
            reason->0,
            text.message@,
            repo.generation,
            now,
        );
        upsert_keeps_other_types(start, s, bt);
    } else {
        without_drops_only_its_type(start, st);
        position_is_first(seeded, st);
        without_keeps_other_types(start, st, bt);
    }
    outcome_is_shown_in_all_three(
        seeded,
        repo.generation,
        outcome,
        text.reason@,
        text.message@,
        now,
    );
    let out = failed_conditions(repo, text, outcome, now);
    assert(lookup(out, bt) == lookup(seeded, bt));
    assert(lookup(out, st) == lookup(seeded, st));
    assert forall|t: Seq<char>|
        t != "Ready"@ && t != "Reconciling"@ && t != "Stalled"@ && t != "Seeded"@ && t
            != "Bootstrapped"@ implies #[trigger] lookup(out, t) == lookup(conds, t) by {
        assert(lookup(out, t) == lookup(seeded, t));
        if reason is Some {
            upsert_keeps_other_types(start, s, t);
        } else {
            without_keeps_other_types(start, st, t);
        }
        upsert_keeps_other_types(conds, b, t);
    }
}

/// A bootstrap that is retried degrades the repository and is still worked on;
/// one that is parked fails it and stalls. Both keep the identity that was
/// bound, and only a stamped streak touches the health.
pub proof fn retried_degrades_and_parked_fails(
    repo: RepositoryState,
    backend: Seq<char>,
    text: FailureText,
    streak: Option<StreakStamp>,
    now: Seq<char>,
)
    ensures
        ({
            let r = recycled_patch(repo, backend, text, streak, now);
            let p = parked_patch(repo, backend, text, now);
            let g = repo.generation;
            &&& r.phase == Some("Degraded"@)
            &&& p.phase == Some("Failed"@)
            &&& r.backend == Some(backend) && p.backend == Some(backend)
            &&& r.observed_generation == Some(g) && p.observed_generation == Some(g)
            &&& r.conditions is Some && p.conditions is Some
            &&& shows(r.conditions->0, "Bootstrapped"@, false, text.reason@, text.message@, g)
            &&& shows(r.conditions->0, "Ready"@, false, text.reason@, text.message@, g)
            &&& shows(r.conditions->0, "Reconciling"@, true, text.reason@, text.message@, g)
            &&& shows(r.conditions->0, "Stalled"@, false, text.reason@, text.message@, g)
            &&& shows(p.conditions->0, "Bootstrapped"@, false, text.reason@, text.message@, g)
            &&& shows(p.conditions->0, "Ready"@, false, text.reason@, text.message@, g)
            &&& shows(p.conditions->0, "Reconciling"@, false, text.reason@, text.message@, g)
            &&& shows(p.conditions->0, "Stalled"@, true, text.reason@, text.message@, g)
            &&& streak is Some ==> r.health == Some(HealthPatchView::Fold(streak->0.health@))
            &&& streak is None ==> r.health is None
            &&& p.health is None
            &&& touches_no_other_key(r) && touches_no_other_key(p)
        }),
{
    failed_bootstrap_is_shown(repo, text, ReadyOutcome::Reconciling, now);
    failed_bootstrap_is_shown(repo, text, ReadyOutcome::Stalled, now);
}

/// Whether a patch leaves alone what no failure decides: the identity, the
/// namespaces, the Secret's revision, the stamps, the figures and the seed.
pub open spec fn touches_no_other_key(p: StatusPatchView) -> bool {
    &&& p.unique_id is None
    &&& p.allowed_namespace_count is None
    &&& p.resolved_credential_version is None
    &&& p.last_reverify_at is None
    &&& p.storage_stats is None
    &&& p.parameters is None
    &&& p.catalog is None
    &&& p.seed is None
}

/// A backend verdict puts a repository where the breaker says: in its phase,
/// shown in the standard conditions under its reason, with the sensor's fold of
/// the health. An outage records the failed bootstrap exactly where the breaker
/// opened; a probe records none, and neither the backend nor the generation.
pub proof fn backend_verdict_follows_the_breaker(
    repo: RepositoryState,
    backend: Seq<char>,
    text: FailureText,
    sensor: SensorFold,
    breaker: BreakerPhase,
    now: Seq<char>,
)
    ensures
        ({
            let o = outage_patch(repo, backend, text, sensor, breaker, now);
            let p = probe_failure_patch(repo, sensor, breaker, now);
            let g = repo.generation;
            let before = views(sensor.conditions@);
            let reason = breaker.ready_reason@;
            let message = breaker.ready_message@;
            let ready = breaker.phase is Ready;
            let failed = breaker.phase is Failed;
            &&& o.phase == Some(phase_word(breaker.phase)) && p.phase == Some(
                phase_word(breaker.phase),
            )
            &&& o.health == Some(HealthPatchView::Fold(sensor.health@)) && p.health == Some(
                HealthPatchView::Fold(sensor.health@),
            )
            &&& o.backend == Some(backend) && p.backend is None
            &&& o.observed_generation == Some(g) && p.observed_generation is None
            &&& o.conditions is Some && p.conditions is Some
            &&& shows(o.conditions->0, "Ready"@, ready, reason, message, g)
            &&& shows(o.conditions->0, "Stalled"@, failed, reason, message, g)
            &&& shows(o.conditions->0, "Reconciling"@, !ready && !failed, reason, message, g)
            &&& shows(p.conditions->0, "Ready"@, ready, reason, message, g)
            &&& shows(p.conditions->0, "Stalled"@, failed, reason, message, g)
            &&& shows(p.conditions->0, "Reconciling"@, !ready && !failed, reason, message, g)
            &&& breaker.opened ==> shows(
                o.conditions->0,
                "Bootstrapped"@,
                false,
                text.reason@,
                text.message@,
                g,
            )
            &&& !breaker.opened ==> lookup(o.conditions->0, "Bootstrapped"@) == lookup(
                before,
                "Bootstrapped"@,
            )
            &&& lookup(p.conditions->0, "Bootstrapped"@) == lookup(before, "Bootstrapped"@)
            &&& forall|t: Seq<char>|
                t != "Ready"@ && t != "Reconciling"@ && t != "Stalled"@ && t != "Bootstrapped"@
                    ==> #[trigger] lookup(o.conditions->0, t) == lookup(before, t)
            &&& forall|t: Seq<char>|
                t != "Ready"@ && t != "Reconciling"@ && t != "Stalled"@ ==> #[trigger] lookup(
                    p.conditions->0,
                    t,
                ) == lookup(before, t)
            &&& touches_no_other_key(o) && touches_no_other_key(p)
        }),
{
    finalize_types_differ();
    let before = views(sensor.conditions@);
    let bt = REPOSITORY_BOOTSTRAPPED_CONDITION@;
    let b = condition_of(bt, false, text.reason@, text.message@, repo.generation, now);
    written_condition_is_shown(
        before,
        bt,
        false,
        text.reason@,
        text.message@,
        repo.generation,
        now,
    );
    outcome_is_shown_in_all_three(
        upserted(before, b),
        repo.generation,
        phase_outcome(breaker.phase),
        breaker.ready_reason@,
        breaker.ready_message@,
        now,
    );
    outcome_is_shown_in_all_three(
        before,
        repo.generation,
        phase_outcome(breaker.phase),
        breaker.ready_reason@,
        breaker.ready_message@,
        now,
    );
    let o = outage_patch(repo, backend, text, sensor, breaker, now);
    assert forall|t: Seq<char>|
        t != "Ready"@ && t != "Reconciling"@ && t != "Stalled"@ && t != "Bootstrapped"@ implies #[trigger] lookup(
        o.conditions->0,
        t,
    ) == lookup(before, t) by {
        upsert_keeps_other_types(before, b, t);
    }
}

/// News is told, and only news: a write without a streak always, one with a
/// streak only on the way into `Degraded` or under a reason that does not stand
/// yet, and nothing where nothing was written. An alert is counted whenever it
/// is raised and published where something was written, and the breaker trips
/// where it opens on the way into `Degraded`.
pub proof fn only_news_is_told(
    repo: RepositoryState,
    reason: Seq<char>,
    stamp_streak: bool,
    alert: bool,
    opened: bool,
    wrote: bool,
)
    ensures
        ({
            let degraded = repo.phase == Some(RepositoryPhase::Degraded);
            let stands = standing_reason(views(repo.conditions@)) == Some(reason);
            let e = sensor_follow_up(repo, alert, opened, wrote);
            &&& recycle_is_news(repo, reason, stamp_streak, wrote) <==> wrote && !(stamp_streak
                && degraded && stands)
            &&& e.count_alert <==> alert
            &&& e.publish_alert <==> alert && wrote
            &&& e.trip <==> opened && wrote && !degraded
        }),
{
}

/// The reason that stands is the one of the first condition that records a
/// failed bootstrap, and none stands where none does.
pub proof fn first_failure_on_record_stands(conds: Seq<ConditionView>)
    ensures
        standing_reason(conds) is None <==> forall|k: int|
            0 <= k < conds.len() ==> !((#[trigger] conds[k]).type_ == "Bootstrapped"@
                && conds[k].status == "False"@),
        standing_reason(conds) matches Some(reason) ==> exists|k: int|
            0 <= k < conds.len() && (#[trigger] conds[k]).reason == reason && conds[k].type_
                == "Bootstrapped"@ && conds[k].status == "False"@ && forall|j: int|
                0 <= j < k ==> !((#[trigger] conds[j]).type_ == "Bootstrapped"@ && conds[j].status
                    == "False"@),
    decreases conds.len(),
{
    if conds.len() > 0 {
        let rest = conds.skip(1);
        first_failure_on_record_stands(rest);
        if conds[0].type_ == "Bootstrapped"@ && conds[0].status == "False"@ {
            assert(standing_reason(conds) == Some(conds[0].reason));
        } else if standing_reason(rest) is Some {
            let k = choose|k: int|
                0 <= k < rest.len() && (#[trigger] rest[k]).reason == standing_reason(rest)->0
                    && rest[k].type_ == "Bootstrapped"@ && rest[k].status == "False"@
                    && forall|j: int|
                    0 <= j < k ==> !((#[trigger] rest[j]).type_ == "Bootstrapped"@
                        && rest[j].status == "False"@);
            assert(conds[k + 1] == rest[k]);
            assert forall|j: int| 0 <= j < k + 1 implies !((#[trigger] conds[j]).type_
                == "Bootstrapped"@ && conds[j].status == "False"@) by {
                if j > 0 {
                    assert(conds[j] == rest[j - 1]);
                }
            }
        } else {
            assert forall|k: int| 0 <= k < conds.len() implies !((#[trigger] conds[k]).type_
                == "Bootstrapped"@ && conds[k].status == "False"@) by {
                if k > 0 {
                    assert(conds[k] == rest[k - 1]);
                }
            }
        }
    }
}

/// The backoff grows by one step with each failure of a streak, from none at
/// the first.
pub proof fn backoff_grows_with_the_streak(n: u32)
    ensures
        backoff_step(None) == 0,
        backoff_step(Some(0)) == 0,
        backoff_step(Some(1)) == 0,
        1 <= n < u32::MAX ==> backoff_step(Some((n + 1) as u32)) == backoff_step(Some(n)) + 1,
{
}

/// The note of an open breaker begins with what the breaker says and ends with
/// the last error.
pub proof fn breaker_note_ends_with_the_error(open_message: Seq<char>, last_error: Seq<char>)
    ensures
        ({
            let note = breaker_text(open_message, last_error);
            &&& open_message.len() + last_error.len() <= note.len()
            &&& note.take(open_message.len() as int) == open_message
            &&& note.skip(note.len() - last_error.len()) == last_error
        }),
{
    let note = breaker_text(open_message, last_error);
    assert(note.take(open_message.len() as int) =~= open_message);
    assert(note.skip(note.len() - last_error.len()) =~= last_error);
}

/// A gate that names its namespaces admits as many as it names, one that
/// admits all of them counts as less than none, and one that names none or
/// would have to be evaluated counts as none.
pub proof fn gate_counts_what_it_names(allowed: AllowedNamespaces)
    ensures
        allowed matches AllowedNamespaces::List(ns) ==> namespace_count(allowed) == ns@.len(),
        namespace_count(allowed) < 0 <==> allowed == AllowedNamespaces::All(true),
        namespace_count(allowed) >= -1,
        allowed is Selector || allowed == AllowedNamespaces::All(false) ==> namespace_count(allowed)
            == 0,
{
}

} // verus!
