//! Laws of seeding: the attempt marker is a fact about the first attempt, a
//! finished seed folds the same way for ever, and no patch loses a key.
use crate::conditions::{condition_of, lookup, position_is_first, without, ConditionView};
use crate::condition_laws::{holds, upsert_writes, without_drops_only_its_type};
use crate::seed::{
    copied_count, folded_status, marker_of, merged_seed, records_failure, resumes, seed_folded,
    seed_over, seed_patch_is_noop, seeded_text, SeedMode, SeedOutcome, SeedStatusView,
    SEEDED_CONDITION,
};
use crate::text::{decimal, filled};
use vstd::prelude::*;

verus! {

/// `status.seed` before anything was written to it.
pub open spec fn empty_seed() -> SeedStatusView {
    SeedStatusView {
        started_at: None,
        seeded_at: None,
        mode: None,
        source: None,
        snapshot_count: None,
        snapshots_copied: None,
    }
}

/// `status.seed` after an optional patch was written.
pub open spec fn after_patch(
    stored: Option<SeedStatusView>,
    patch: Option<SeedStatusView>,
) -> Option<SeedStatusView> {
    match patch {
        None => stored,
        Some(p) => Some(
            seed_over(
                p,
                match stored {
                    Some(s) => s,
                    None => empty_seed(),
                },
            ),
        ),
    }
}

/// A marker is stamped once: with the same mode and source, what the first
/// stamp left behind is never stamped again, whatever the time.
pub proof fn marker_is_stamped_once(
    stored: Option<SeedStatusView>,
    mode: SeedMode,
    source: Seq<char>,
    now: Seq<char>,
    later: Seq<char>,
)
    requires
        now.len() > 0,
    ensures
        marker_of(after_patch(stored, marker_of(stored, mode, source, now)), mode, source, later)
            is None,
{
}

/// A finished seed never gets a marker.
pub proof fn no_marker_over_a_finished_seed(
    stored: SeedStatusView,
    mode: SeedMode,
    source: Seq<char>,
    now: Seq<char>,
)
    requires
        filled(stored.seeded_at),
    ensures
        marker_of(Some(stored), mode, source, now) is None,
{
}

/// A recorded starting time survives every later marker.
pub proof fn marker_keeps_the_first_start(
    stored: SeedStatusView,
    mode: SeedMode,
    source: Seq<char>,
    now: Seq<char>,
)
    requires
        filled(stored.started_at),
    ensures
        after_patch(Some(stored), marker_of(Some(stored), mode, source, now))->0.started_at
            == stored.started_at,
{
}

/// The marker and the decision to resume agree: where no seed finished, an
/// armed seed resumes once the marker for it was written.
pub proof fn marker_makes_an_armed_seed_resume(
    stored: Option<SeedStatusView>,
    mode: SeedMode,
    source: Seq<char>,
    now: Seq<char>,
)
    requires
        now.len() > 0,
        stored is Some ==> !filled(stored->0.seeded_at),
    ensures
        resumes(true, after_patch(stored, marker_of(stored, mode, source, now))),
{
}

/// Without a recorded attempt nothing is resumed, and a finished seed is not
/// resumed either.
pub proof fn resume_needs_an_unfinished_attempt(armed: bool, stored: Option<SeedStatusView>)
    ensures
        resumes(armed, stored) ==> armed && stored is Some && filled(stored->0.started_at)
            && !filled(stored->0.seeded_at),
        !armed ==> !resumes(armed, stored),
{
}

/// Folding a finished seed again, at whatever later time, names nothing that
/// is not stored already: the steady pass writes nothing.
pub proof fn refold_is_a_noop(
    outcome: SeedOutcome,
    stored: Option<SeedStatusView>,
    now: Seq<char>,
    later: Seq<char>,
)
    ensures
        ({
            let once = after_patch(stored, Some(folded_status(outcome, stored, now)))->0;
            seed_patch_is_noop(once, folded_status(outcome, Some(once), later))
        }),
{
}

/// A fold carries the attempt marker forward and stamps the finishing time
/// once.
pub proof fn fold_keeps_both_stamps(
    outcome: SeedOutcome,
    stored: SeedStatusView,
    now: Seq<char>,
)
    ensures
        folded_status(outcome, Some(stored), now).started_at == stored.started_at,
        outcome.performed && stored.seeded_at is Some ==> folded_status(
            outcome,
            Some(stored),
            now,
        ).seeded_at == stored.seeded_at,
{
}

/// Merging a fold into a patch drops no key that the patch already names, and
/// takes over every key that the fold names.
pub proof fn merge_drops_no_key(patch: SeedStatusView, fold: SeedStatusView)
    ensures
        ({
            let merged = merged_seed(Some(patch), Some(fold))->0;
            &&& patch.started_at is Some ==> merged.started_at is Some
            &&& patch.seeded_at is Some ==> merged.seeded_at is Some
            &&& patch.mode is Some ==> merged.mode is Some
            &&& patch.source is Some ==> merged.source is Some
            &&& patch.snapshot_count is Some ==> merged.snapshot_count is Some
            &&& patch.snapshots_copied is Some ==> merged.snapshots_copied is Some
            &&& fold.started_at is Some ==> merged.started_at == fold.started_at
            &&& fold.seeded_at is Some ==> merged.seeded_at == fold.seeded_at
            &&& fold.mode is Some ==> merged.mode == fold.mode
            &&& fold.source is Some ==> merged.source == fold.source
            &&& fold.snapshot_count is Some ==> merged.snapshot_count == fold.snapshot_count
            &&& fold.snapshots_copied is Some ==> merged.snapshots_copied == fold.snapshots_copied
        }),
{
}

/// A failure that says nothing of the seed leaves no `Seeded` condition
/// standing; a failure of the seed leaves exactly its own.
pub proof fn failure_fold_tells_the_truth(
    conditions: Seq<ConditionView>,
    generation: Option<i64>,
    seed_reason: Option<Seq<char>>,
    message: Seq<char>,
    now: Seq<char>,
)
    ensures
        seed_reason is None ==> lookup(
            seed_folded(conditions, generation, seed_reason, message, now),
            SEEDED_CONDITION@,
        ) is None,
        seed_reason is Some ==> holds(
            seed_folded(conditions, generation, seed_reason, message, now),
            condition_of(SEEDED_CONDITION@, false, seed_reason->0, message, generation, now),
        ),
{
    if seed_reason is None {
        let out = without(conditions, SEEDED_CONDITION@);
        without_drops_only_its_type(conditions, SEEDED_CONDITION@);
        position_is_first(out, SEEDED_CONDITION@);
    } else {
        upsert_writes(
            conditions,
            condition_of(SEEDED_CONDITION@, false, seed_reason->0, message, generation, now),
        );
    }
}

/// A marker is due unless the seed finished or this very attempt is on record,
/// and it says what is attempted: the mode, the source and the first start, and
/// nothing of an end.
pub proof fn marker_says_what_is_attempted(
    stored: Option<SeedStatusView>,
    mode: SeedMode,
    source: Seq<char>,
    now: Seq<char>,
)
    requires
        now.len() > 0,
    ensures
        ({
            let marker = marker_of(stored, mode, source, now);
            let finished = stored is Some && stored->0.seeded_at is Some
                && stored->0.seeded_at->0.len() > 0;
            let started = stored is Some && stored->0.started_at is Some
                && stored->0.started_at->0.len() > 0;
            let on_record = started && stored->0.mode == Some(mode) && stored->0.source == Some(
                source,
            );
            &&& marker is None <==> finished || on_record
            &&& marker is Some ==> {
                &&& marker->0.mode == Some(mode)
                &&& marker->0.source == Some(source)
                &&& started ==> marker->0.started_at == stored->0.started_at
                &&& !started ==> marker->0.started_at == Some(now)
                &&& marker->0.seeded_at is None
                &&& marker->0.snapshot_count is None
                &&& marker->0.snapshots_copied is None
            }
        }),
{
}

/// An armed seed resumes exactly where an attempt is on record and none
/// finished.
pub proof fn unfinished_attempt_is_resumed(armed: bool, stored: Option<SeedStatusView>)
    ensures
        resumes(armed, stored) <==> {
            &&& armed
            &&& stored is Some
            &&& stored->0.started_at is Some && stored->0.started_at->0.len() > 0
            &&& !(stored->0.seeded_at is Some && stored->0.seeded_at->0.len() > 0)
        },
{
}

/// A fold says what the mover did: its mode and its source, and, where it
/// copied, what it copied and when it was first seen to have finished. A seed
/// that found the repository already there claims neither an end nor a copy.
pub proof fn fold_says_what_the_mover_did(
    outcome: SeedOutcome,
    stored: Option<SeedStatusView>,
    now: Seq<char>,
)
    ensures
        ({
            let f = folded_status(outcome, stored, now);
            let seen = stored is Some && stored->0.seeded_at is Some;
            &&& f.mode == Some(outcome.mode)
            &&& f.source == Some(outcome.source@)
            &&& stored is Some ==> f.started_at == stored->0.started_at
            &&& stored is None ==> f.started_at is None
            &&& outcome.performed ==> {
                &&& seen ==> f.seeded_at == stored->0.seeded_at
                &&& !seen ==> f.seeded_at == Some(now)
                &&& f.snapshot_count == outcome.snapshot_count
                &&& f.snapshots_copied == outcome.snapshots_copied
            }
            &&& !outcome.performed ==> f.seeded_at is None && f.snapshot_count is None
                && f.snapshots_copied is None
        }),
{
}

/// What is laid over wins key by key, and what it leaves open stays as it was.
pub proof fn laid_over_wins_key_by_key(top: SeedStatusView, base: SeedStatusView)
    ensures
        ({
            let out = seed_over(top, base);
            &&& out.started_at == (if top.started_at is Some {
                top.started_at
            } else {
                base.started_at
            })
            &&& out.seeded_at == (if top.seeded_at is Some {
                top.seeded_at
            } else {
                base.seeded_at
            })
            &&& out.mode == (if top.mode is Some {
                top.mode
            } else {
                base.mode
            })
            &&& out.source == (if top.source is Some {
                top.source
            } else {
                base.source
            })
            &&& out.snapshot_count == (if top.snapshot_count is Some {
                top.snapshot_count
            } else {
                base.snapshot_count
            })
            &&& out.snapshots_copied == (if top.snapshots_copied is Some {
                top.snapshots_copied
            } else {
                base.snapshots_copied
            })
            &&& merged_seed(Some(base), Some(top)) == Some(out)
            &&& merged_seed(None, Some(top)) == Some(top)
            &&& merged_seed(Some(base), None) == Some(base)
            &&& merged_seed(None, None) is None
        }),
{
}

/// A copy is told with its source, its mode and how many snapshots it left: as
/// many as were copied, else as many as there are.
pub proof fn copy_is_told_with_its_count(outcome: SeedOutcome)
    ensures
        outcome.snapshots_copied is Some ==> copied_count(outcome) == outcome.snapshots_copied->0,
        outcome.snapshots_copied is None && outcome.snapshot_count is Some ==> copied_count(outcome)
            == outcome.snapshot_count->0,
        outcome.snapshots_copied is None && outcome.snapshot_count is None ==> copied_count(outcome)
            == 0,
        seeded_text(outcome) == "seeded this repository from "@ + outcome.source@ + (
        if outcome.mode == SeedMode::Blob {
            " (blob mode); "@
        } else {
            " (migrate mode); "@
        }) + decimal(copied_count(outcome)) + " snapshot(s) present"@,
{
    reveal_strlit(" (");
    reveal_strlit("blob");
    reveal_strlit("migrate");
    reveal_strlit(" mode); ");
    reveal_strlit(" (blob mode); ");
    reveal_strlit(" (migrate mode); ");
    let a = "seeded this repository from "@ + outcome.source@;
    let b = decimal(copied_count(outcome)) + " snapshot(s) present"@;
    if outcome.mode == SeedMode::Blob {
        assert(" ("@ + "blob"@ + " mode); "@ =~= " (blob mode); "@);
        assert(a + " ("@ + "blob"@ + " mode); "@ =~= a + " (blob mode); "@);
    } else {
        assert(" ("@ + "migrate"@ + " mode); "@ =~= " (migrate mode); "@);
        assert(a + " ("@ + "migrate"@ + " mode); "@ =~= a + " (migrate mode); "@);
    }
}

/// A condition records a failed seed only where it is the seed's own, is false,
/// and names one of the ways a seed fails: a seed that runs or waits is none.
pub proof fn running_or_waiting_seed_has_not_failed(c: ConditionView)
    ensures
        records_failure(c) ==> c.type_ == "Seeded"@ && c.status == "False"@,
        c.reason == "Seeding"@ || c.reason == "Seeded"@ || c.reason == "AlreadyInitialized"@
            ==> !records_failure(c),
        c.type_ == "Seeded"@ && c.status == "False"@ && (c.reason == "SeedSourceNotFound"@
            || c.reason == "SeedSourceEmpty"@ || c.reason == "SeedIncomplete"@ || c.reason
            == "SeedLeftEmpty"@ || c.reason == "SeedMoverTooOld"@) ==> records_failure(c),
{
    reveal_strlit("Seeding");
    reveal_strlit("Seeded");
    reveal_strlit("AlreadyInitialized");
    reveal_strlit("SeedSourceNotFound");
    reveal_strlit("SeedSourceEmpty");
    reveal_strlit("SeedIncomplete");
    reveal_strlit("SeedLeftEmpty");
    reveal_strlit("SeedMoverTooOld");
    assert("Seeding"@.len() == 7 && "Seeded"@.len() == 6);
    assert("AlreadyInitialized"@.len() == 18 && "SeedSourceNotFound"@.len() == 18);
    assert("AlreadyInitialized"@[0] == 'A' && "SeedSourceNotFound"@[0] == 'S');
}

} // verus!
