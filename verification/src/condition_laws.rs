//! Laws of the condition updates: what a write keeps, what it changes, and
//! that repeating it changes nothing.
use crate::conditions::{
    condition_of, first_is_position, lookup, position, position_is_first, ready_folded, upserted,
    without, ConditionView, ReadyOutcome, READY_CONDITION, RECONCILING_CONDITION, STALLED_CONDITION,
};
use vstd::prelude::*;

verus! {

/// Whether a list already holds `c`, but for the time of its last transition.
pub open spec fn holds(conds: Seq<ConditionView>, c: ConditionView) -> bool {
    match lookup(conds, c.type_) {
        Some(found) => found == ConditionView {
            last_transition_time: found.last_transition_time,
            ..c
        },
        None => false,
    }
}

/// A write leaves the first condition of every other type as it was.
pub proof fn upsert_keeps_other_types(conds: Seq<ConditionView>, c: ConditionView, t: Seq<char>)
    requires
        t != c.type_,
    ensures
        lookup(upserted(conds, c), t) == lookup(conds, t),
{
    position_is_first(conds, t);
    position_is_first(conds, c.type_);
    let out = upserted(conds, c);
    let i = position(conds, c.type_);
    let p = position(conds, t);
    assert forall|j: int| 0 <= j < p implies (#[trigger] out[j]).type_ != t by {
        if j != i {
            assert(out[j] == conds[j]);
        }
    }
    if p < conds.len() {
        assert(out[p] == conds[p]);
        first_is_position(out, t, p);
    } else {
        assert forall|j: int| 0 <= j < out.len() implies (#[trigger] out[j]).type_ != t by {
            if j < conds.len() {
                assert(conds[j].type_ != t);
            }
        }
        first_is_position(out, t, out.len() as int);
    }
}

/// After a write the list holds what was written, and its transition time is
/// the earlier one exactly where the status word was already the same.
pub proof fn upsert_writes(conds: Seq<ConditionView>, c: ConditionView)
    ensures
        holds(upserted(conds, c), c),
        lookup(upserted(conds, c), c.type_)->0.last_transition_time == (match lookup(
            conds,
            c.type_,
        ) {
            Some(found) => if found.status == c.status {
                found.last_transition_time
            } else {
                c.last_transition_time
            },
            None => c.last_transition_time,
        }),
{
    position_is_first(conds, c.type_);
    let i = position(conds, c.type_);
    let out = upserted(conds, c);
    assert forall|j: int| 0 <= j < i implies (#[trigger] out[j]).type_ != c.type_ by {
        assert(out[j] == conds[j]);
    }
    first_is_position(out, c.type_, i);
}

/// Writing what a list already holds changes nothing, whatever the time.
pub proof fn upsert_of_held_is_noop(conds: Seq<ConditionView>, c: ConditionView)
    requires
        holds(conds, c),
    ensures
        upserted(conds, c) == conds,
{
    position_is_first(conds, c.type_);
    assert(upserted(conds, c) =~= conds);
}

/// A repeated write, at whatever later time, changes nothing.
pub proof fn upsert_is_idempotent(conds: Seq<ConditionView>, c: ConditionView, later: Seq<char>)
    ensures
        upserted(upserted(conds, c), ConditionView { last_transition_time: later, ..c })
            == upserted(conds, c),
{
    upsert_writes(conds, c);
    upsert_of_held_is_noop(
        upserted(conds, c),
        ConditionView { last_transition_time: later, ..c },
    );
}

/// A write keeps the order of the conditions: each one keeps its place and
/// type, and only a type that was not there is appended.
pub proof fn upsert_is_order_stable(conds: Seq<ConditionView>, c: ConditionView)
    ensures
        upserted(conds, c).len() == (if lookup(conds, c.type_) is Some {
            conds.len()
        } else {
            conds.len() + 1
        }),
        forall|j: int|
            0 <= j < conds.len() ==> (#[trigger] upserted(conds, c)[j]).type_ == conds[j].type_,
        forall|j: int|
            0 <= j < conds.len() && conds[j].type_ != c.type_ ==> #[trigger] upserted(conds, c)[j]
                == conds[j],
{
    position_is_first(conds, c.type_);
}

/// Two writes of different types, done over, give what they gave the first
/// time: a repeated pass writes nothing new.
pub proof fn upsert_pair_converges(
    conds: Seq<ConditionView>,
    a: ConditionView,
    b: ConditionView,
    later: Seq<char>,
)
    requires
        a.type_ != b.type_,
    ensures
        ({
            let once = upserted(upserted(conds, a), b);
            let a2 = ConditionView { last_transition_time: later, ..a };
            let b2 = ConditionView { last_transition_time: later, ..b };
            upserted(upserted(once, a2), b2) == once
        }),
{
    let first = upserted(conds, a);
    let once = upserted(first, b);
    let a2 = ConditionView { last_transition_time: later, ..a };
    let b2 = ConditionView { last_transition_time: later, ..b };
    upsert_writes(conds, a);
    upsert_keeps_other_types(first, b, a.type_);
    upsert_of_held_is_noop(once, a2);
    upsert_writes(first, b);
    upsert_of_held_is_noop(once, b2);
}

/// The three standard types are different words.
proof fn standard_types_differ()
    ensures
        READY_CONDITION@ != RECONCILING_CONDITION@,
        READY_CONDITION@ != STALLED_CONDITION@,
        RECONCILING_CONDITION@ != STALLED_CONDITION@,
{
    reveal_strlit("Ready");
    reveal_strlit("Reconciling");
    reveal_strlit("Stalled");
    assert(READY_CONDITION@.len() == 5);
    assert(RECONCILING_CONDITION@.len() == 11);
    assert(STALLED_CONDITION@.len() == 7);
}

/// After [`ready_folded`] exactly the standard condition that the outcome
/// names is `True`, and all three carry the reason, the message and the
/// generation.
pub proof fn ready_fold_shows_one_outcome(
    conds: Seq<ConditionView>,
    generation: Option<i64>,
    outcome: ReadyOutcome,
    reason: Seq<char>,
    message: Seq<char>,
    now: Seq<char>,
)
    ensures
        ({
            let out = ready_folded(conds, generation, outcome, reason, message, now);
            &&& holds(out, condition_of(
                READY_CONDITION@,
                outcome == ReadyOutcome::Ready,
                reason,
                message,
                generation,
                now,
            ))
            &&& holds(out, condition_of(
                RECONCILING_CONDITION@,
                outcome == ReadyOutcome::Reconciling,
                reason,
                message,
                generation,
                now,
            ))
            &&& holds(out, condition_of(
                STALLED_CONDITION@,
                outcome == ReadyOutcome::Stalled,
                reason,
                message,
                generation,
                now,
            ))
        }),
{
    standard_types_differ();
    let ready = condition_of(
        READY_CONDITION@,
        outcome == ReadyOutcome::Ready,
        reason,
        message,
        generation,
        now,
    );
    let reconciling = condition_of(
        RECONCILING_CONDITION@,
        outcome == ReadyOutcome::Reconciling,
        reason,
        message,
        generation,
        now,
    );
    let stalled = condition_of(
        STALLED_CONDITION@,
        outcome == ReadyOutcome::Stalled,
        reason,
        message,
        generation,
        now,
    );
    let first = upserted(conds, ready);
    let second = upserted(first, reconciling);
    upsert_writes(conds, ready);
    upsert_writes(first, reconciling);
    upsert_writes(second, stalled);
    upsert_keeps_other_types(first, reconciling, READY_CONDITION@);
    upsert_keeps_other_types(second, stalled, READY_CONDITION@);
    upsert_keeps_other_types(second, stalled, RECONCILING_CONDITION@);
}

/// A list that already shows an outcome is left alone by the same fold at a
/// later time: a steady pass writes nothing.
pub proof fn ready_fold_is_idempotent(
    conds: Seq<ConditionView>,
    generation: Option<i64>,
    outcome: ReadyOutcome,
    reason: Seq<char>,
    message: Seq<char>,
    now: Seq<char>,
    later: Seq<char>,
)
    ensures
        ({
            let once = ready_folded(conds, generation, outcome, reason, message, now);
            ready_folded(once, generation, outcome, reason, message, later) == once
        }),
{
    let once = ready_folded(conds, generation, outcome, reason, message, now);
    ready_fold_shows_one_outcome(conds, generation, outcome, reason, message, now);
    upsert_of_held_is_noop(once, condition_of(
        READY_CONDITION@,
        outcome == ReadyOutcome::Ready,
        reason,
        message,
        generation,
        later,
    ));
    upsert_of_held_is_noop(once, condition_of(
        RECONCILING_CONDITION@,
        outcome == ReadyOutcome::Reconciling,
        reason,
        message,
        generation,
        later,
    ));
    upsert_of_held_is_noop(once, condition_of(
        STALLED_CONDITION@,
        outcome == ReadyOutcome::Stalled,
        reason,
        message,
        generation,
        later,
    ));
}

/// The standard fold leaves every other condition as it was.
pub proof fn ready_fold_keeps_other_types(
    conds: Seq<ConditionView>,
    generation: Option<i64>,
    outcome: ReadyOutcome,
    reason: Seq<char>,
    message: Seq<char>,
    now: Seq<char>,
    t: Seq<char>,
)
    requires
        t != READY_CONDITION@,
        t != RECONCILING_CONDITION@,
        t != STALLED_CONDITION@,
    ensures
        lookup(ready_folded(conds, generation, outcome, reason, message, now), t) == lookup(
            conds,
            t,
        ),
{
    let ready = condition_of(
        READY_CONDITION@,
        outcome == ReadyOutcome::Ready,
        reason,
        message,
        generation,
        now,
    );
    let reconciling = condition_of(
        RECONCILING_CONDITION@,
        outcome == ReadyOutcome::Reconciling,
        reason,
        message,
        generation,
        now,
    );
    let stalled = condition_of(
        STALLED_CONDITION@,
        outcome == ReadyOutcome::Stalled,
        reason,
        message,
        generation,
        now,
    );
    let first = upserted(conds, ready);
    let second = upserted(first, reconciling);
    upsert_keeps_other_types(conds, ready, t);
    upsert_keeps_other_types(first, reconciling, t);
    upsert_keeps_other_types(second, stalled, t);
}

/// Dropping a type leaves no condition of it and removes no other.
pub proof fn without_drops_only_its_type(conds: Seq<ConditionView>, t: Seq<char>)
    ensures
        forall|j: int| 0 <= j < without(conds, t).len() ==> (#[trigger] without(conds, t)[j]).type_
            != t,
        forall|c: ConditionView| c.type_ != t ==> (#[trigger] without(conds, t).contains(c)
            == conds.contains(c)),
    decreases conds.len(),
{
    if conds.len() > 0 {
        let front = conds.drop_last();
        without_drops_only_its_type(front, t);
        let out = without(conds, t);
        assert(conds =~= front.push(conds.last()));
        assert forall|c: ConditionView| c.type_ != t implies (#[trigger] out.contains(c)
            == conds.contains(c)) by {
            assert(without(front, t).contains(c) == front.contains(c));
            if conds.last().type_ != t {
                assert(out == without(front, t).push(conds.last()));
                if out.contains(c) {
                    let k = choose|k: int| 0 <= k < out.len() && out[k] == c;
                    if k < without(front, t).len() {
                        assert(without(front, t)[k] == c);
                        let m = choose|m: int| 0 <= m < front.len() && front[m] == c;
                        assert(conds[m] == c);
                    } else {
                        assert(conds[conds.len() - 1] == c);
                    }
                }
                if conds.contains(c) {
                    let k = choose|k: int| 0 <= k < conds.len() && conds[k] == c;
                    if k < front.len() {
                        assert(front[k] == c);
                        let m = choose|m: int|
                            0 <= m < without(front, t).len() && without(front, t)[m] == c;
                        assert(out[m] == c);
                    } else {
                        assert(out[out.len() - 1] == c);
                    }
                }
            } else {
                if conds.contains(c) {
                    let k = choose|k: int| 0 <= k < conds.len() && conds[k] == c;
                    assert(front[k] == c);
                }
                if front.contains(c) {
                    let k = choose|k: int| 0 <= k < front.len() && front[k] == c;
                    assert(conds[k] == c);
                }
            }
        }
    }
}

/// Dropping a type that is not there changes nothing.
pub proof fn without_absent_is_noop(conds: Seq<ConditionView>, t: Seq<char>)
    requires
        forall|j: int| 0 <= j < conds.len() ==> (#[trigger] conds[j]).type_ != t,
    ensures
        without(conds, t) == conds,
    decreases conds.len(),
{
    if conds.len() > 0 {
        let front = conds.drop_last();
        assert forall|j: int| 0 <= j < front.len() implies (#[trigger] front[j]).type_ != t by {
            assert(conds[j].type_ != t);
        }
        without_absent_is_noop(front, t);
        assert(conds[conds.len() - 1].type_ != t);
        assert(conds =~= front.push(conds.last()));
    }
}

/// Dropping a type twice is dropping it once.
pub proof fn without_is_idempotent(conds: Seq<ConditionView>, t: Seq<char>)
    ensures
        without(without(conds, t), t) == without(conds, t),
{
    without_drops_only_its_type(conds, t);
    without_absent_is_noop(without(conds, t), t);
}

/// Whether the condition of a type stands in a list with these values: its
/// status is written as `True` or `False`.
pub open spec fn shows(
    conds: Seq<ConditionView>,
    t: Seq<char>,
    status: bool,
    reason: Seq<char>,
    message: Seq<char>,
    generation: Option<i64>,
) -> bool {
    &&& lookup(conds, t) is Some
    &&& lookup(conds, t)->0.type_ == t
    &&& lookup(conds, t)->0.status == (if status {
        "True"@
    } else {
        "False"@
    })
    &&& lookup(conds, t)->0.reason == reason
    &&& lookup(conds, t)->0.message == message
    &&& lookup(conds, t)->0.observed_generation == generation
}

/// What is written is shown, under its own type, and stays the first of it: a
/// reader sees the status, the reason, the message and the generation of the
/// write. The time is the one of the write where the status word changed, and
/// the standing one where it did not.
pub proof fn written_condition_is_shown(
    conds: Seq<ConditionView>,
    t: Seq<char>,
    status: bool,
    reason: Seq<char>,
    message: Seq<char>,
    generation: Option<i64>,
    now: Seq<char>,
)
    ensures
        ({
            let out = upserted(conds, condition_of(t, status, reason, message, generation, now));
            let word = if status {
                "True"@
            } else {
                "False"@
            };
            let kept = lookup(conds, t) is Some && lookup(conds, t)->0.status == word;
            &&& shows(out, t, status, reason, message, generation)
            &&& lookup(out, t)->0.last_transition_time == (if kept {
                lookup(conds, t)->0.last_transition_time
            } else {
                now
            })
        }),
{
    upsert_writes(conds, condition_of(t, status, reason, message, generation, now));
}

/// An object shows its outcome in all three standard conditions at once: the
/// one that the outcome names is `True`, the two others are `False`, and each
/// bears the reason, the message and the generation.
pub proof fn outcome_is_shown_in_all_three(
    conds: Seq<ConditionView>,
    generation: Option<i64>,
    outcome: ReadyOutcome,
    reason: Seq<char>,
    message: Seq<char>,
    now: Seq<char>,
)
    ensures
        ({
            let out = ready_folded(conds, generation, outcome, reason, message, now);
            &&& shows(out, "Ready"@, outcome == ReadyOutcome::Ready, reason, message, generation)
            &&& shows(
                out,
                "Reconciling"@,
                outcome == ReadyOutcome::Reconciling,
                reason,
                message,
                generation,
            )
            &&& shows(out, "Stalled"@, outcome == ReadyOutcome::Stalled, reason, message, generation)
            &&& forall|t: Seq<char>|
                t != "Ready"@ && t != "Reconciling"@ && t != "Stalled"@ ==> #[trigger] lookup(out, t)
                    == lookup(conds, t)
        }),
{
    ready_fold_shows_one_outcome(conds, generation, outcome, reason, message, now);
    let out = ready_folded(conds, generation, outcome, reason, message, now);
    assert forall|t: Seq<char>|
        t != "Ready"@ && t != "Reconciling"@ && t != "Stalled"@ implies #[trigger] lookup(out, t)
        == lookup(conds, t) by {
        ready_fold_keeps_other_types(conds, generation, outcome, reason, message, now, t);
    }
}

} // verus!
