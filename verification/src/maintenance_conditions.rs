//! The conditions of a `Maintenance`, and when they are written.
use crate::condition_laws::{ready_fold_shows_one_outcome, upsert_is_order_stable};
use crate::conditions::{
    condition_of, find_condition, lookup, position_is_first, ready_folded, set_ready, status_word,
    upserted, views, Condition, ConditionView, ReadyOutcome, READY_CONDITION, RECONCILING_CONDITION,
    STALLED_CONDITION,
};
use crate::lists::{first_where, first_where_is};
use crate::text::same_text;
use vstd::prelude::*;
use vstd::string::StringExecFns;

verus! {

/// `type` of the condition that says who maintains the repository.
pub const LEASE_OWNED_CONDITION: &'static str = "LeaseOwned";

/// `reason` where somebody else holds the lease. Assumed to be the word that
/// the mover writes; nothing here can tell.
pub const LEASE_HELD_BY_OTHER_REASON: &'static str = "LeaseHeldByOther";

/// `reason` where a takeover has to be allowed first. Assumed to be the word
/// that the mover writes; nothing here can tell.
pub const LEASE_TAKEOVER_PROMPT_REASON: &'static str = "LeaseTakeoverPrompt";

/// What is written into a status: the generation it speaks of, and all of its
/// conditions.
pub struct ConditionsPatch {
    pub observed_generation: i64,
    pub conditions: Vec<Condition>,
}

/// The generation that a status speaks of.
pub open spec fn observed(generation: Option<i64>) -> i64 {
    match generation {
        Some(g) => g,
        None => 0,
    }
}

fn observed_generation(generation: Option<i64>) -> (observed_: i64)
    ensures
        observed_ == observed(generation),
{
    match generation {
        Some(g) => g,
        None => 0,
    }
}

/// Whether the first condition of a type says a status for a reason.
pub open spec fn says(
    conds: Seq<ConditionView>,
    t: Seq<char>,
    status: Seq<char>,
    reason: Seq<char>,
) -> bool {
    lookup(conds, t) is Some && lookup(conds, t)->0.status == status && lookup(conds, t)->0.reason
        == reason
}

fn already_says(conds: &Vec<Condition>, t: &str, status: &str, reason: &str) -> (yes: bool)
    ensures
        yes == says(views(conds@), t@, status@, reason@),
{
    match find_condition(conds, t) {
        Some(i) => same_text(conds[i].status.as_str(), status) && same_text(
            conds[i].reason.as_str(),
            reason,
        ),
        None => false,
    }
}

/// The lease condition that is written.
pub open spec fn lease_condition(
    generation: Option<i64>,
    status: Seq<char>,
    reason: Seq<char>,
    message: Seq<char>,
    now: Seq<char>,
) -> ConditionView {
    ConditionView {
        type_: LEASE_OWNED_CONDITION@,
        status,
        reason,
        message,
        last_transition_time: now,
        observed_generation: Some(observed(generation)),
    }
}

/// Decides whether the lease condition is written: it is, as the only one,
/// unless the present one says the same status for the same reason.
pub fn patch_condition_if_changed(
    conds: &Vec<Condition>,
    generation: Option<i64>,
    status: &str,
    reason: &str,
    message: &str,
    now: &str,
) -> (patch: Option<ConditionsPatch>)
    ensures
        patch is None <==> says(views(conds@), LEASE_OWNED_CONDITION@, status@, reason@),
        patch is Some ==> patch->0.observed_generation == observed(generation) && views(
            patch->0.conditions@,
        ) == seq![lease_condition(generation, status@, reason@, message@, now@)],
{
    if already_says(conds, LEASE_OWNED_CONDITION, status, reason) {
        return None;
    }
    let g: i64 = observed_generation(generation);
    let mut conditions: Vec<Condition> = Vec::new();
    conditions.push(
        Condition {
            type_: LEASE_OWNED_CONDITION.to_owned(),
            status: status.to_owned(),
            reason: reason.to_owned(),
            message: message.to_owned(),
            last_transition_time: now.to_owned(),
            observed_generation: Some(g),
        },
    );
    proof {
        assert(views(conditions@) =~= seq![
            lease_condition(generation, status@, reason@, message@, now@),
        ]);
    }
    Some(ConditionsPatch { observed_generation: g, conditions })
}

/// Whether a condition says that runs yield to the holder of the lease.
pub open spec fn yields(c: ConditionView) -> bool {
    c.type_ == LEASE_OWNED_CONDITION@ && c.status == "False"@ && (c.reason
        == LEASE_HELD_BY_OTHER_REASON@ || c.reason == LEASE_TAKEOVER_PROMPT_REASON@)
}

/// What the first condition says that tells of yielding.
pub open spec fn lease_holder(conds: Seq<ConditionView>) -> Option<Seq<char>> {
    let at = first_where(conds, |c: ConditionView| yields(c));
    if at < conds.len() {
        Some(conds[at].message)
    } else {
        None
    }
}

fn find_holder(conds: &Vec<Condition>) -> (holder: Option<String>)
    ensures
        crate::text::opt_text(holder) == lease_holder(views(conds@)),
{
    let ghost p = |c: ConditionView| yields(c);
    let ghost all = views(conds@);
    let mut i: usize = 0;
    while i < conds.len()
        invariant
            i <= conds.len(),
            all == views(conds@),
            p == (|c: ConditionView| yields(c)),
            forall|j: int| 0 <= j < i ==> !p(#[trigger] all[j]),
        decreases conds.len() - i,
    {
        let c = &conds[i];
        assert(all[i as int] == c@);
        if same_text(c.type_.as_str(), LEASE_OWNED_CONDITION) && same_text(
            c.status.as_str(),
            "False",
        ) && (same_text(c.reason.as_str(), LEASE_HELD_BY_OTHER_REASON) || same_text(
            c.reason.as_str(),
            LEASE_TAKEOVER_PROMPT_REASON,
        )) {
            proof {
                first_where_is(all, p, i as int);
            }
            return Some(c.message.clone());
        }
        i = i + 1;
    }
    proof {
        first_where_is(all, p, i as int);
    }
    None
}

/// The text of [`yielding_message`].
pub open spec fn yielding_text(holder: Seq<char>) -> Seq<char> {
    "maintenance Jobs are yielding without running ("@
        + holder
        + "); repository GC/compaction is not happening. Fix: set spec.ownership.takeoverPolicy=Force once so the operator claims kopia's maintenance ownership, then revert it"@
}

/// What is said where runs yield to the holder of the lease.
fn yielding_message(holder: &str) -> (message: String)
    ensures
        message@ == yielding_text(holder@),
{
    let mut message = "maintenance Jobs are yielding without running (".to_owned();
    message.append(holder);
    message.append("); repository GC/compaction is not happening. Fix: set spec.ownership.takeoverPolicy=Force once so the operator claims kopia's maintenance ownership, then revert it");
    message
}

/// What readiness is told of a `Maintenance`: it stalls while runs yield, and
/// is ready otherwise.
pub open spec fn readiness(conds: Seq<ConditionView>) -> (ReadyOutcome, Seq<char>, Seq<char>) {
    match lease_holder(conds) {
        Some(holder) => (
            ReadyOutcome::Stalled,
            "MaintenanceYielding"@,
            yielding_text(holder),
        ),
        None => (
            ReadyOutcome::Ready,
            "Reconciled"@,
            "maintenance is reconciled; the target repository accepts maintenance"@,
        ),
    }
}

/// Whether the present conditions show the readiness already.
pub open spec fn readiness_shown(conds: Seq<ConditionView>) -> bool {
    says(
        conds,
        READY_CONDITION@,
        status_word(readiness(conds).0 == ReadyOutcome::Ready),
        readiness(conds).1,
    )
}

/// Decides whether readiness is written: it is, into the present conditions,
/// unless they show it already.
pub fn set_ready_if_changed(conds: &Vec<Condition>, generation: Option<i64>, now: &str) -> (patch:
    Option<ConditionsPatch>)
    ensures
        patch is None <==> readiness_shown(views(conds@)),
        patch is Some ==> patch->0.observed_generation == observed(generation) && views(
            patch->0.conditions@,
        ) == ready_folded(
            views(conds@),
            Some(observed(generation)),
            readiness(views(conds@)).0,
            readiness(views(conds@)).1,
            readiness(views(conds@)).2,
            now@,
        ),
{
    let holder = find_holder(conds);
    let (outcome, reason, message, word) = match holder {
        Some(h) => (
            ReadyOutcome::Stalled,
            "MaintenanceYielding",
            yielding_message(h.as_str()),
            "False",
        ),
        None => (
            ReadyOutcome::Ready,
            "Reconciled",
            "maintenance is reconciled; the target repository accepts maintenance".to_owned(),
            "True",
        ),
    };
    if already_says(conds, READY_CONDITION, word, reason) {
        return None;
    }
    let g: i64 = observed_generation(generation);
    let conditions = set_ready(conds, Some(g), outcome, reason, message.as_str(), now);
    Some(ConditionsPatch { observed_generation: g, conditions })
}

/// A lease condition that was written is not written again, whatever the
/// message and the time.
pub proof fn lease_condition_is_written_once(
    generation: Option<i64>,
    status: Seq<char>,
    reason: Seq<char>,
    message: Seq<char>,
    now: Seq<char>,
)
    ensures
        says(
            seq![lease_condition(generation, status, reason, message, now)],
            LEASE_OWNED_CONDITION@,
            status,
            reason,
        ),
{
}

proof fn other_write_keeps_the_holder(conds: Seq<ConditionView>, c: ConditionView)
    requires
        c.type_ != LEASE_OWNED_CONDITION@,
    ensures
        lease_holder(upserted(conds, c)) == lease_holder(conds),
{
    let p = |x: ConditionView| yields(x);
    let out = upserted(conds, c);
    upsert_is_order_stable(conds, c);
    position_is_first(conds, c.type_);
    let at = first_where(conds, p);
    holder_is_first(conds);
    assert forall|j: int| 0 <= j < conds.len() implies p(#[trigger] out[j]) == p(conds[j]) by {
        if conds[j].type_ != c.type_ {
            assert(out[j] == conds[j]);
        }
    }
    if at < conds.len() {
        assert(conds[at].type_ != c.type_);
        assert(out[at] == conds[at]);
        first_where_is(out, p, at);
    } else {
        assert forall|j: int| 0 <= j < out.len() implies !p(#[trigger] out[j]) by {
            if j < conds.len() {
                assert(!p(conds[j]));
            }
        }
        first_where_is(out, p, out.len() as int);
    }
}

proof fn holder_is_first(conds: Seq<ConditionView>)
    ensures
        ({
            let p = |x: ConditionView| yields(x);
            let at = first_where(conds, p);
            &&& 0 <= at <= conds.len()
            &&& at < conds.len() ==> p(conds[at])
            &&& forall|j: int| 0 <= j < at ==> !p(#[trigger] conds[j])
        }),
    decreases conds.len(),
{
    let p = |x: ConditionView| yields(x);
    if conds.len() > 0 && !p(conds[0]) {
        let rest = conds.skip(1);
        holder_is_first(rest);
        let at = first_where(conds, p);
        assert forall|j: int| 0 <= j < at implies !p(#[trigger] conds[j]) by {
            if j > 0 {
                assert(conds[j] == rest[j - 1]);
            }
        }
    }
}

proof fn lease_type_is_its_own()
    ensures
        LEASE_OWNED_CONDITION@ != READY_CONDITION@,
        LEASE_OWNED_CONDITION@ != RECONCILING_CONDITION@,
        LEASE_OWNED_CONDITION@ != STALLED_CONDITION@,
{
    reveal_strlit("LeaseOwned");
    reveal_strlit("Ready");
    reveal_strlit("Reconciling");
    reveal_strlit("Stalled");
    assert(LEASE_OWNED_CONDITION@.len() == 10);
    assert(READY_CONDITION@.len() == 5);
    assert(RECONCILING_CONDITION@.len() == 11);
    assert(STALLED_CONDITION@.len() == 7);
}

/// Writing readiness leaves the lease condition as the mover wrote it.
pub proof fn readiness_keeps_the_lease_condition(
    conds: Seq<ConditionView>,
    generation: Option<i64>,
    now: Seq<char>,
)
    ensures
        ({
            let (outcome, reason, message) = readiness(conds);
            let out = ready_folded(
                conds,
                Some(observed(generation)),
                outcome,
                reason,
                message,
                now,
            );
            lookup(out, LEASE_OWNED_CONDITION@) == lookup(conds, LEASE_OWNED_CONDITION@)
                && lease_holder(out) == lease_holder(conds)
        }),
{
    let (outcome, reason, message) = readiness(conds);
    let g = Some(observed(generation));
    lease_type_is_its_own();
    crate::condition_laws::ready_fold_keeps_other_types(
        conds,
        g,
        outcome,
        reason,
        message,
        now,
        LEASE_OWNED_CONDITION@,
    );
    let ready = condition_of(
        READY_CONDITION@,
        outcome == ReadyOutcome::Ready,
        reason,
        message,
        g,
        now,
    );
    let reconciling = condition_of(
        RECONCILING_CONDITION@,
        outcome == ReadyOutcome::Reconciling,
        reason,
        message,
        g,
        now,
    );
    let stalled = condition_of(
        STALLED_CONDITION@,
        outcome == ReadyOutcome::Stalled,
        reason,
        message,
        g,
        now,
    );
    let first = upserted(conds, ready);
    let second = upserted(first, reconciling);
    other_write_keeps_the_holder(conds, ready);
    other_write_keeps_the_holder(first, reconciling);
    other_write_keeps_the_holder(second, stalled);
}

/// Readiness that was written is not written again: a reconcile does not wake
/// itself up by its own status.
pub proof fn readiness_is_written_once(
    conds: Seq<ConditionView>,
    generation: Option<i64>,
    now: Seq<char>,
)
    ensures
        ({
            let (outcome, reason, message) = readiness(conds);
            readiness_shown(
                ready_folded(conds, Some(observed(generation)), outcome, reason, message, now),
            )
        }),
{
    let (outcome, reason, message) = readiness(conds);
    let g = Some(observed(generation));
    readiness_keeps_the_lease_condition(conds, generation, now);
    ready_fold_shows_one_outcome(conds, g, outcome, reason, message, now);
}

/// While runs yield, a `Maintenance` is not shown as ready.
pub proof fn yielding_is_never_ready(conds: Seq<ConditionView>)
    requires
        lease_holder(conds) is Some,
    ensures
        readiness(conds).0 == ReadyOutcome::Stalled,
        readiness_shown(conds) ==> lookup(conds, READY_CONDITION@)->0.status == "False"@,
{
}

/// A `Maintenance` stalls exactly while a lease condition says that its runs
/// yield, with what the first of these says, and is ready in every other case.
pub proof fn readiness_follows_the_lease(conds: Seq<ConditionView>)
    ensures
        ({
            let (outcome, reason, message) = readiness(conds);
            let yielding = exists|k: int| 0 <= k < conds.len() && tells_of_yielding(#[trigger] conds[k]);
            &&& outcome == ReadyOutcome::Stalled <==> yielding
            &&& outcome == ReadyOutcome::Ready <==> !yielding
            &&& yielding ==> reason == "MaintenanceYielding"@ && exists|k: int|
                0 <= k < conds.len() && tells_of_yielding(#[trigger] conds[k]) && message
                    == yielding_text(conds[k].message) && forall|j: int|
                    0 <= j < k ==> !tells_of_yielding(#[trigger] conds[j])
            &&& !yielding ==> reason == "Reconciled"@
        }),
{
    let p = |x: ConditionView| yields(x);
    holder_is_first(conds);
    let at = first_where(conds, p);
    assert forall|j: int| 0 <= j < conds.len() implies p(#[trigger] conds[j])
        == tells_of_yielding(conds[j]) by {}
    if at < conds.len() {
        assert(tells_of_yielding(conds[at]));
    }
}

/// Whether a condition is the lease's, is false, and says that somebody else
/// holds it or that a takeover has to be allowed.
pub open spec fn tells_of_yielding(c: ConditionView) -> bool {
    &&& c.type_ == "LeaseOwned"@
    &&& c.status == "False"@
    &&& c.reason == LEASE_HELD_BY_OTHER_REASON@ || c.reason == LEASE_TAKEOVER_PROMPT_REASON@
}

/// The message of a `Maintenance` that yields names the holder.
pub proof fn yielding_message_names_the_holder(holder: Seq<char>)
    ensures
        exists|i: int|
            0 <= i && i + holder.len() <= yielding_text(holder).len() && #[trigger] yielding_text(
                holder,
            ).subrange(i, i + holder.len()) == holder,
{
    let head = "maintenance Jobs are yielding without running ("@;
    let text = yielding_text(holder);
    let at: int = head.len() as int;
    assert(text.subrange(at, at + holder.len()) =~= holder);
}

/// A condition is taken for written only where the first one of its type has
/// this very status and this very reason; the generation that is written is the
/// object's own, or none.
pub proof fn only_the_same_condition_is_taken_for_written(
    conds: Seq<ConditionView>,
    t: Seq<char>,
    status: Seq<char>,
    reason: Seq<char>,
    generation: Option<i64>,
)
    ensures
        says(conds, t, status, reason) ==> lookup(conds, t) is Some && lookup(conds, t)->0.status
            == status && lookup(conds, t)->0.reason == reason,
        lookup(conds, t) is Some && lookup(conds, t)->0.status == status && lookup(
            conds,
            t,
        )->0.reason == reason ==> says(conds, t, status, reason),
        generation is Some ==> observed(generation) == generation->0,
        generation is None ==> observed(generation) == 0,
{
}

/// The lease condition that is written bears the lease's type and what it was
/// given.
pub proof fn lease_condition_says_what_it_was_given(
    generation: Option<i64>,
    status: Seq<char>,
    reason: Seq<char>,
    message: Seq<char>,
    now: Seq<char>,
)
    ensures
        ({
            let c = lease_condition(generation, status, reason, message, now);
            &&& c.type_ == "LeaseOwned"@ && c.status == status && c.reason == reason
            &&& c.message == message && c.last_transition_time == now
            &&& generation is Some ==> c.observed_generation == generation
            &&& generation is None ==> c.observed_generation == Some(0i64)
        }),
{
}

/// Readiness is taken for shown only where the `Ready` condition says it: true
/// and reconciled, or false and yielding.
pub proof fn readiness_is_shown_by_the_ready_condition(conds: Seq<ConditionView>)
    ensures
        readiness_shown(conds) <==> {
            let word = if readiness(conds).0 == ReadyOutcome::Ready {
                "True"@
            } else {
                "False"@
            };
            &&& lookup(conds, "Ready"@) is Some
            &&& lookup(conds, "Ready"@)->0.status == word
            &&& lookup(conds, "Ready"@)->0.reason == readiness(conds).1
        },
{
}

} // verus!
