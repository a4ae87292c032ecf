//! Status conditions: the typed entries of an object's `status.conditions`,
//! and the position-stable updates every status write is built from.
use crate::text::same_text;
use vstd::prelude::*;

verus! {

/// `type` of the condition that says an object is usable.
pub const READY_CONDITION: &'static str = "Ready";

/// `type` of the condition that says work is still going on.
pub const RECONCILING_CONDITION: &'static str = "Reconciling";

/// `type` of the condition that says nothing more will happen unaided.
pub const STALLED_CONDITION: &'static str = "Stalled";

/// One entry of `status.conditions`.
#[derive(Debug, PartialEq, Eq)]
pub struct Condition {
    pub type_: String,
    pub status: String,
    pub reason: String,
    pub message: String,
    pub last_transition_time: String,
    pub observed_generation: Option<i64>,
}

/// What a [`Condition`] says, as plain sequences.
#[verifier::ext_equal]
pub struct ConditionView {
    pub type_: Seq<char>,
    pub status: Seq<char>,
    pub reason: Seq<char>,
    pub message: Seq<char>,
    pub last_transition_time: Seq<char>,
    pub observed_generation: Option<i64>,
}

impl View for Condition {
    type V = ConditionView;

    open spec fn view(&self) -> ConditionView {
        ConditionView {
            type_: self.type_@,
            status: self.status@,
            reason: self.reason@,
            message: self.message@,
            last_transition_time: self.last_transition_time@,
            observed_generation: self.observed_generation,
        }
    }
}

/// What each condition of a list says.
pub open spec fn views(conds: Seq<Condition>) -> Seq<ConditionView> {
    conds.map_values(|c: Condition| c@)
}

impl Clone for Condition {
    fn clone(&self) -> (copy: Self)
        ensures
            copy == *self,
    {
        Condition {
            type_: self.type_.clone(),
            status: self.status.clone(),
            reason: self.reason.clone(),
            message: self.message.clone(),
            last_transition_time: self.last_transition_time.clone(),
            observed_generation: self.observed_generation,
        }
    }
}

/// A copy of a list of conditions.
pub fn copy_conditions(conds: &Vec<Condition>) -> (copy: Vec<Condition>)
    ensures
        copy@ == conds@,
{
    let mut copy: Vec<Condition> = Vec::new();
    let mut i: usize = 0;
    while i < conds.len()
        invariant
            i <= conds.len(),
            copy@ == conds@.take(i as int),
        decreases conds.len() - i,
    {
        copy.push(conds[i].clone());
        proof {
            assert(conds@.take(i + 1) =~= conds@.take(i as int).push(conds@[i as int]));
        }
        i = i + 1;
    }
    proof {
        assert(conds@.take(conds@.len() as int) =~= conds@);
    }
    copy
}

/// The wire word of a condition status.
pub open spec fn status_word(status: bool) -> Seq<char> {
    if status { "True"@ } else { "False"@ }
}

/// The position of the first condition of type `t`, or the length where there
/// is none.
pub open spec fn position(conds: Seq<ConditionView>, t: Seq<char>) -> int
    decreases conds.len(),
{
    if conds.len() == 0 {
        0
    } else if conds[0].type_ == t {
        0
    } else {
        1 + position(conds.skip(1), t)
    }
}

/// The first condition of type `t`.
pub open spec fn lookup(conds: Seq<ConditionView>, t: Seq<char>) -> Option<ConditionView> {
    if position(conds, t) < conds.len() {
        Some(conds[position(conds, t)])
    } else {
        None
    }
}

/// [`position`] is the least index that holds type `t`.
pub proof fn position_is_first(conds: Seq<ConditionView>, t: Seq<char>)
    ensures
        0 <= position(conds, t) <= conds.len(),
        position(conds, t) < conds.len() ==> conds[position(conds, t)].type_ == t,
        forall|j: int| 0 <= j < position(conds, t) ==> (#[trigger] conds[j]).type_ != t,
    decreases conds.len(),
{
    if conds.len() > 0 && conds[0].type_ != t {
        let rest = conds.skip(1);
        position_is_first(rest, t);
        assert forall|j: int| 0 <= j < position(conds, t) implies (#[trigger] conds[j]).type_ != t by {
            if j > 0 {
                assert(conds[j] == rest[j - 1]);
            }
        }
    }
}

/// An index that holds type `t`, with no earlier one, is [`position`].
pub proof fn first_is_position(conds: Seq<ConditionView>, t: Seq<char>, i: int)
    requires
        0 <= i <= conds.len(),
        i < conds.len() ==> conds[i].type_ == t,
        forall|j: int| 0 <= j < i ==> (#[trigger] conds[j]).type_ != t,
    ensures
        position(conds, t) == i,
{
    position_is_first(conds, t);
    let p = position(conds, t);
    if p < i {
        assert(conds[p].type_ != t);
    }
    if i < p {
        assert(conds[i].type_ != t);
    }
}

/// The condition list after `c` was written into it: in place of the first
/// condition of its type, keeping that one's transition time where the status
/// word stays, or at the end where there is none.
pub open spec fn upserted(conds: Seq<ConditionView>, c: ConditionView) -> Seq<ConditionView> {
    let i = position(conds, c.type_);
    if i < conds.len() {
        conds.update(
            i,
            ConditionView {
                last_transition_time: if conds[i].status == c.status {
                    conds[i].last_transition_time
                } else {
                    c.last_transition_time
                },
                ..c
            },
        )
    } else {
        conds.push(c)
    }
}

/// The condition that a write of these values stands for.
pub open spec fn condition_of(
    type_: Seq<char>,
    status: bool,
    reason: Seq<char>,
    message: Seq<char>,
    generation: Option<i64>,
    now: Seq<char>,
) -> ConditionView {
    ConditionView {
        type_,
        status: status_word(status),
        reason,
        message,
        last_transition_time: now,
        observed_generation: generation,
    }
}

/// Finds the first condition of type `t`.
pub fn find_condition(conds: &Vec<Condition>, t: &str) -> (found: Option<usize>)
    ensures
        match found {
            Some(i) => i < conds.len() && i == position(views(conds@), t@),
            None => position(views(conds@), t@) == conds.len(),
        },
{
    let mut i: usize = 0;
    while i < conds.len()
        invariant
            i <= conds.len(),
            forall|j: int| 0 <= j < i ==> (#[trigger] views(conds@)[j]).type_ != t@,
        decreases conds.len() - i,
    {
        if same_text(conds[i].type_.as_str(), t) {
            proof {
                first_is_position(views(conds@), t@, i as int);
            }
            return Some(i);
        }
        i = i + 1;
    }
    proof {
        first_is_position(views(conds@), t@, i as int);
    }
    None
}

/// Writes a condition into a list, in place where its type is already there.
/// The transition time moves to `now` only where the status word changes.
pub fn upsert_condition(
    existing: &Vec<Condition>,
    type_: &str,
    status: bool,
    reason: &str,
    message: &str,
    generation: Option<i64>,
    now: &str,
) -> (out: Vec<Condition>)
    ensures
        views(out@) == upserted(
            views(existing@),
            condition_of(type_@, status, reason@, message@, generation, now@),
        ),
{
    let word = if status { "True" } else { "False" };
    let mut out = copy_conditions(existing);
    let found = find_condition(existing, type_);
    match found {
        Some(i) => {
            let since = if same_text(existing[i].status.as_str(), word) {
                existing[i].last_transition_time.clone()
            } else {
                now.to_owned()
            };
            let c = Condition {
                type_: type_.to_owned(),
                status: word.to_owned(),
                reason: reason.to_owned(),
                message: message.to_owned(),
                last_transition_time: since,
                observed_generation: generation,
            };
            out.set(i, c);
        },
        None => {
            let c = Condition {
                type_: type_.to_owned(),
                status: word.to_owned(),
                reason: reason.to_owned(),
                message: message.to_owned(),
                last_transition_time: now.to_owned(),
                observed_generation: generation,
            };
            out.push(c);
        },
    }
    proof {
        assert(views(out@) =~= upserted(
            views(existing@),
            condition_of(type_@, status, reason@, message@, generation, now@),
        ));
    }
    out
}

/// The conditions of a list that are not of type `t`, in order.
pub open spec fn without(conds: Seq<ConditionView>, t: Seq<char>) -> Seq<ConditionView>
    decreases conds.len(),
{
    if conds.len() == 0 {
        Seq::empty()
    } else if conds.last().type_ == t {
        without(conds.drop_last(), t)
    } else {
        without(conds.drop_last(), t).push(conds.last())
    }
}

/// Removes every condition of type `t`, keeping the order of the others.
pub fn drop_condition(conds: &Vec<Condition>, t: &str) -> (out: Vec<Condition>)
    ensures
        views(out@) == without(views(conds@), t@),
{
    let mut out: Vec<Condition> = Vec::new();
    let mut i: usize = 0;
    while i < conds.len()
        invariant
            i <= conds.len(),
            views(out@) == without(views(conds@).take(i as int), t@),
        decreases conds.len() - i,
    {
        let ghost head = views(conds@).take(i + 1);
        proof {
            assert(head.drop_last() =~= views(conds@).take(i as int));
            assert(head.last() == conds@[i as int]@);
        }
        if !same_text(conds[i].type_.as_str(), t) {
            let ghost before = views(out@);
            out.push(conds[i].clone());
            proof {
                assert(views(out@) =~= before.push(conds@[i as int]@));
            }
        }
        i = i + 1;
    }
    proof {
        assert(views(conds@).take(conds@.len() as int) =~= views(conds@));
    }
    out
}

/// A gate that blocks an object: the condition it sets, the status that means
/// "blocked", and the reason.
pub struct StructuralGate {
    pub condition: &'static str,
    pub blocked: bool,
    pub reason: &'static str,
}

/// Writes a gate's condition, with a message, into a list.
pub fn upsert_gate(
    existing: &Vec<Condition>,
    gate: &StructuralGate,
    message: &str,
    generation: Option<i64>,
    now: &str,
) -> (out: Vec<Condition>)
    ensures
        views(out@) == upserted(
            views(existing@),
            condition_of(gate.condition@, gate.blocked, gate.reason@, message@, generation, now@),
        ),
{
    upsert_condition(
        existing,
        gate.condition,
        gate.blocked,
        gate.reason,
        message,
        generation,
        now,
    )
}

/// Which of the three standard conditions an object should show.
#[derive(Clone, Copy, Debug, PartialEq, Eq, Structural)]
pub enum ReadyOutcome {
    Ready,
    Reconciling,
    Stalled,
}

/// The condition list after the three standard conditions were written for an
/// outcome: exactly the one that the outcome names is `True`.
pub open spec fn ready_folded(
    conds: Seq<ConditionView>,
    generation: Option<i64>,
    outcome: ReadyOutcome,
    reason: Seq<char>,
    message: Seq<char>,
    now: Seq<char>,
) -> Seq<ConditionView> {
    let ready = condition_of(
        READY_CONDITION@,
        outcome == ReadyOutcome::Ready,
        reason,
        message,
        generation,
        now,
    );
    let reconciling = condition_of(
        RECONCILING_CONDITION@,
        outcome == ReadyOutcome::Reconciling,
        reason,
        message,
        generation,
        now,
    );
    let stalled = condition_of(
        STALLED_CONDITION@,
        outcome == ReadyOutcome::Stalled,
        reason,
        message,
        generation,
        now,
    );
    upserted(upserted(upserted(conds, ready), reconciling), stalled)
}

/// Writes the three standard conditions for an outcome.
pub fn set_ready(
    conds: &Vec<Condition>,
    generation: Option<i64>,
    outcome: ReadyOutcome,
    reason: &str,
    message: &str,
    now: &str,
) -> (out: Vec<Condition>)
    ensures
        views(out@) == ready_folded(views(conds@), generation, outcome, reason@, message@, now@),
{
    let first = upsert_condition(
        conds,
        READY_CONDITION,
        outcome == ReadyOutcome::Ready,
        reason,
        message,
        generation,
        now,
    );
    let second = upsert_condition(
        &first,
        RECONCILING_CONDITION,
        outcome == ReadyOutcome::Reconciling,
        reason,
        message,
        generation,
        now,
    );
    upsert_condition(
        &second,
        STALLED_CONDITION,
        outcome == ReadyOutcome::Stalled,
        reason,
        message,
        generation,
        now,
    )
}

} // verus!
