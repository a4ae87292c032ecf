//! Seeding a brand-new repository from an existing replica: the durable
//! attempt marker, the fold of a finished seed into status, the limits and
//! throttles of a seeding run, and the payload the mover receives.
use crate::conditions::{
    condition_of, drop_condition, upsert_condition, upserted, views, without, Condition,
    StructuralGate,
};
use crate::text::{decimal, filled, is_filled, is_text, opt_text, render_i64, same_text};
use vstd::prelude::*;
use vstd::string::StringExecFns;

verus! {

/// `type` of the condition that tells the story of a seed.
pub const SEEDED_CONDITION: &'static str = "Seeded";

/// `reason` once data was copied.
pub const SEEDED_REASON: &'static str = "Seeded";

/// `reason` when the repository was already there.
pub const ALREADY_INITIALIZED_REASON: &'static str = "AlreadyInitialized";

/// How long a seeding Job may run where the spec names no deadline: a day.
pub const DEFAULT_SEED_BOOTSTRAP_DEADLINE_SECS: i64 = 86_400;

/// How a seed is held back whose source is not usable.
pub fn seed_source_not_ready_gate() -> (gate: StructuralGate)
    ensures
        gate.condition@ == SEEDED_CONDITION@,
        !gate.blocked,
        gate.reason@ == "WaitingForSeedSource"@,
{
    StructuralGate { condition: SEEDED_CONDITION, blocked: false, reason: "WaitingForSeedSource" }
}

/// How a seed is held back whose two backends cannot share one pod's credentials.
pub fn seed_source_auth_conflict_gate() -> (gate: StructuralGate)
    ensures
        gate.condition@ == SEEDED_CONDITION@,
        !gate.blocked,
        gate.reason@ == "SeedSourceAuthConflict"@,
{
    StructuralGate { condition: SEEDED_CONDITION, blocked: false, reason: "SeedSourceAuthConflict" }
}

/// How a seed is shown whose copy is in flight.
pub fn seeding_gate() -> (gate: StructuralGate)
    ensures
        gate.condition@ == SEEDED_CONDITION@,
        !gate.blocked,
        gate.reason@ == "Seeding"@,
{
    StructuralGate { condition: SEEDED_CONDITION, blocked: false, reason: "Seeding" }
}

/// How a seed copies: storage blobs, or snapshots one by one.
#[derive(Clone, Copy, Debug, PartialEq, Eq, Structural)]
pub enum SeedMode {
    Blob,
    Migrate,
}

/// The word a mode is written as.
pub open spec fn mode_word(mode: SeedMode) -> Seq<char> {
    match mode {
        SeedMode::Blob => "blob"@,
        SeedMode::Migrate => "migrate"@,
    }
}

impl SeedMode {
    /// The word this mode is written as.
    pub fn as_str(&self) -> (word: &'static str)
        ensures
            word@ == mode_word(*self),
    {
        match self {
            SeedMode::Blob => "blob",
            SeedMode::Migrate => "migrate",
        }
    }
}

/// `status.seed`, and equally a patch of it: an absent field is a key that the
/// patch does not name.
#[derive(Debug, PartialEq, Eq)]
pub struct SeedStatus {
    pub started_at: Option<String>,
    pub seeded_at: Option<String>,
    pub mode: Option<SeedMode>,
    pub source: Option<String>,
    pub snapshot_count: Option<i64>,
    pub snapshots_copied: Option<i64>,
}

/// What a [`SeedStatus`] says, as plain values.
#[verifier::ext_equal]
pub struct SeedStatusView {
    pub started_at: Option<Seq<char>>,
    pub seeded_at: Option<Seq<char>>,
    pub mode: Option<SeedMode>,
    pub source: Option<Seq<char>>,
    pub snapshot_count: Option<i64>,
    pub snapshots_copied: Option<i64>,
}

impl View for SeedStatus {
    type V = SeedStatusView;

    open spec fn view(&self) -> SeedStatusView {
        SeedStatusView {
            started_at: opt_text(self.started_at),
            seeded_at: opt_text(self.seeded_at),
            mode: self.mode,
            source: opt_text(self.source),
            snapshot_count: self.snapshot_count,
            snapshots_copied: self.snapshots_copied,
        }
    }
}

/// What an optional [`SeedStatus`] says.
pub open spec fn opt_seed(s: Option<SeedStatus>) -> Option<SeedStatusView> {
    match s {
        Some(s) => Some(s@),
        None => None,
    }
}

/// A copy of an optional text.
pub fn copy_opt(o: &Option<String>) -> (copy: Option<String>)
    ensures
        copy == *o,
{
    match o {
        Some(s) => Some(s.clone()),
        None => None,
    }
}

impl Clone for SeedStatus {
    fn clone(&self) -> (copy: Self)
        ensures
            copy == *self,
    {
        SeedStatus {
            started_at: copy_opt(&self.started_at),
            seeded_at: copy_opt(&self.seeded_at),
            mode: self.mode,
            source: copy_opt(&self.source),
            snapshot_count: self.snapshot_count,
            snapshots_copied: self.snapshots_copied,
        }
    }
}

/// Whether a seed is armed: one is asked for, and the repository was never
/// initialized.
pub fn seed_armed(seed_configured: bool, unique_id: &Option<String>) -> (armed: bool)
    ensures
        armed == (seed_configured && unique_id is None),
{
    seed_configured && unique_id.is_none()
}

/// Whether an armed seed resumes: an attempt was recorded and none finished.
pub open spec fn resumes(armed: bool, existing: Option<SeedStatusView>) -> bool {
    armed && match existing {
        Some(s) => filled(s.started_at) && !filled(s.seeded_at),
        None => false,
    }
}

/// Whether an armed seed resumes an attempt that was recorded.
pub fn seed_resume(armed: bool, existing: &Option<SeedStatus>) -> (resume: bool)
    ensures
        resume == resumes(armed, opt_seed(*existing)),
{
    match existing {
        Some(s) => armed && is_filled(&s.started_at) && !is_filled(&s.seeded_at),
        None => false,
    }
}

/// When a seed's first attempt began: what is recorded, or `now`.
pub open spec fn attempt_start(existing: Option<SeedStatusView>, now: Seq<char>) -> Seq<char> {
    match existing {
        Some(s) => if filled(s.started_at) {
            s.started_at->0
        } else {
            now
        },
        None => now,
    }
}

/// The marker to stamp before a seeding Job is created: none over a finished
/// seed, none where nothing would change, and never a second starting time.
pub open spec fn marker_of(
    existing: Option<SeedStatusView>,
    mode: SeedMode,
    source: Seq<char>,
    now: Seq<char>,
) -> Option<SeedStatusView> {
    let start = attempt_start(existing, now);
    let finished = existing is Some && filled(existing->0.seeded_at);
    let unchanged = existing is Some && existing->0.started_at == Some(start)
        && existing->0.mode == Some(mode) && existing->0.source == Some(source);
    if finished || unchanged {
        None
    } else {
        Some(
            SeedStatusView {
                started_at: Some(start),
                seeded_at: None,
                mode: Some(mode),
                source: Some(source),
                snapshot_count: None,
                snapshots_copied: None,
            },
        )
    }
}

/// The marker to stamp before a seeding Job is created, if any.
pub fn seed_marker_patch(
    existing: &Option<SeedStatus>,
    mode: SeedMode,
    source_description: &str,
    now: &str,
) -> (patch: Option<SeedStatus>)
    ensures
        opt_seed(patch) == marker_of(opt_seed(*existing), mode, source_description@, now@),
{
    let mut start = now.to_owned();
    if let Some(s) = existing {
        if is_filled(&s.seeded_at) {
            return None;
        }
        if let Some(t) = &s.started_at {
            if !t.as_str().is_empty() {
                start = t.clone();
            }
        }
        let same_mode = match s.mode {
            Some(m) => m == mode,
            None => false,
        };
        if is_text(&s.started_at, start.as_str()) && same_mode && is_text(
            &s.source,
            source_description,
        ) {
            return None;
        }
    }
    Some(
        SeedStatus {
            started_at: Some(start),
            seeded_at: None,
            mode: Some(mode),
            source: Some(source_description.to_owned()),
            snapshot_count: None,
            snapshots_copied: None,
        },
    )
}

/// What the mover reports of a seed.
pub struct SeedOutcome {
    pub mode: SeedMode,
    pub source: String,
    pub performed: bool,
    pub snapshot_count: Option<i64>,
    pub snapshots_copied: Option<i64>,
}

/// The mode of a mover's outcome.
pub fn seed_mode_of(outcome: &SeedOutcome) -> (mode: SeedMode)
    ensures
        mode == outcome.mode,
{
    outcome.mode
}

/// Under which outcome a seed is counted.
#[derive(Clone, Copy, Debug, PartialEq, Eq, Structural)]
pub enum SeedOutcomeLabel {
    Seeded,
    AlreadyInitialized,
    Failed,
}

/// How a successful seed folds into the repository's status.
pub struct SeedSuccess {
    pub status: SeedStatus,
    pub reason: &'static str,
    pub message: String,
    pub outcome: SeedOutcomeLabel,
    pub event: Option<String>,
}

/// The `status.seed` that a mover's outcome folds to.
pub open spec fn folded_status(
    outcome: SeedOutcome,
    existing: Option<SeedStatusView>,
    now: Seq<char>,
) -> SeedStatusView {
    SeedStatusView {
        started_at: match existing {
            Some(s) => s.started_at,
            None => None,
        },
        seeded_at: if outcome.performed {
            match existing {
                Some(s) => match s.seeded_at {
                    Some(t) => Some(t),
                    None => Some(now),
                },
                None => Some(now),
            }
        } else {
            None
        },
        mode: Some(outcome.mode),
        source: Some(outcome.source@),
        snapshot_count: if outcome.performed { outcome.snapshot_count } else { None },
        snapshots_copied: if outcome.performed { outcome.snapshots_copied } else { None },
    }
}

/// How many snapshots a seed is said to have left behind.
pub open spec fn copied_count(outcome: SeedOutcome) -> int {
    match outcome.snapshots_copied {
        Some(n) => n as int,
        None => match outcome.snapshot_count {
            Some(n) => n as int,
            None => 0,
        },
    }
}

/// What is said of a copy that was made.
pub open spec fn seeded_text(outcome: SeedOutcome) -> Seq<char> {
    "seeded this repository from "@ + outcome.source@ + " ("@ + mode_word(outcome.mode)
        + " mode); "@ + decimal(copied_count(outcome)) + " snapshot(s) present"@
}

/// What is said of a seed that found the repository already there.
pub open spec fn already_initialized_text(outcome: SeedOutcome) -> Seq<char> {
    "spec.seed is a no-op: this repository was already initialized, so nothing was copied from "@
        + outcome.source@
}

/// The advice that goes with the announcement of a copy.
pub const ADOPT_HISTORY_ADVICE: &'static str = ". Re-apply your SnapshotPolicies to adopt this history — and review their retention and defaultDeletionPolicy first: GFS prunes beyond-budget restore points as soon as a policy adopts them.";

/// Folds a mover's outcome into status, condition, metric and event.
pub fn seed_success_fold(
    outcome: &SeedOutcome,
    existing: &Option<SeedStatus>,
    now: &str,
) -> (fold: SeedSuccess)
    ensures
        fold.status@ == folded_status(*outcome, opt_seed(*existing), now@),
        outcome.performed ==> {
            &&& fold.reason@ == SEEDED_REASON@
            &&& fold.message@ == seeded_text(*outcome)
            &&& fold.outcome == SeedOutcomeLabel::Seeded
            &&& opt_text(fold.event) == Some(seeded_text(*outcome) + ADOPT_HISTORY_ADVICE@)
        },
        !outcome.performed ==> {
            &&& fold.reason@ == ALREADY_INITIALIZED_REASON@
            &&& fold.message@ == already_initialized_text(*outcome)
            &&& fold.outcome == SeedOutcomeLabel::AlreadyInitialized
            &&& fold.event is None
        },
{
    let started_at = match existing {
        Some(s) => copy_opt(&s.started_at),
        None => None,
    };
    if outcome.performed {
        let mut seeded_at = now.to_owned();
        if let Some(s) = existing {
            if let Some(t) = &s.seeded_at {
                seeded_at = t.clone();
            }
        }
        let copied: i64 = match outcome.snapshots_copied {
            Some(n) => n,
            None => match outcome.snapshot_count {
                Some(n) => n,
                None => 0,
            },
        };
        let mut message = "seeded this repository from ".to_owned();
        message.append(outcome.source.as_str());
        message.append(" (");
        message.append(outcome.mode.as_str());
        message.append(" mode); ");
        message.append(render_i64(copied).as_str());
        message.append(" snapshot(s) present");
        let mut event = message.clone();
        event.append(ADOPT_HISTORY_ADVICE);
        SeedSuccess {
            status: SeedStatus {
                started_at,
                seeded_at: Some(seeded_at),
                mode: Some(outcome.mode),
                source: Some(outcome.source.clone()),
                snapshot_count: outcome.snapshot_count,
                snapshots_copied: outcome.snapshots_copied,
            },
            reason: SEEDED_REASON,
            message,
            outcome: SeedOutcomeLabel::Seeded,
            event: Some(event),
        }
    } else {
        let mut message = "spec.seed is a no-op: this repository was already initialized, so nothing was copied from ".to_owned();
        message.append(outcome.source.as_str());
        SeedSuccess {
            status: SeedStatus {
                started_at,
                seeded_at: None,
                mode: Some(outcome.mode),
                source: Some(outcome.source.clone()),
                snapshot_count: None,
                snapshots_copied: None,
            },
            reason: ALREADY_INITIALIZED_REASON,
            message,
            outcome: SeedOutcomeLabel::AlreadyInitialized,
            event: None,
        }
    }
}

/// One optional value laid over another: what is there wins.
pub open spec fn over<T>(top: Option<T>, base: Option<T>) -> Option<T> {
    match top {
        Some(v) => Some(v),
        None => base,
    }
}

/// A patch of `status.seed` laid over another, key by key.
pub open spec fn seed_over(top: SeedStatusView, base: SeedStatusView) -> SeedStatusView {
    SeedStatusView {
        started_at: over(top.started_at, base.started_at),
        seeded_at: over(top.seeded_at, base.seeded_at),
        mode: over(top.mode, base.mode),
        source: over(top.source, base.source),
        snapshot_count: over(top.snapshot_count, base.snapshot_count),
        snapshots_copied: over(top.snapshots_copied, base.snapshots_copied),
    }
}

/// The `seed` part of a status patch after a fold was merged into it.
pub open spec fn merged_seed(
    patch: Option<SeedStatusView>,
    fold: Option<SeedStatusView>,
) -> Option<SeedStatusView> {
    match (patch, fold) {
        (_, None) => patch,
        (None, Some(f)) => Some(f),
        (Some(p), Some(f)) => Some(seed_over(f, p)),
    }
}

fn text_over(top: &Option<String>, base: &Option<String>) -> (out: Option<String>)
    ensures
        opt_text(out) == over(opt_text(*top), opt_text(*base)),
{
    match top {
        Some(s) => Some(s.clone()),
        None => copy_opt(base),
    }
}

/// Merges a fold into the `seed` part of a status patch, key by key.
pub fn merge_seed_status(patch: &mut Option<SeedStatus>, fold: &Option<SeedStatus>)
    ensures
        opt_seed(*final(patch)) == merged_seed(opt_seed(*old(patch)), opt_seed(*fold)),
{
    if let Some(f) = fold {
        let merged = match patch {
            None => f.clone(),
            Some(p) => SeedStatus {
                started_at: text_over(&f.started_at, &p.started_at),
                seeded_at: text_over(&f.seeded_at, &p.seeded_at),
                mode: if f.mode.is_some() { f.mode } else { p.mode },
                source: text_over(&f.source, &p.source),
                snapshot_count: if f.snapshot_count.is_some() {
                    f.snapshot_count
                } else {
                    p.snapshot_count
                },
                snapshots_copied: if f.snapshots_copied.is_some() {
                    f.snapshots_copied
                } else {
                    p.snapshots_copied
                },
            },
        };
        *patch = Some(merged);
    }
}

/// Whether `status.seed` already holds everything that a patch names, so that
/// writing the patch changes nothing.
pub open spec fn seed_patch_is_noop(stored: SeedStatusView, patch: SeedStatusView) -> bool {
    seed_over(patch, stored) == stored
}

/// Removes every `Seeded` condition.
pub fn drop_seed_condition(conditions: &Vec<Condition>) -> (out: Vec<Condition>)
    ensures
        views(out@) == without(views(conditions@), SEEDED_CONDITION@),
{
    drop_condition(conditions, SEEDED_CONDITION)
}

/// Folds a failure's seed story into the conditions: a failure of the seed is
/// written beside the others, any other failure takes a standing story away.
pub fn seed_condition_fold(
    generation: Option<i64>,
    seed_reason: Option<&str>,
    message: &str,
    conditions: &Vec<Condition>,
    now: &str,
) -> (out: Vec<Condition>)
    ensures
        views(out@) == seed_folded(
            views(conditions@),
            generation,
            crate::text::opt_str(seed_reason),
            message@,
            now@,
        ),
{
    match seed_reason {
        Some(reason) => upsert_condition(
            conditions,
            SEEDED_CONDITION,
            false,
            reason,
            message,
            generation,
            now,
        ),
        None => drop_seed_condition(conditions),
    }
}

/// The conditions after a failure's seed story was folded in.
pub open spec fn seed_folded(
    conditions: Seq<crate::conditions::ConditionView>,
    generation: Option<i64>,
    seed_reason: Option<Seq<char>>,
    message: Seq<char>,
    now: Seq<char>,
) -> Seq<crate::conditions::ConditionView> {
    match seed_reason {
        Some(reason) => upserted(
            conditions,
            condition_of(SEEDED_CONDITION@, false, reason, message, generation, now),
        ),
        None => without(conditions, SEEDED_CONDITION@),
    }
}

/// The reasons that say a seed failed, as opposed to waiting or running.
/// Assumed to be the words that the custom resources' API gives them; nothing
/// here can tell.
pub open spec fn is_failure_reason(reason: Seq<char>) -> bool {
    ||| reason == "SeedSourceNotFound"@
    ||| reason == "SeedSourceEmpty"@
    ||| reason == "SeedIncomplete"@
    ||| reason == "SeedLeftEmpty"@
    ||| reason == "SeedMoverTooOld"@
}

/// Whether a condition records a failed seed.
pub open spec fn records_failure(c: crate::conditions::ConditionView) -> bool {
    c.type_ == SEEDED_CONDITION@ && c.status == "False"@ && is_failure_reason(c.reason)
}

/// Whether a failed seed is on record.
pub fn seed_failure_recorded(conditions: &Vec<Condition>) -> (recorded: bool)
    ensures
        recorded == exists|i: int|
            0 <= i < conditions@.len() && records_failure(#[trigger] conditions@[i]@),
{
    let mut i: usize = 0;
    while i < conditions.len()
        invariant
            i <= conditions.len(),
            forall|j: int| 0 <= j < i ==> !records_failure(#[trigger] conditions@[j]@),
        decreases conditions.len() - i,
    {
        let c = &conditions[i];
        let r = c.reason.as_str();
        let failed = same_text(r, "SeedSourceNotFound") || same_text(r, "SeedSourceEmpty")
            || same_text(r, "SeedIncomplete") || same_text(r, "SeedLeftEmpty") || same_text(
            r,
            "SeedMoverTooOld",
        );
        if same_text(c.type_.as_str(), SEEDED_CONDITION) && same_text(c.status.as_str(), "False")
            && failed {
            assert(records_failure(conditions@[i as int]@));
            return true;
        }
        i = i + 1;
    }
    false
}

/// What is there wins over what it is laid on, and leaves it to show through
/// where it is absent.
pub proof fn what_is_there_wins<T>(top: Option<T>, base: Option<T>)
    ensures
        top is Some ==> over(top, base) == top,
        top is None ==> over(top, base) == base,
{
}

} // verus!
