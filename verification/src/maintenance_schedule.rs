//! When maintenance is due, and when to look again.
use crate::instant::{
    earlier, earlier_of, four_digit_year, instant_in, later_of, nanos_of, on_the_clock,
    read_instant, rfc3339_text, write_instant, Instant, NANOS_PER_SEC,
};
use crate::seed::copy_opt;
use crate::text::opt_text;
use vstd::prelude::*;

verus! {

/// How soon a running Job is looked at again, in seconds.
pub const REQUEUE_RUNNING_SECS: u64 = 30;

/// How soon a repository that cannot be maintained is looked at again, in
/// seconds.
pub const REQUEUE_NOT_READY_SECS: u64 = 60;

/// How soon a failed run is looked at again, in seconds.
pub const REQUEUE_FAILED_SECS: u64 = 300;

/// The longest that anything is left alone, in seconds.
pub const REQUEUE_CAP_SECS: u64 = 1800;

/// Which pass of maintenance.
#[derive(Clone, Copy, Debug, PartialEq, Eq, Structural)]
pub enum MaintenanceMode {
    Quick,
    Full,
}

/// When one kind of pass was last run by a mover, and when the end of one was
/// last seen.
pub struct ModeStatus {
    pub last_run_at: Option<String>,
    pub last_handled_at: Option<String>,
}

/// What the status says of both kinds of pass.
pub struct RunHistory {
    pub quick: Option<ModeStatus>,
    pub full: Option<ModeStatus>,
}

/// When and where one kind of pass runs.
pub struct CronSpec {
    pub cron: String,
    pub jitter: Option<String>,
    pub timezone: Option<String>,
}

/// The schedule of a `Maintenance`.
pub struct MaintenanceSchedule {
    pub quick: CronSpec,
    pub full: CronSpec,
    pub timezone: Option<String>,
}

/// What a repository gives the schedules of its consumers.
pub struct ScheduleDefaults {
    pub timezone: Option<String>,
    pub jitter: Option<String>,
}

/// What the status says of one kind of pass.
pub open spec fn history_of(h: RunHistory, mode: MaintenanceMode) -> Option<ModeStatus> {
    match mode {
        MaintenanceMode::Quick => h.quick,
        MaintenanceMode::Full => h.full,
    }
}

/// When a mover last ran a kind of pass.
pub open spec fn run_at(h: RunHistory, mode: MaintenanceMode) -> Option<Instant> {
    match history_of(h, mode) {
        Some(s) => instant_in(opt_text(s.last_run_at)),
        None => None,
    }
}

/// When the end of a kind of pass was last seen.
pub open spec fn handled_at(h: RunHistory, mode: MaintenanceMode) -> Option<Instant> {
    match history_of(h, mode) {
        Some(s) => instant_in(opt_text(s.last_handled_at)),
        None => None,
    }
}

/// Reads when a mover last ran a kind of pass.
pub fn last_run_at(h: &RunHistory, mode: MaintenanceMode) -> (at: Option<Instant>)
    ensures
        at == run_at(*h, mode),
{
    let status = match mode {
        MaintenanceMode::Quick => &h.quick,
        MaintenanceMode::Full => &h.full,
    };
    match status {
        Some(s) => read_instant(&s.last_run_at),
        None => None,
    }
}

/// Reads when the end of a kind of pass was last seen.
pub fn last_handled_at(h: &RunHistory, mode: MaintenanceMode) -> (at: Option<Instant>)
    ensures
        at == handled_at(*h, mode),
{
    let status = match mode {
        MaintenanceMode::Quick => &h.quick,
        MaintenanceMode::Full => &h.full,
    };
    match status {
        Some(s) => read_instant(&s.last_handled_at),
        None => None,
    }
}

/// How far back the first search for a slot begins, in seconds: a year.
pub const FIRST_LOOKBACK_SECS: i64 = 31_536_000;

/// Where the search for the next slot of a kind of pass begins: at the later
/// of its last run and its last end, or a year ago where it has neither.
pub open spec fn search_start(h: RunHistory, mode: MaintenanceMode, clock: Instant) -> Instant {
    match (run_at(h, mode), handled_at(h, mode)) {
        (Some(run), Some(handled)) => later_of(run, handled),
        (Some(run), None) => run,
        (None, Some(handled)) => handled,
        (None, None) => Instant {
            secs: (clock.secs - FIRST_LOOKBACK_SECS) as i64,
            nanos: clock.nanos,
        },
    }
}

/// Decides where the search for the next slot begins.
pub fn mode_after(h: &RunHistory, mode: MaintenanceMode, clock: Instant) -> (after: Instant)
    requires
        clock.secs >= i64::MIN + FIRST_LOOKBACK_SECS,
    ensures
        after == search_start(*h, mode, clock),
{
    match (last_run_at(h, mode), last_handled_at(h, mode)) {
        (Some(run), Some(handled)) => if run.before(&handled) {
            handled
        } else {
            run
        },
        (Some(run), None) => run,
        (None, Some(handled)) => handled,
        (None, None) => Instant { secs: clock.secs - FIRST_LOOKBACK_SECS, nanos: clock.nanos },
    }
}

/// What is asked of the cron search. Without a time zone it runs in UTC.
pub struct FireQuery {
    pub cron: String,
    pub jitter: Option<String>,
    pub seed: String,
    pub after: Instant,
    pub timezone: Option<String>,
}

/// The first of two texts that is there.
pub open spec fn or_else(a: Option<Seq<char>>, b: Option<Seq<char>>) -> Option<Seq<char>> {
    if a is Some {
        a
    } else {
        b
    }
}

fn first_text(a: &Option<String>, b: &Option<String>) -> (first: Option<String>)
    ensures
        opt_text(first) == or_else(opt_text(*a), opt_text(*b)),
{
    if a.is_some() {
        copy_opt(a)
    } else {
        copy_opt(b)
    }
}

/// What the repository's defaults say of the jitter.
pub open spec fn default_jitter(d: Option<ScheduleDefaults>) -> Option<Seq<char>> {
    match d {
        Some(x) => opt_text(x.jitter),
        None => None,
    }
}

/// What the repository's defaults say of the time zone.
pub open spec fn default_timezone(d: Option<ScheduleDefaults>) -> Option<Seq<char>> {
    match d {
        Some(x) => opt_text(x.timezone),
        None => None,
    }
}

/// The entry of a schedule for a kind of pass.
pub open spec fn cron_of(schedule: MaintenanceSchedule, mode: MaintenanceMode) -> CronSpec {
    match mode {
        MaintenanceMode::Quick => schedule.quick,
        MaintenanceMode::Full => schedule.full,
    }
}

/// Decides what to ask of the cron search for a kind of pass. An entry's own
/// jitter goes before the repository's; an entry's own time zone before the
/// schedule's, and that before the repository's. The search is seeded by the
/// UID, or by the name of an object that has none.
pub fn slot_for(
    schedule: &MaintenanceSchedule,
    uid: &Option<String>,
    name: &str,
    mode: MaintenanceMode,
    after: Instant,
    repo_defaults: &Option<ScheduleDefaults>,
) -> (query: FireQuery)
    ensures
        query.cron@ == cron_of(*schedule, mode).cron@,
        opt_text(query.jitter) == or_else(
            opt_text(cron_of(*schedule, mode).jitter),
            default_jitter(*repo_defaults),
        ),
        query.seed@ == (match *uid {
            Some(u) => u@,
            None => name@,
        }),
        query.after == after,
        opt_text(query.timezone) == or_else(
            or_else(opt_text(cron_of(*schedule, mode).timezone), opt_text(schedule.timezone)),
            default_timezone(*repo_defaults),
        ),
{
    let spec = match mode {
        MaintenanceMode::Quick => &schedule.quick,
        MaintenanceMode::Full => &schedule.full,
    };
    let seed = match uid {
        Some(u) => u.clone(),
        None => name.to_owned(),
    };
    let own = first_text(&spec.timezone, &schedule.timezone);
    let (jitter, timezone) = match repo_defaults {
        Some(d) => (first_text(&spec.jitter, &d.jitter), first_text(&own, &d.timezone)),
        None => (copy_opt(&spec.jitter), own),
    };
    FireQuery { cron: spec.cron.clone(), jitter, seed, after, timezone }
}

/// The next slot of each kind of pass; none where the search failed.
#[derive(Clone, Copy, Debug, PartialEq, Eq, Structural)]
pub struct Slots {
    pub quick: Option<Instant>,
    pub full: Option<Instant>,
}

/// The next slot of a kind of pass.
pub open spec fn slot_of(slots: Slots, mode: MaintenanceMode) -> Option<Instant> {
    match mode {
        MaintenanceMode::Quick => slots.quick,
        MaintenanceMode::Full => slots.full,
    }
}

/// Whether a slot has come.
pub open spec fn reached(slot: Option<Instant>, now: Instant) -> bool {
    slot is Some && !earlier(now, slot->0)
}

/// The pass that is due, with its slot; a full pass goes before a quick one.
pub open spec fn due(slots: Slots, now: Instant) -> Option<(MaintenanceMode, Instant)> {
    if reached(slots.full, now) {
        Some((MaintenanceMode::Full, slots.full->0))
    } else if reached(slots.quick, now) {
        Some((MaintenanceMode::Quick, slots.quick->0))
    } else {
        None
    }
}

/// Decides which pass is due.
pub fn due_mode(slots: Slots, now: Instant) -> (pass: Option<(MaintenanceMode, Instant)>)
    ensures
        pass == due(slots, now),
{
    if let Some(slot) = slots.full {
        if !now.before(&slot) {
            return Some((MaintenanceMode::Full, slot));
        }
    }
    if let Some(slot) = slots.quick {
        if !now.before(&slot) {
            return Some((MaintenanceMode::Quick, slot));
        }
    }
    None
}

/// Where the search for the slot to wake up for begins: for the pass whose end
/// was just seen, at its slot; else where it begins anyway.
pub open spec fn wakeup_start(
    h: RunHistory,
    mode: MaintenanceMode,
    handled: Option<(MaintenanceMode, Instant)>,
    clock: Instant,
) -> Instant {
    match handled {
        Some((m, slot)) => if m == mode {
            slot
        } else {
            search_start(h, mode, clock)
        },
        None => search_start(h, mode, clock),
    }
}

/// Decides where the search for the slot to wake up for begins.
pub fn wakeup_after(
    h: &RunHistory,
    mode: MaintenanceMode,
    handled: Option<(MaintenanceMode, Instant)>,
    clock: Instant,
) -> (after: Instant)
    requires
        clock.secs >= i64::MIN + FIRST_LOOKBACK_SECS,
    ensures
        after == wakeup_start(*h, mode, handled, clock),
{
    if let Some((m, slot)) = handled {
        if m == mode {
            return slot;
        }
    }
    mode_after(h, mode, clock)
}

/// The earlier of the next slots.
pub open spec fn earliest(slots: Slots) -> Option<Instant> {
    match (slots.quick, slots.full) {
        (Some(q), Some(f)) => Some(earlier_of(q, f)),
        (Some(q), None) => Some(q),
        (None, f) => f,
    }
}

/// How long to wait, in nanoseconds: until the earlier of the next slots, but
/// not less than a running Job is left alone; just that where a slot has come
/// already or there is none.
pub open spec fn wait_nanos(slots: Slots, now: Instant) -> int {
    let floor = REQUEUE_RUNNING_SECS * NANOS_PER_SEC;
    match earliest(slots) {
        Some(slot) => if earlier(now, slot) && nanos_of(slot) - nanos_of(now) > floor {
            nanos_of(slot) - nanos_of(now)
        } else {
            floor
        },
        None => floor,
    }
}

/// Decides how long to wait, in nanoseconds.
pub fn next_wakeup(slots: Slots, now: Instant) -> (nanos: u128)
    requires
        on_the_clock(now),
        slots.quick is Some ==> on_the_clock(slots.quick->0),
        slots.full is Some ==> on_the_clock(slots.full->0),
    ensures
        nanos == wait_nanos(slots, now),
{
    let first = match (slots.quick, slots.full) {
        (Some(q), Some(f)) => Some(if f.before(&q) {
            f
        } else {
            q
        }),
        (Some(q), None) => Some(q),
        (None, f) => f,
    };
    let floor: u128 = 30_000_000_000;
    match first {
        Some(slot) => {
            if !now.before(&slot) {
                return floor;
            }
            let whole: i128 = (slot.secs as i128 - now.secs as i128) * 1_000_000_000;
            let diff: i128 = whole + (slot.nanos as i128 - now.nanos as i128);
            proof {
                assert(diff == nanos_of(slot) - nanos_of(now));
            }
            if diff > 30_000_000_000 {
                diff as u128
            } else {
                floor
            }
        },
        None => floor,
    }
}

/// A wait, but no longer than anything is left alone.
pub open spec fn capped(nanos: int) -> int {
    if nanos < REQUEUE_CAP_SECS * NANOS_PER_SEC {
        nanos
    } else {
        REQUEUE_CAP_SECS * NANOS_PER_SEC
    }
}

/// Caps a wait, in nanoseconds.
pub fn cap(nanos: u128) -> (wait: u64)
    ensures
        wait == capped(nanos as int),
{
    if nanos < 1_800_000_000_000 {
        nanos as u64
    } else {
        1_800_000_000_000
    }
}

/// The key of a kind of pass in the status.
pub open spec fn mode_key(mode: MaintenanceMode) -> Seq<char> {
    match mode {
        MaintenanceMode::Quick => "quick"@,
        MaintenanceMode::Full => "full"@,
    }
}

/// A stamp that the end of a pass was seen.
pub struct HandledStamp {
    pub mode: MaintenanceMode,
    pub last_handled_at: String,
}

/// The key of a kind of pass in the status.
pub fn mode_word(mode: MaintenanceMode) -> (word: &'static str)
    ensures
        word@ == mode_key(mode),
{
    match mode {
        MaintenanceMode::Quick => "quick",
        MaintenanceMode::Full => "full",
    }
}

/// Decides whether the end of a pass is to be stamped: it is, with the present
/// time, unless a stamp at or after its slot is there. A time that no stamp can
/// hold, far outside the years of four digits, is not stamped either.
pub fn record_handled_slot(
    h: &RunHistory,
    mode: MaintenanceMode,
    slot: Instant,
    now: Instant,
) -> (stamp: Option<HandledStamp>)
    ensures
        stamp is None <==> (handled_at(*h, mode) is Some && !earlier(
            handled_at(*h, mode)->0,
            slot,
        )) || rfc3339_text(now.secs, now.nanos) is None,
        four_digit_year(now.secs) && on_the_clock(now) ==> (stamp is None <==> handled_at(*h, mode)
            is Some && !earlier(handled_at(*h, mode)->0, slot)),
        stamp is Some ==> {
            &&& stamp->0.mode == mode
            &&& Some(stamp->0.last_handled_at@) == rfc3339_text(now.secs, now.nanos)
            &&& four_digit_year(now.secs) && on_the_clock(now) ==> instant_in(
                Some(stamp->0.last_handled_at@),
            ) == Some(now)
        },
{
    if let Some(at) = last_handled_at(h, mode) {
        if !at.before(&slot) {
            return None;
        }
    }
    match write_instant(now) {
        Some(text) => Some(HandledStamp { mode, last_handled_at: text }),
        None => None,
    }
}

/// The history after a stamp was written: that one entry changes, and nothing
/// else.
pub open spec fn stamped(h: RunHistory, stamp: HandledStamp) -> RunHistory {
    let run = match history_of(h, stamp.mode) {
        Some(s) => s.last_run_at,
        None => None,
    };
    let entry = Some(ModeStatus { last_run_at: run, last_handled_at: Some(stamp.last_handled_at) });
    match stamp.mode {
        MaintenanceMode::Quick => RunHistory { quick: entry, ..h },
        MaintenanceMode::Full => RunHistory { full: entry, ..h },
    }
}

/// A full pass that is due is run rather than a quick one that is due too.
pub proof fn full_subsumes_quick(slots: Slots, now: Instant)
    requires
        reached(slots.full, now),
    ensures
        due(slots, now) == Some((MaintenanceMode::Full, slots.full->0)),
{
}

/// A slot whose end was stamped is never due again: the search then begins no
/// earlier than the stamp, so what it finds lies after the slot.
pub proof fn stamped_slot_is_not_due_again(
    h: RunHistory,
    stamp: HandledStamp,
    slot: Instant,
    now: Instant,
    clock: Instant,
    later: Instant,
    slots: Slots,
)
    requires
        instant_in(Some(stamp.last_handled_at@)) == Some(now),
        !earlier(now, slot),
        slot_of(slots, stamp.mode) is Some ==> earlier(
            search_start(stamped(h, stamp), stamp.mode, clock),
            slot_of(slots, stamp.mode)->0,
        ),
    ensures
        due(slots, later) != Some((stamp.mode, slot)),
{
    let h2 = stamped(h, stamp);
    assert(handled_at(h2, stamp.mode) == Some(now));
    let start = search_start(h2, stamp.mode, clock);
    assert(!earlier(start, now));
    if slot_of(slots, stamp.mode) is Some {
        let next = slot_of(slots, stamp.mode)->0;
        time_between(slot, now, start, next);
    }
}

proof fn time_between(slot: Instant, now: Instant, start: Instant, next: Instant)
    requires
        !earlier(now, slot),
        !earlier(start, now),
        earlier(start, next),
    ensures
        earlier(slot, next),
{
}

/// Seeing the same end twice stamps it once.
pub proof fn end_is_stamped_once(
    h: RunHistory,
    stamp: HandledStamp,
    slot: Instant,
    now: Instant,
)
    requires
        instant_in(Some(stamp.last_handled_at@)) == Some(now),
        !earlier(now, slot),
    ensures
        handled_at(stamped(h, stamp), stamp.mode) is Some,
        !earlier(handled_at(stamped(h, stamp), stamp.mode)->0, slot),
{
}

/// A stamp leaves what the mover wrote, and the other kind of pass, alone.
pub proof fn stamp_touches_one_entry(h: RunHistory, stamp: HandledStamp, mode: MaintenanceMode)
    ensures
        run_at(stamped(h, stamp), stamp.mode) == run_at(h, stamp.mode),
        mode != stamp.mode ==> history_of(stamped(h, stamp), mode) == history_of(h, mode),
{
}

/// A wait is never shorter than a running Job is left alone, nor longer than
/// anything is.
pub proof fn wait_is_bounded(slots: Slots, now: Instant)
    ensures
        REQUEUE_RUNNING_SECS * NANOS_PER_SEC <= capped(wait_nanos(slots, now))
            <= REQUEUE_CAP_SECS * NANOS_PER_SEC,
{
}

/// Each kind of pass goes by its own entry of the status: when a mover ran it,
/// and when its end was seen.
pub proof fn pass_goes_by_its_own_entry(h: RunHistory)
    ensures
        h.quick is None ==> run_at(h, MaintenanceMode::Quick) is None && handled_at(
            h,
            MaintenanceMode::Quick,
        ) is None,
        h.full is None ==> run_at(h, MaintenanceMode::Full) is None && handled_at(
            h,
            MaintenanceMode::Full,
        ) is None,
        h.quick is Some ==> run_at(h, MaintenanceMode::Quick) == instant_in(
            opt_text(h.quick->0.last_run_at),
        ) && handled_at(h, MaintenanceMode::Quick) == instant_in(
            opt_text(h.quick->0.last_handled_at),
        ),
        h.full is Some ==> run_at(h, MaintenanceMode::Full) == instant_in(
            opt_text(h.full->0.last_run_at),
        ) && handled_at(h, MaintenanceMode::Full) == instant_in(opt_text(h.full->0.last_handled_at)),
{
}

/// The search for a slot begins where the last pass was: at the last run or the
/// last end, whichever is later, and never before either; a pass that never ran
/// is searched for from a year ago.
pub proof fn search_begins_where_the_last_pass_was(
    h: RunHistory,
    mode: MaintenanceMode,
    clock: Instant,
)
    requires
        clock.secs >= i64::MIN + 31_536_000,
    ensures
        ({
            let start = search_start(h, mode, clock);
            let run = run_at(h, mode);
            let handled = handled_at(h, mode);
            &&& run is Some ==> !earlier(start, run->0)
            &&& handled is Some ==> !earlier(start, handled->0)
            &&& run is Some || handled is Some ==> Some(start) == run || Some(start) == handled
            &&& run is None && handled is None ==> start.secs == clock.secs - 31_536_000
                && start.nanos == clock.nanos
        }),
{
}

/// The pass that is due is one whose slot has come, the full one wherever its
/// slot has come, and none is due only where none has come.
pub proof fn due_pass_has_come(slots: Slots, now: Instant)
    ensures
        ({
            let full = slots.full is Some && !earlier(now, slots.full->0);
            let quick = slots.quick is Some && !earlier(now, slots.quick->0);
            &&& due(slots, now) is None <==> !full && !quick
            &&& full ==> due(slots, now) == Some((MaintenanceMode::Full, slots.full->0))
            &&& !full && quick ==> due(slots, now) == Some(
                (MaintenanceMode::Quick, slots.quick->0),
            )
            &&& due(slots, now) matches Some((mode, slot)) ==> slot_of(slots, mode) == Some(slot)
        }),
{
}

/// After a pass, the next slot of it is searched for from the one that was just
/// handled; the other kind of pass is searched for as ever.
pub proof fn wakeup_search_begins_at_the_handled_slot(
    h: RunHistory,
    mode: MaintenanceMode,
    other: MaintenanceMode,
    slot: Instant,
    clock: Instant,
)
    ensures
        wakeup_start(h, mode, Some((mode, slot)), clock) == slot,
        other != mode ==> wakeup_start(h, mode, Some((other, slot)), clock) == search_start(
            h,
            mode,
            clock,
        ),
        wakeup_start(h, mode, None, clock) == search_start(h, mode, clock),
{
}

/// The first slot is one of the slots, and none lies before it.
pub proof fn first_slot_is_the_earliest(slots: Slots)
    ensures
        earliest(slots) is None <==> slots.quick is None && slots.full is None,
        earliest(slots) matches Some(first) ==> {
            &&& slots.quick == Some(first) || slots.full == Some(first)
            &&& slots.quick is Some ==> !earlier(slots.quick->0, first)
            &&& slots.full is Some ==> !earlier(slots.full->0, first)
        },
{
}

/// A wait ends at the first slot: it is as long as until then, unless that is
/// less than half a minute away, past, or not known, or more than half an hour
/// away.
pub proof fn wait_ends_at_the_first_slot(slots: Slots, now: Instant)
    requires
        on_the_clock(now),
        slots.quick is Some ==> on_the_clock(slots.quick->0),
        slots.full is Some ==> on_the_clock(slots.full->0),
    ensures
        ({
            let wait = capped(wait_nanos(slots, now));
            let first = earliest(slots);
            let until = nanos_of(first->0) - nanos_of(now);
            &&& first is None ==> wait == 30_000_000_000
            &&& first is Some && until <= 30_000_000_000 ==> wait == 30_000_000_000
            &&& first is Some && 30_000_000_000 <= until <= 1_800_000_000_000 ==> wait == until
            &&& first is Some && until >= 1_800_000_000_000 ==> wait == 1_800_000_000_000
        }),
{
    assert(1_800_000_000_000 == REQUEUE_CAP_SECS * NANOS_PER_SEC);
    assert(30_000_000_000 == REQUEUE_RUNNING_SECS * NANOS_PER_SEC);
}

/// A cap never lengthens a wait, nor lets one be longer than half an hour.
pub proof fn cap_only_shortens(nanos: int)
    ensures
        capped(nanos) <= nanos,
        capped(nanos) <= 1_800_000_000_000,
        capped(nanos) == nanos || capped(nanos) == 1_800_000_000_000,
{
}

/// A stamp is read back as the end that was seen, of the kind of pass that it
/// names.
pub proof fn stamp_is_read_back(h: RunHistory, stamp: HandledStamp)
    ensures
        handled_at(stamped(h, stamp), stamp.mode) == instant_in(Some(stamp.last_handled_at@)),
        stamp.mode == MaintenanceMode::Quick ==> stamped(h, stamp).full == h.full,
        stamp.mode == MaintenanceMode::Full ==> stamped(h, stamp).quick == h.quick,
{
}

/// What is there goes before what it falls back to.
pub proof fn own_setting_goes_before_the_default(a: Option<Seq<char>>, b: Option<Seq<char>>)
    ensures
        a is Some ==> or_else(a, b) == a,
        a is None ==> or_else(a, b) == b,
{
}

/// The repository's defaults give what they hold and nothing where there are
/// none, and each kind of pass has its own entry of the schedule and its own
/// key of the status.
pub proof fn defaults_and_entries_are_not_mixed_up(
    d: Option<ScheduleDefaults>,
    schedule: MaintenanceSchedule,
)
    ensures
        d is None ==> default_jitter(d) is None && default_timezone(d) is None,
        d is Some ==> default_jitter(d) == opt_text(d->0.jitter) && default_timezone(d) == opt_text(
            d->0.timezone,
        ),
        cron_of(schedule, MaintenanceMode::Quick) == schedule.quick,
        cron_of(schedule, MaintenanceMode::Full) == schedule.full,
        mode_key(MaintenanceMode::Quick) == "quick"@,
        mode_key(MaintenanceMode::Full) == "full"@,
{
}

} // verus!
