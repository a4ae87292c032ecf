//! Points in time, their order, and how they are written.
use vstd::prelude::*;

verus! {

/// A point in time: whole seconds since the epoch, and nanoseconds after that
/// second. More than a second's worth of nanoseconds stands for a leap second.
#[derive(Clone, Copy, Debug, PartialEq, Eq, Structural)]
pub struct Instant {
    pub secs: i64,
    pub nanos: u32,
}

/// Nanoseconds in a second.
pub const NANOS_PER_SEC: u32 = 1_000_000_000;

/// Whether one point in time lies before another.
pub open spec fn earlier(a: Instant, b: Instant) -> bool {
    a.secs < b.secs || (a.secs == b.secs && a.nanos < b.nanos)
}

/// Whether a point in time is outside leap seconds.
pub open spec fn on_the_clock(t: Instant) -> bool {
    t.nanos < NANOS_PER_SEC
}

/// The nanoseconds from the epoch to a point in time.
pub open spec fn nanos_of(t: Instant) -> int {
    t.secs * NANOS_PER_SEC + t.nanos
}

impl Instant {
    /// Whether this point in time lies before another.
    pub fn before(&self, other: &Instant) -> (yes: bool)
        ensures
            yes == earlier(*self, *other),
    {
        self.secs < other.secs || (self.secs == other.secs && self.nanos < other.nanos)
    }
}

/// The later of two points in time.
pub open spec fn later_of(a: Instant, b: Instant) -> Instant {
    if earlier(a, b) {
        b
    } else {
        a
    }
}

/// The earlier of two points in time.
pub open spec fn earlier_of(a: Instant, b: Instant) -> Instant {
    if earlier(b, a) {
        b
    } else {
        a
    }
}

/// What `chrono::DateTime::parse_from_rfc3339` reads from a text, as seconds
/// and nanoseconds; `None` where it reads nothing.
pub uninterp spec fn rfc3339_instant(s: Seq<char>) -> Option<(i64, u32)>;

/// What `chrono::DateTime::to_rfc3339` writes for a point in time in UTC;
/// `None` where chrono cannot hold it.
pub uninterp spec fn rfc3339_text(secs: i64, nanos: u32) -> Option<Seq<char>>;

/// Whether the year of a point in time has four digits.
pub open spec fn four_digit_year(secs: i64) -> bool {
    -62_167_219_200 <= secs <= 253_402_300_799
}

/// Reads a text with `chrono::DateTime::parse_from_rfc3339`, and gives the
/// result in UTC as seconds and nanoseconds. The result is named.
#[verifier::external_body]
pub(crate) fn parse_rfc3339(s: &str) -> (read: Option<(i64, u32)>)
    ensures
        read == rfc3339_instant(s@),
{
    chrono::DateTime::parse_from_rfc3339(s).ok().map(
        |t| (t.timestamp(), t.timestamp_subsec_nanos()),
    )
}

/// Writes a point in time with `chrono::DateTime::to_rfc3339`, in UTC. The
/// result is named; a point in time on the clock in a year of four digits is
/// always written, and what is written reads back as the same point in time.
#[verifier::external_body]
pub(crate) fn write_rfc3339(secs: i64, nanos: u32) -> (written: Option<String>)
    ensures
        written is Some <==> rfc3339_text(secs, nanos) is Some,
        written is Some ==> written->0@ == rfc3339_text(secs, nanos)->0,
        four_digit_year(secs) && nanos < NANOS_PER_SEC ==> written is Some && rfc3339_instant(
            written->0@,
        ) == Some((secs, nanos)),
{
    chrono::DateTime::from_timestamp(secs, nanos).map(|t| t.to_rfc3339())
}

/// The point in time that a text names.
pub open spec fn instant_in(s: Option<Seq<char>>) -> Option<Instant> {
    match s {
        Some(t) => match rfc3339_instant(t) {
            Some((secs, nanos)) => Some(Instant { secs, nanos }),
            None => None,
        },
        None => None,
    }
}

/// Reads the point in time that an optional text names.
pub fn read_instant(s: &Option<String>) -> (read: Option<Instant>)
    ensures
        read == instant_in(crate::text::opt_text(*s)),
{
    match s {
        Some(t) => match parse_rfc3339(t.as_str()) {
            Some((secs, nanos)) => Some(Instant { secs, nanos }),
            None => None,
        },
        None => None,
    }
}

/// Writes a point in time. What is on the clock in a year of four digits reads
/// back as it was; what cannot be written gives nothing.
pub fn write_instant(t: Instant) -> (written: Option<String>)
    ensures
        crate::text::opt_text(written) == rfc3339_text(t.secs, t.nanos),
        four_digit_year(t.secs) && on_the_clock(t) ==> written is Some && instant_in(
            crate::text::opt_text(written),
        ) == Some(t),
{
    write_rfc3339(t.secs, t.nanos)
}

/// The order of points in time is strict and total.
pub proof fn time_order(a: Instant, b: Instant, c: Instant)
    ensures
        !earlier(a, a),
        earlier(a, b) && earlier(b, c) ==> earlier(a, c),
        earlier(a, b) || earlier(b, a) || a == b,
{
}

/// The order of points in time is the one of their nanoseconds, and a second
/// has a billion of them.
pub proof fn time_order_is_by_nanoseconds(a: Instant, b: Instant)
    requires
        on_the_clock(a),
        on_the_clock(b),
    ensures
        earlier(a, b) <==> nanos_of(a) < nanos_of(b),
        nanos_of(a) - nanos_of(b) == (a.secs - b.secs) * 1_000_000_000 + (a.nanos - b.nanos),
{
}

/// The later of two points in time is one of them and lies before neither, and
/// the earlier is one of them and lies after neither.
pub proof fn later_and_earlier_of_two(a: Instant, b: Instant)
    ensures
        later_of(a, b) == a || later_of(a, b) == b,
        !earlier(later_of(a, b), a) && !earlier(later_of(a, b), b),
        earlier_of(a, b) == a || earlier_of(a, b) == b,
        !earlier(a, earlier_of(a, b)) && !earlier(b, earlier_of(a, b)),
{
}

/// A text is read as the point in time that it names, to the nanosecond, and
/// one that names none, or is not there, as none.
pub proof fn text_is_read_as_the_time_it_names(s: Seq<char>)
    ensures
        instant_in(None) is None,
        instant_in(Some(s)) is Some <==> rfc3339_instant(s) is Some,
        rfc3339_instant(s) matches Some((secs, nanos)) ==> instant_in(Some(s))->0.secs == secs
            && instant_in(Some(s))->0.nanos == nanos,
{
}

/// Points in time are on the clock where they lie within their second.
pub proof fn clock_has_a_billion_nanoseconds(t: Instant)
    ensures
        on_the_clock(t) <==> t.nanos <= 999_999_999,
{
}

} // verus!
