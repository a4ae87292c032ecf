//! Names of maintenance Jobs: one for each slot and each request.
use crate::maintenance_schedule::MaintenanceMode;
use crate::names::chars_within_bytes;
use crate::text::{
    byte_len, clip, clipped, decimal, decimal_nat, digit_char, render_i64, text_bytes,
};
use vstd::prelude::*;
use vstd::string::StringExecFns;
use vstd::utf8::{is_ascii_chars, is_ascii_chars_encode_utf8};

verus! {

/// The most bytes that a maintenance Job's name may have.
pub const MAX_JOB_NAME: usize = 52;

/// Which pass a request asks for.
#[derive(Clone, Copy, Debug, PartialEq, Eq, Structural)]
pub enum ManualRunMode {
    Quick,
    Full,
}

/// The pass that a request asks for.
pub open spec fn pass_of(mode: ManualRunMode) -> MaintenanceMode {
    match mode {
        ManualRunMode::Quick => MaintenanceMode::Quick,
        ManualRunMode::Full => MaintenanceMode::Full,
    }
}

/// The pass that a request asks for.
pub fn mover_mode(mode: ManualRunMode) -> (pass: MaintenanceMode)
    ensures
        pass == pass_of(mode),
{
    match mode {
        ManualRunMode::Quick => MaintenanceMode::Quick,
        ManualRunMode::Full => MaintenanceMode::Full,
    }
}

/// What started a run.
#[derive(Clone, Copy, Debug, PartialEq, Eq, Structural)]
pub enum Trigger {
    Schedule,
    Request,
}

/// The part of a Job's name that says what started it and which pass it runs.
pub open spec fn run_token(trigger: Trigger, mode: MaintenanceMode) -> Seq<char> {
    match (trigger, mode) {
        (Trigger::Schedule, MaintenanceMode::Quick) => "q"@,
        (Trigger::Schedule, MaintenanceMode::Full) => "f"@,
        (Trigger::Request, MaintenanceMode::Quick) => "mq"@,
        (Trigger::Request, MaintenanceMode::Full) => "mf"@,
    }
}

/// The end of a Job's name.
pub open spec fn run_suffix(trigger: Trigger, mode: MaintenanceMode, secs: int) -> Seq<char> {
    "-"@ + run_token(trigger, mode) + "-"@ + decimal(secs)
}

/// A difference, but not below zero.
pub open spec fn room(a: int, b: int) -> nat {
    if a > b {
        (a - b) as nat
    } else {
        0
    }
}

/// The name of a Job: the object's name and the end, or, where that would be
/// too long, the beginning of the object's name with a hash of all of it.
pub open spec fn job_name(
    cr: Seq<char>,
    trigger: Trigger,
    mode: MaintenanceMode,
    secs: int,
    digest: Seq<char>,
) -> Seq<char> {
    let suffix = run_suffix(trigger, mode, secs);
    let budget = room(MAX_JOB_NAME as int, byte_len(suffix) as int);
    if byte_len(cr) <= budget {
        cr + suffix
    } else {
        clipped(cr, room(budget as int, byte_len(digest) as int + 1)) + "-"@ + digest + suffix
    }
}

fn build_name(cr: &str, trigger: Trigger, mode: MaintenanceMode, secs: i64, digest: &str) -> (name:
    String)
    ensures
        name@ == job_name(cr@, trigger, mode, secs as int, digest@),
{
    let token = match (trigger, mode) {
        (Trigger::Schedule, MaintenanceMode::Quick) => "q",
        (Trigger::Schedule, MaintenanceMode::Full) => "f",
        (Trigger::Request, MaintenanceMode::Quick) => "mq",
        (Trigger::Request, MaintenanceMode::Full) => "mf",
    };
    let mut suffix = "-".to_owned();
    suffix.append(token);
    suffix.append("-");
    suffix.append(render_i64(secs).as_str());
    let used: usize = text_bytes(suffix.as_str());
    let budget: usize = if MAX_JOB_NAME > used {
        MAX_JOB_NAME - used
    } else {
        0
    };
    if text_bytes(cr) <= budget {
        let mut name = cr.to_owned();
        name.append(suffix.as_str());
        name
    } else {
        let hashed: usize = text_bytes(digest);
        let keep: usize = if hashed < budget {
            budget - hashed - 1
        } else {
            0
        };
        let mut name = clip(cr, keep);
        name.append("-");
        name.append(digest);
        name.append(suffix.as_str());
        name
    }
}

/// The name of the Job of a slot. `digest` is a hash of the object's name.
pub fn maintenance_job_name(cr: &str, mode: MaintenanceMode, slot_secs: i64, digest: &str) -> (name:
    String)
    ensures
        name@ == job_name(cr@, Trigger::Schedule, mode, slot_secs as int, digest@),
{
    build_name(cr, Trigger::Schedule, mode, slot_secs, digest)
}

/// The name of the Job of a request. `digest` is a hash of the object's name.
pub fn manual_job_name(cr: &str, mode: ManualRunMode, requested_secs: i64, digest: &str) -> (name:
    String)
    ensures
        name@ == job_name(cr@, Trigger::Request, pass_of(mode), requested_secs as int, digest@),
{
    build_name(cr, Trigger::Request, mover_mode(mode), requested_secs, digest)
}

/// Whether a character is a decimal digit.
pub open spec fn is_digit(c: char) -> bool {
    '0' <= c && c <= '9'
}

proof fn decimal_is_digits(n: nat)
    ensures
        decimal_nat(n).len() >= 1,
        forall|i: int| 0 <= i < decimal_nat(n).len() ==> is_digit(#[trigger] decimal_nat(n)[i]),
    decreases n,
{
    if n >= 10 {
        decimal_is_digits(n / 10);
    }
}

proof fn decimal_is_injective(a: nat, b: nat)
    requires
        decimal_nat(a) == decimal_nat(b),
    ensures
        a == b,
    decreases a,
{
    decimal_is_digits(a / 10);
    decimal_is_digits(b / 10);
    if a >= 10 && b >= 10 {
        let x = decimal_nat(a / 10);
        let y = decimal_nat(b / 10);
        assert(decimal_nat(a) == x.push(digit_char((a % 10) as int)));
        assert(decimal_nat(b) == y.push(digit_char((b % 10) as int)));
        assert(decimal_nat(a).drop_last() =~= x);
        assert(decimal_nat(b).drop_last() =~= y);
        assert(decimal_nat(a).last() == digit_char((a % 10) as int));
        assert(decimal_nat(b).last() == digit_char((b % 10) as int));
        decimal_is_injective(a / 10, b / 10);
        assert(a % 10 == b % 10);
    } else if a < 10 && b < 10 {
        assert(decimal_nat(a)[0] == digit_char(a as int));
        assert(decimal_nat(b)[0] == digit_char(b as int));
    } else if a < 10 {
        assert(decimal_nat(a).len() == 1);
        assert(decimal_nat(b) == decimal_nat(b / 10).push(digit_char((b % 10) as int)));
    } else {
        assert(decimal_nat(b).len() == 1);
        assert(decimal_nat(a) == decimal_nat(a / 10).push(digit_char((a % 10) as int)));
    }
}

/// A power of ten.
pub open spec fn pow10(k: nat) -> nat
    decreases k,
{
    if k == 0 {
        1
    } else {
        10 * pow10((k - 1) as nat)
    }
}

proof fn decimal_is_short(n: nat, k: nat)
    requires
        k >= 1,
        n < pow10(k),
    ensures
        decimal_nat(n).len() <= k,
    decreases k,
{
    if n >= 10 {
        if k == 1 {
            assert(pow10(1) == 10) by {
                reveal_with_fuel(pow10, 2);
            }
        } else {
            decimal_is_short(n / 10, (k - 1) as nat);
        }
    }
}

proof fn suffix_is_short(trigger: Trigger, mode: MaintenanceMode, secs: i64)
    ensures
        run_suffix(trigger, mode, secs as int).len() <= 24,
        byte_len(run_suffix(trigger, mode, secs as int)) == run_suffix(
            trigger,
            mode,
            secs as int,
        ).len(),
{
    reveal_strlit("-");
    reveal_strlit("q");
    reveal_strlit("f");
    reveal_strlit("mq");
    reveal_strlit("mf");
    let n = if secs < 0 {
        (-secs) as nat
    } else {
        secs as nat
    };
    assert(n < pow10(19)) by {
        reveal_with_fuel(pow10, 20);
    }
    decimal_is_short(n, 19);
    decimal_is_digits(n);
    let suffix = run_suffix(trigger, mode, secs as int);
    assert(is_ascii_chars(decimal_nat(n)));
    assert(is_ascii_chars(suffix));
    is_ascii_chars_encode_utf8(suffix);
}

/// A Job's name, of a slot or of a request, never has more than the allowed
/// number of characters, where the hash has no more than twenty-seven.
pub proof fn job_name_fits(
    cr: Seq<char>,
    trigger: Trigger,
    mode: MaintenanceMode,
    secs: i64,
    digest: Seq<char>,
)
    requires
        digest.len() <= 27,
    ensures
        job_name(cr, trigger, mode, secs as int, digest).len() <= MAX_JOB_NAME,
{
    suffix_is_short(trigger, mode, secs);
    chars_within_bytes(cr);
    chars_within_bytes(digest);
    reveal_strlit("-");
}

/// Whether a character is a lower-case letter or a digit.
pub open spec fn is_alphanumeric(c: char) -> bool {
    is_digit(c) || ('a' <= c && c <= 'z')
}

/// Whether a text is a label by RFC 1123, as Kubernetes takes names: lower-case
/// letters, digits and hyphens, sixty-three at most, the first and the last no
/// hyphen.
pub open spec fn is_dns_label(s: Seq<char>) -> bool {
    &&& 0 < s.len() <= 63
    &&& is_alphanumeric(s[0])
    &&& is_alphanumeric(s.last())
    &&& forall|i: int| 0 <= i < s.len() ==> is_alphanumeric(#[trigger] s[i]) || s[i] == '-'
}

/// Whether a text is made of so many lower-case hexadecimal digits.
pub open spec fn is_hex(s: Seq<char>, digits: nat) -> bool {
    &&& s.len() == digits
    &&& forall|i: int| 0 <= i < s.len() ==> is_digit(#[trigger] s[i]) || ('a' <= s[i] && s[i] <= 'f')
}

/// The end of a Job's name is made of what a label may hold, and closes with a
/// digit.
proof fn suffix_is_label_tail(trigger: Trigger, mode: MaintenanceMode, secs: i64)
    ensures
        ({
            let suffix = run_suffix(trigger, mode, secs as int);
            &&& suffix.len() > 0
            &&& is_digit(suffix.last())
            &&& forall|i: int|
                0 <= i < suffix.len() ==> is_alphanumeric(#[trigger] suffix[i]) || suffix[i] == '-'
        }),
{
    reveal_strlit("-");
    reveal_strlit("q");
    reveal_strlit("f");
    reveal_strlit("mq");
    reveal_strlit("mf");
    let n = magnitude(secs as int);
    decimal_is_digits(n);
    let digits = decimal_nat(n);
    let shown = decimal(secs as int);
    assert(shown.last() == digits.last());
    assert forall|i: int| 0 <= i < shown.len() implies is_digit(#[trigger] shown[i]) || shown[i]
        == '-' by {
        if secs < 0 && i > 0 {
            assert(shown[i] == digits[i - 1]);
        }
    }
    let suffix = run_suffix(trigger, mode, secs as int);
    let front = suffix.len() - shown.len();
    assert(suffix.last() == shown.last());
    assert forall|i: int| 0 <= i < suffix.len() implies is_alphanumeric(#[trigger] suffix[i])
        || suffix[i] == '-' by {
        if i >= front {
            assert(suffix[i] == shown[i - front]);
        }
    }
}

/// The Job of an object that is named by a label is named by a label too, of
/// the allowed number of bytes at most, where the hash is eight hexadecimal
/// digits. It closes with what started the run, its pass and its second, and
/// begins with the whole name of the object where that fits.
pub proof fn job_name_is_a_label(
    cr: Seq<char>,
    trigger: Trigger,
    mode: MaintenanceMode,
    secs: i64,
    digest: Seq<char>,
)
    requires
        is_dns_label(cr),
        is_hex(digest, 8),
    ensures
        ({
            let name = job_name(cr, trigger, mode, secs as int, digest);
            let suffix = run_suffix(trigger, mode, secs as int);
            &&& is_dns_label(name)
            &&& byte_len(name) == name.len()
            &&& byte_len(name) <= MAX_JOB_NAME
            &&& name.len() >= suffix.len()
            &&& name.skip(name.len() - suffix.len()) == suffix
            &&& cr.len() + suffix.len() <= MAX_JOB_NAME ==> name == cr + suffix
        }),
{
    reveal_strlit("-");
    let suffix = run_suffix(trigger, mode, secs as int);
    let name = job_name(cr, trigger, mode, secs as int, digest);
    suffix_is_short(trigger, mode, secs);
    suffix_is_label_tail(trigger, mode, secs);
    job_name_fits(cr, trigger, mode, secs, digest);
    assert(is_ascii_chars(cr));
    is_ascii_chars_encode_utf8(cr);
    assert(is_ascii_chars(digest));
    is_ascii_chars_encode_utf8(digest);
    let head = name_head(cr, trigger, mode, secs as int, digest);
    assert(name =~= head + suffix);
    let budget = room(MAX_JOB_NAME as int, byte_len(suffix) as int);
    let keep = room(budget as int, byte_len(digest) as int + 1);
    assert forall|i: int| 0 <= i < head.len() implies is_alphanumeric(#[trigger] head[i])
        || head[i] == '-' by {
        if byte_len(cr) > budget {
            let kept = clipped(cr, keep);
            if i < kept.len() {
                assert(head[i] == cr[i]);
            } else if i > kept.len() {
                assert(head[i] == digest[i - kept.len() - 1]);
            }
        } else {
            assert(head[i] == cr[i]);
        }
    }
    assert(head[0] == cr[0]);
    assert forall|i: int| 0 <= i < name.len() implies is_alphanumeric(#[trigger] name[i])
        || name[i] == '-' by {
        if i < head.len() {
            assert(name[i] == head[i]);
        } else {
            assert(name[i] == suffix[i - head.len()]);
        }
    }
    assert(name[0] == head[0]);
    assert(name.last() == suffix.last());
    assert(is_ascii_chars(name));
    is_ascii_chars_encode_utf8(name);
    assert(name.skip(name.len() - suffix.len()) =~= suffix);
}

/// What stands before the end of a Job's name.
spec fn name_head(
    cr: Seq<char>,
    trigger: Trigger,
    mode: MaintenanceMode,
    secs: int,
    digest: Seq<char>,
) -> Seq<char> {
    let budget = room(MAX_JOB_NAME as int, byte_len(run_suffix(trigger, mode, secs)) as int);
    if byte_len(cr) <= budget {
        cr
    } else {
        clipped(cr, room(budget as int, byte_len(digest) as int + 1)) + "-"@ + digest
    }
}

spec fn magnitude(secs: int) -> nat {
    if secs < 0 {
        (-secs) as nat
    } else {
        secs as nat
    }
}

spec fn mode_char(mode: MaintenanceMode) -> char {
    match mode {
        MaintenanceMode::Quick => 'q',
        MaintenanceMode::Full => 'f',
    }
}

spec fn trigger_char(trigger: Trigger) -> char {
    match trigger {
        Trigger::Schedule => '-',
        Trigger::Request => 'm',
    }
}

proof fn tail_shape(head: Seq<char>, trigger: Trigger, mode: MaintenanceMode, secs: int)
    ensures
        ({
            let name = head + run_suffix(trigger, mode, secs);
            let digits = decimal_nat(magnitude(secs));
            let end = name.len() - digits.len();
            let sign: int = if secs < 0 {
                1
            } else {
                0
            };
            &&& end >= 3 + sign
            &&& name.skip(end) == digits
            &&& name[end - 1] == '-'
            &&& name[end - 2] == (if secs < 0 {
                '-'
            } else {
                mode_char(mode)
            })
            &&& name[end - 2 - sign] == mode_char(mode)
            &&& name[end - 3 - sign] == trigger_char(trigger)
        }),
{
    reveal_strlit("-");
    reveal_strlit("q");
    reveal_strlit("f");
    reveal_strlit("mq");
    reveal_strlit("mf");
    let name = head + run_suffix(trigger, mode, secs);
    let digits = decimal_nat(magnitude(secs));
    let end = name.len() - digits.len();
    assert(name.skip(end) =~= digits);
}

/// Two runs have the same Job name only where the same thing started them,
/// they run the same pass, and for the same second: a request never meets a
/// slot, a quick pass never a full one, and one slot never another.
pub proof fn job_names_tell_runs_apart(
    cr1: Seq<char>,
    trigger1: Trigger,
    mode1: MaintenanceMode,
    secs1: int,
    digest1: Seq<char>,
    cr2: Seq<char>,
    trigger2: Trigger,
    mode2: MaintenanceMode,
    secs2: int,
    digest2: Seq<char>,
)
    requires
        job_name(cr1, trigger1, mode1, secs1, digest1) == job_name(
            cr2,
            trigger2,
            mode2,
            secs2,
            digest2,
        ),
    ensures
        trigger1 == trigger2,
        mode1 == mode2,
        secs1 == secs2,
{
    let name = job_name(cr1, trigger1, mode1, secs1, digest1);
    let head1 = name_head(cr1, trigger1, mode1, secs1, digest1);
    let head2 = name_head(cr2, trigger2, mode2, secs2, digest2);
    assert(name =~= head1 + run_suffix(trigger1, mode1, secs1));
    assert(name =~= head2 + run_suffix(trigger2, mode2, secs2));
    tail_shape(head1, trigger1, mode1, secs1);
    tail_shape(head2, trigger2, mode2, secs2);
    let d1 = decimal_nat(magnitude(secs1));
    let d2 = decimal_nat(magnitude(secs2));
    decimal_is_digits(magnitude(secs1));
    decimal_is_digits(magnitude(secs2));
    let end1 = name.len() - d1.len();
    let end2 = name.len() - d2.len();
    if end1 < end2 {
        assert(name.skip(end1)[end2 - 1 - end1] == name[end2 - 1]);
        assert(is_digit(d1[end2 - 1 - end1]));
    } else if end2 < end1 {
        assert(name.skip(end2)[end1 - 1 - end2] == name[end1 - 1]);
        assert(is_digit(d2[end1 - 1 - end2]));
    }
    decimal_is_injective(magnitude(secs1), magnitude(secs2));
}

/// A Job's name begins with the name of its `Maintenance`, whole where it fits,
/// and ends with what started it, which pass it runs and for which second.
pub proof fn job_is_named_after_its_run(
    cr: Seq<char>,
    trigger: Trigger,
    mode: MaintenanceMode,
    secs: int,
    digest: Seq<char>,
)
    ensures
        ({
            let name = job_name(cr, trigger, mode, secs, digest);
            let token = if trigger == Trigger::Schedule && mode == MaintenanceMode::Quick {
                "q"@
            } else if trigger == Trigger::Schedule {
                "f"@
            } else if mode == MaintenanceMode::Quick {
                "mq"@
            } else {
                "mf"@
            };
            let suffix = "-"@ + token + "-"@ + decimal(secs);
            &&& name.len() >= suffix.len()
            &&& name.skip(name.len() - suffix.len()) == suffix
            &&& byte_len(cr) + byte_len(suffix) <= 52 ==> name == cr + suffix
            &&& byte_len(cr) + byte_len(suffix) > 52 && byte_len(suffix) <= 52 ==> exists|k: int|
                0 <= k <= cr.len() && name == #[trigger] cr.take(k) + "-"@ + digest + suffix
        }),
{
    let suffix = run_suffix(trigger, mode, secs);
    let name = job_name(cr, trigger, mode, secs, digest);
    let budget = room(MAX_JOB_NAME as int, byte_len(suffix) as int);
    if byte_len(cr) <= budget {
        assert(name.skip(name.len() - suffix.len()) =~= suffix);
    } else {
        let keep = room(budget as int, byte_len(digest) as int + 1);
        let k: int = if cr.len() <= keep {
            cr.len() as int
        } else {
            keep as int
        };
        assert(cr.take(cr.len() as int) =~= cr);
        assert(name == cr.take(k) + "-"@ + digest + suffix);
        assert(name.skip(name.len() - suffix.len()) =~= suffix);
    }
}

/// A request runs the pass that it asks for.
pub proof fn request_runs_the_pass_it_asks_for(mode: ManualRunMode)
    ensures
        pass_of(mode) == MaintenanceMode::Quick <==> mode == ManualRunMode::Quick,
        pass_of(mode) == MaintenanceMode::Full <==> mode == ManualRunMode::Full,
{
}

} // verus!
