//! Text the controller builds and compares: concatenation, joining, decimal
//! and hexadecimal rendering, suffix stripping and byte order.
use vstd::prelude::*;
use vstd::string::{StrSliceExecFns, StringExecFns};
use vstd::utf8::encode_utf8;

verus! {

/// The characters of an optional text.
pub open spec fn opt_text(o: Option<String>) -> Option<Seq<char>> {
    match o {
        Some(s) => Some(s@),
        None => None,
    }
}

/// The characters of an optional borrowed text.
pub open spec fn opt_str(o: Option<&str>) -> Option<Seq<char>> {
    match o {
        Some(s) => Some(s@),
        None => None,
    }
}

/// The characters of each text of a list.
pub open spec fn texts(v: Seq<String>) -> Seq<Seq<char>> {
    v.map_values(|s: String| s@)
}

/// Whether two texts hold the same characters.
pub fn same_text(a: &str, b: &str) -> (same: bool)
    ensures
        same == (a@ == b@),
{
    a.to_owned() == b.to_owned()
}

/// Whether an optional text is present and holds exactly `b`.
pub fn is_text(a: &Option<String>, b: &str) -> (same: bool)
    ensures
        same == (opt_text(*a) == Some(b@)),
{
    match a {
        Some(s) => same_text(s.as_str(), b),
        None => false,
    }
}

/// Whether an optional text is present and not empty.
pub open spec fn filled(o: Option<Seq<char>>) -> bool {
    match o {
        Some(s) => s.len() > 0,
        None => false,
    }
}

/// Whether an optional text is present and not empty.
pub fn is_filled(a: &Option<String>) -> (yes: bool)
    ensures
        yes == filled(opt_text(*a)),
{
    match a {
        Some(s) => !s.as_str().is_empty(),
        None => false,
    }
}

/// The number of bytes a text occupies in UTF-8.
pub open spec fn byte_len(s: Seq<char>) -> nat {
    encode_utf8(s).len()
}

/// The number of bytes a text occupies in UTF-8.
pub fn text_bytes(s: &str) -> (n: usize)
    ensures
        n == byte_len(s@),
{
    s.as_bytes().len()
}

/// The texts of a list, one after the other, with `sep` between neighbours.
pub open spec fn joined(parts: Seq<Seq<char>>, sep: Seq<char>) -> Seq<char>
    decreases parts.len(),
{
    if parts.len() == 0 {
        Seq::empty()
    } else if parts.len() == 1 {
        parts[0]
    } else {
        joined(parts.drop_last(), sep) + sep + parts.last()
    }
}

/// Joins the texts of a list with `sep` between neighbours.
pub fn join(parts: &Vec<String>, sep: &str) -> (out: String)
    ensures
        out@ == joined(texts(parts@), sep@),
{
    let mut out = String::new();
    let mut i: usize = 0;
    while i < parts.len()
        invariant
            i <= parts.len(),
            out@ == joined(texts(parts@).take(i as int), sep@),
        decreases parts.len() - i,
    {
        let ghost before = texts(parts@).take(i as int);
        let ghost after = texts(parts@).take(i + 1);
        proof {
            assert(after.drop_last() =~= before);
            assert(after.last() == parts@[i as int]@);
        }
        if i > 0 {
            out.append(sep);
        }
        out.append(parts[i].as_str());
        proof {
            if i == 0 {
                assert(out@ =~= parts@[0]@);
            }
        }
        i = i + 1;
    }
    proof {
        assert(texts(parts@).take(parts@.len() as int) =~= texts(parts@));
    }
    out
}

/// Whether `s` ends in `suffix`.
pub open spec fn has_suffix(s: Seq<char>, suffix: Seq<char>) -> bool {
    suffix.len() <= s.len() && s.skip(s.len() - suffix.len()) == suffix
}

/// What stands before `suffix` at the end of `s`, where `s` ends in it.
pub fn strip_suffix(s: &str, suffix: &str) -> (stem: Option<String>)
    ensures
        has_suffix(s@, suffix@) ==> opt_text(stem) == Some(s@.take(s@.len() - suffix@.len())),
        !has_suffix(s@, suffix@) ==> stem is None,
{
    let n: usize = s.unicode_len();
    let k: usize = suffix.unicode_len();
    if k > n {
        return None;
    }
    let tail = s.substring_char(n - k, n);
    proof {
        assert(tail@ =~= s@.skip(n - k));
    }
    if same_text(tail, suffix) {
        let stem = s.substring_char(0, n - k).to_owned();
        proof {
            assert(stem@ =~= s@.take(n - k));
        }
        Some(stem)
    } else {
        None
    }
}

/// The first `n` characters of `s`, or all of it where it is shorter.
pub open spec fn clipped(s: Seq<char>, n: nat) -> Seq<char> {
    if s.len() <= n {
        s
    } else {
        s.take(n as int)
    }
}

/// The first `n` characters of `s`, or all of it where it is shorter.
pub fn clip(s: &str, n: usize) -> (out: String)
    ensures
        out@ == clipped(s@, n as nat),
{
    if s.unicode_len() <= n {
        s.to_owned()
    } else {
        let head = s.substring_char(0, n).to_owned();
        proof {
            assert(head@ =~= s@.take(n as int));
        }
        head
    }
}

/// The character of a digit below sixteen, in lower case.
pub open spec fn digit_char(d: int) -> char {
    if d == 0 { '0' }
    else if d == 1 { '1' }
    else if d == 2 { '2' }
    else if d == 3 { '3' }
    else if d == 4 { '4' }
    else if d == 5 { '5' }
    else if d == 6 { '6' }
    else if d == 7 { '7' }
    else if d == 8 { '8' }
    else if d == 9 { '9' }
    else if d == 10 { 'a' }
    else if d == 11 { 'b' }
    else if d == 12 { 'c' }
    else if d == 13 { 'd' }
    else if d == 14 { 'e' }
    else { 'f' }
}

/// One digit as a text of one character.
fn digit_text(d: u64) -> (s: &'static str)
    requires
        d < 16,
    ensures
        s@ == seq![digit_char(d as int)],
{
    proof {
        reveal_strlit("0");
        reveal_strlit("1");
        reveal_strlit("2");
        reveal_strlit("3");
        reveal_strlit("4");
        reveal_strlit("5");
        reveal_strlit("6");
        reveal_strlit("7");
        reveal_strlit("8");
        reveal_strlit("9");
        reveal_strlit("a");
        reveal_strlit("b");
        reveal_strlit("c");
        reveal_strlit("d");
        reveal_strlit("e");
        reveal_strlit("f");
    }
    let s = if d == 0 { "0" }
        else if d == 1 { "1" }
        else if d == 2 { "2" }
        else if d == 3 { "3" }
        else if d == 4 { "4" }
        else if d == 5 { "5" }
        else if d == 6 { "6" }
        else if d == 7 { "7" }
        else if d == 8 { "8" }
        else if d == 9 { "9" }
        else if d == 10 { "a" }
        else if d == 11 { "b" }
        else if d == 12 { "c" }
        else if d == 13 { "d" }
        else if d == 14 { "e" }
        else { "f" };
    proof {
        assert(s@ =~= seq![digit_char(d as int)]);
    }
    s
}

/// A natural number in decimal, without leading zeros.
pub open spec fn decimal_nat(n: nat) -> Seq<char>
    decreases n,
{
    if n < 10 {
        seq![digit_char(n as int)]
    } else {
        decimal_nat(n / 10).push(digit_char((n % 10) as int))
    }
}

/// An integer in decimal, with a minus sign where it is negative.
pub open spec fn decimal(n: int) -> Seq<char> {
    if n < 0 {
        "-"@ + decimal_nat((-n) as nat)
    } else {
        decimal_nat(n as nat)
    }
}

/// Renders a natural number in decimal.
pub fn render_u64(n: u64) -> (out: String)
    ensures
        out@ == decimal_nat(n as nat),
    decreases n,
{
    if n < 10 {
        digit_text(n).to_owned()
    } else {
        let mut out = render_u64(n / 10);
        let ghost head = out@;
        out.append(digit_text(n % 10));
        proof {
            assert(out@ =~= head.push(digit_char((n % 10) as int)));
        }
        out
    }
}

/// Renders an integer in decimal.
pub fn render_i64(n: i64) -> (out: String)
    ensures
        out@ == decimal(n as int),
{
    if n < 0 {
        let magnitude: u64 = if n == i64::MIN { 0x8000_0000_0000_0000 } else { (-n) as u64 };
        let mut out = "-".to_owned();
        out.append(render_u64(magnitude).as_str());
        out
    } else {
        render_u64(n as u64)
    }
}

/// The lowest `digits` hexadecimal digits of `n`, most significant first.
pub open spec fn hex_digits(n: nat, digits: nat) -> Seq<char>
    decreases digits,
{
    if digits == 0 {
        Seq::empty()
    } else {
        hex_digits(n / 16, (digits - 1) as nat).push(digit_char((n % 16) as int))
    }
}

/// Renders the lowest `digits` hexadecimal digits of `n`.
pub fn render_hex(n: u64, digits: usize) -> (out: String)
    ensures
        out@ == hex_digits(n as nat, digits as nat),
    decreases digits,
{
    if digits == 0 {
        String::new()
    } else {
        let mut out = render_hex(n / 16, digits - 1);
        let ghost head = out@;
        out.append(digit_text(n % 16));
        proof {
            assert(out@ =~= head.push(digit_char((n % 16) as int)));
        }
        out
    }
}

/// Whether `a` comes strictly before `b` in byte order, the order of texts.
pub open spec fn bytes_before(a: Seq<u8>, b: Seq<u8>) -> bool
    decreases a.len(),
{
    if b.len() == 0 {
        false
    } else if a.len() == 0 {
        true
    } else if a[0] != b[0] {
        a[0] < b[0]
    } else {
        bytes_before(a.skip(1), b.skip(1))
    }
}

/// Whether text `a` comes strictly before text `b`.
pub open spec fn text_before(a: Seq<char>, b: Seq<char>) -> bool {
    bytes_before(encode_utf8(a), encode_utf8(b))
}

/// Whether text `a` comes strictly before text `b`.
pub fn precedes(a: &str, b: &str) -> (before: bool)
    ensures
        before == text_before(a@, b@),
{
    let x = a.as_bytes();
    let y = b.as_bytes();
    let mut i: usize = 0;
    proof {
        assert(x@.skip(0) =~= x@);
        assert(y@.skip(0) =~= y@);
    }
    while i < x.len() && i < y.len() && x[i] == y[i]
        invariant
            i <= x@.len(),
            i <= y@.len(),
            bytes_before(x@, y@) == bytes_before(x@.skip(i as int), y@.skip(i as int)),
        decreases x@.len() - i,
    {
        proof {
            assert(x@.skip(i as int).skip(1) =~= x@.skip(i + 1));
            assert(y@.skip(i as int).skip(1) =~= y@.skip(i + 1));
        }
        i = i + 1;
    }
    if i >= y.len() {
        false
    } else if i >= x.len() {
        true
    } else {
        x[i] < y[i]
    }
}

/// Byte order is irreflexive.
pub proof fn bytes_before_irreflexive(a: Seq<u8>)
    ensures
        !bytes_before(a, a),
    decreases a.len(),
{
    if a.len() > 0 {
        bytes_before_irreflexive(a.skip(1));
    }
}

/// Byte order is transitive.
pub proof fn bytes_before_transitive(a: Seq<u8>, b: Seq<u8>, c: Seq<u8>)
    requires
        bytes_before(a, b),
        bytes_before(b, c),
    ensures
        bytes_before(a, c),
    decreases a.len(),
{
    if a.len() > 0 && b.len() > 0 && c.len() > 0 && a[0] == b[0] && b[0] == c[0] {
        bytes_before_transitive(a.skip(1), b.skip(1), c.skip(1));
    }
}

/// Two byte sequences neither of which comes before the other are equal.
pub proof fn bytes_before_total(a: Seq<u8>, b: Seq<u8>)
    ensures
        bytes_before(a, b) || bytes_before(b, a) || a == b,
    decreases a.len(),
{
    if a.len() == 0 {
        if b.len() == 0 {
            assert(a =~= b);
        }
    } else if b.len() > 0 && a[0] == b[0] {
        bytes_before_total(a.skip(1), b.skip(1));
        if a.skip(1) == b.skip(1) {
            assert(a =~= seq![a[0]] + a.skip(1));
            assert(b =~= seq![b[0]] + b.skip(1));
        }
    }
}

/// The number of characters of eight hexadecimal digits is eight.
pub proof fn hex_digits_len(n: nat, digits: nat)
    ensures
        hex_digits(n, digits).len() == digits,
    decreases digits,
{
    if digits > 0 {
        hex_digits_len(n / 16, (digits - 1) as nat);
    }
}

/// Whether a text mentions another: somewhere in it.
pub open spec fn mentions(text: Seq<char>, part: Seq<char>) -> bool {
    exists|i: int|
        0 <= i && i + part.len() <= text.len() && #[trigger] text.subrange(i, i + part.len())
            == part
}

/// What stands between two texts is mentioned.
pub proof fn part_is_mentioned(head: Seq<char>, part: Seq<char>, tail: Seq<char>)
    ensures
        mentions(head + part + tail, part),
{
    let text = head + part + tail;
    let i: int = head.len() as int;
    assert(text.subrange(i, i + part.len()) =~= part);
}

/// The number that a text of digits stands for.
pub open spec fn number_of(s: Seq<char>) -> int
    decreases s.len(),
{
    if s.len() == 0 {
        0
    } else {
        10 * number_of(s.drop_last()) + (s.last() as int - '0' as int)
    }
}

/// A number in decimal reads back as the number, and a negative one is that of
/// its magnitude behind a minus sign.
pub proof fn decimal_reads_back(n: nat)
    ensures
        decimal_nat(n).len() > 0,
        number_of(decimal_nat(n)) == n,
        decimal(n as int) == decimal_nat(n),
        n > 0 ==> decimal(-n) == "-"@ + decimal_nat(n),
    decreases n,
{
    if n >= 10 {
        decimal_reads_back(n / 10);
        assert(decimal_nat(n).drop_last() =~= decimal_nat(n / 10));
    } else {
        let s = decimal_nat(n);
        assert(s.drop_last() =~= Seq::empty());
        assert(number_of(s.drop_last()) == 0);
    }
}

/// Texts are joined in order, each once and with the separator between any two
/// neighbours and nowhere else.
pub proof fn joined_with_separators_between(parts: Seq<Seq<char>>, more: Seq<char>, sep: Seq<char>)
    ensures
        joined(Seq::empty(), sep).len() == 0,
        joined(seq![more], sep) == more,
        parts.len() > 0 ==> joined(parts.push(more), sep) == joined(parts, sep) + sep + more,
{
    assert(parts.push(more).drop_last() =~= parts);
    assert(joined(seq![more], sep) == seq![more][0]);
}

/// A text that is clipped is a beginning of it, as long as was allowed.
pub proof fn clipped_is_a_beginning(s: Seq<char>, n: nat)
    ensures
        clipped(s, n).len() == (if s.len() <= n {
            s.len()
        } else {
            n
        }),
        clipped(s, n) == s.take(clipped(s, n).len() as int),
{
    assert(s.take(s.len() as int) =~= s);
}

/// A text has an ending exactly where it is something and that ending.
pub proof fn suffix_is_an_ending(stem: Seq<char>, s: Seq<char>, suffix: Seq<char>)
    ensures
        has_suffix(stem + suffix, suffix),
        has_suffix(s, suffix) ==> s == s.take(s.len() - suffix.len()) + suffix,
{
    let t = stem + suffix;
    assert(t.skip(t.len() - suffix.len()) =~= suffix);
    if has_suffix(s, suffix) {
        assert(s =~= s.take(s.len() - suffix.len()) + s.skip(s.len() - suffix.len()));
    }
}

/// A text is filled where it is there and not empty.
pub proof fn filled_is_there_and_not_empty(o: Option<Seq<char>>)
    ensures
        filled(o) <==> o is Some && o->0.len() > 0,
{
}

/// Byte order is decided by the first byte that differs, and a beginning comes
/// before what it begins.
pub proof fn first_difference_decides(common: Seq<u8>, a: Seq<u8>, b: Seq<u8>)
    requires
        b.len() > 0,
        a.len() == 0 || a[0] < b[0],
    ensures
        bytes_before(common + a, common + b),
        !bytes_before(common + b, common + a),
    decreases common.len(),
{
    if common.len() == 0 {
        assert(common + a =~= a);
        assert(common + b =~= b);
    } else {
        first_difference_decides(common.skip(1), a, b);
        assert((common + a).skip(1) =~= common.skip(1) + a);
        assert((common + b).skip(1) =~= common.skip(1) + b);
    }
}

/// Digits are written in order, those from ten on as the letters from `a` on,
/// and a number in hexadecimal ends with its last digit.
pub proof fn hexadecimal_is_written_in_order(n: nat, digits: nat, d: int)
    ensures
        0 <= d < 10 ==> digit_char(d) as int == '0' as int + d,
        10 <= d < 16 ==> digit_char(d) as int == 'a' as int + d - 10,
        digits > 0 ==> hex_digits(n, digits).last() == digit_char((n % 16) as int),
        digits > 0 ==> hex_digits(n, digits).drop_last() == hex_digits(
            n / 16,
            (digits - 1) as nat,
        ),
{
    if digits > 0 {
        assert(hex_digits(n, digits).drop_last() =~= hex_digits(n / 16, (digits - 1) as nat));
    }
}

} // verus!
