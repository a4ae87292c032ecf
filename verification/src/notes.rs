//! Notes of Events, kept within what the API server takes.
use crate::text::{byte_len, text_bytes};
use vstd::prelude::*;
use vstd::string::{StrSliceExecFns, StringExecFns};
use vstd::utf8::encode_utf8;

verus! {

/// The most bytes that the note of an Event may have.
pub const EVENT_NOTE_MAX_BYTES: usize = 1024;

/// What marks a note that was cut short. The wording is this crate's own: any
/// mark that leaves room for a note would do.
pub const TRUNCATION_MARKER: &'static str = "... (truncated)";

/// Whether so many characters of a text fit into so many bytes.
pub open spec fn head_fits(s: Seq<char>, k: int, bytes: int) -> bool {
    0 <= k <= s.len() && byte_len(s.take(k)) <= bytes
}

/// Whether a text is a note cut short: as many characters of it as fit before
/// the mark, and the mark.
pub open spec fn cut_short(out: Seq<char>, s: Seq<char>, max: int) -> bool {
    let bytes = max - byte_len(TRUNCATION_MARKER@);
    exists|k: int| #[trigger]
        head_fits(s, k, bytes) && k < s.len() && !head_fits(s, k + 1, bytes) && out == s.take(k)
            + TRUNCATION_MARKER@
}

proof fn utf8_of_both(a: Seq<char>, b: Seq<char>)
    ensures
        encode_utf8(a + b) == encode_utf8(a) + encode_utf8(b),
    decreases a.len(),
{
    if a.len() == 0 {
        assert(a + b =~= b);
        assert(encode_utf8(a) + encode_utf8(b) =~= encode_utf8(b));
    } else {
        assert((a + b).drop_first() =~= a.drop_first() + b);
        utf8_of_both(a.drop_first(), b);
        assert(encode_utf8(a + b) =~= encode_utf8(a) + encode_utf8(b));
    }
}

/// The mark takes few bytes, so that every limit in use leaves room for it.
pub proof fn marker_fits()
    ensures
        byte_len(TRUNCATION_MARKER@) == 15,
        byte_len(TRUNCATION_MARKER@) <= EVENT_NOTE_MAX_BYTES,
{
    reveal_strlit("... (truncated)");
    assert(vstd::utf8::is_ascii_chars(TRUNCATION_MARKER@));
    vstd::utf8::is_ascii_chars_encode_utf8(TRUNCATION_MARKER@);
}

/// Keeps a note within so many bytes: one that is longer is cut between two
/// characters and marked.
pub fn truncate_for_note(s: &str, max: usize) -> (out: String)
    requires
        byte_len(TRUNCATION_MARKER@) <= max,
    ensures
        byte_len(s@) <= max ==> out@ == s@,
        byte_len(s@) > max ==> cut_short(out@, s@, max as int),
{
    if text_bytes(s) <= max {
        return s.to_owned();
    }
    let budget: usize = max - text_bytes(TRUNCATION_MARKER);
    let total: usize = s.unicode_len();
    let mut k: usize = 0;
    proof {
        assert(s@.take(0) =~= Seq::<char>::empty());
        assert(s@.take(s@.len() as int) =~= s@);
    }
    while k < total && text_bytes(s.substring_char(0, k + 1)) <= budget
        invariant
            total == s@.len(),
            k <= total,
            budget == max - byte_len(TRUNCATION_MARKER@),
            head_fits(s@, k as int, budget as int),
            byte_len(s@) > max,
            s@.take(s@.len() as int) == s@,
        decreases total - k,
    {
        proof {
            assert(s@.subrange(0, k + 1) =~= s@.take(k + 1));
        }
        k = k + 1;
    }
    proof {
        assert(k < total);
        assert(s@.subrange(0, k + 1) =~= s@.take(k + 1));
        assert(s@.subrange(0, k as int) =~= s@.take(k as int));
    }
    let mut out = s.substring_char(0, k).to_owned();
    out.append(TRUNCATION_MARKER);
    proof {
        assert(head_fits(s@, k as int, budget as int));
    }
    out
}

/// A note is never longer than the limit.
pub proof fn note_stays_within(out: Seq<char>, s: Seq<char>, max: int)
    requires
        byte_len(s) > max ==> cut_short(out, s, max),
        byte_len(s) <= max ==> out == s,
    ensures
        byte_len(out) <= max,
{
    if byte_len(s) > max {
        let bytes = max - byte_len(TRUNCATION_MARKER@);
        let k = choose|k: int| #[trigger]
            head_fits(s, k, bytes) && k < s.len() && !head_fits(s, k + 1, bytes) && out == s.take(k)
                + TRUNCATION_MARKER@;
        utf8_of_both(s.take(k), TRUNCATION_MARKER@);
    }
}

/// A note that is cut short is a beginning of what was to be said, with the
/// mark at its end, and not one character more would have fitted.
pub proof fn cut_note_is_the_longest_beginning(out: Seq<char>, s: Seq<char>, max: int)
    requires
        cut_short(out, s, max),
    ensures
        exists|k: int|
            0 <= k < s.len() && out == #[trigger] s.take(k) + TRUNCATION_MARKER@ && byte_len(
                s.take(k),
            ) + byte_len(TRUNCATION_MARKER@) <= max && byte_len(s.take(k + 1)) + byte_len(
                TRUNCATION_MARKER@,
            ) > max,
{
    let bytes = max - byte_len(TRUNCATION_MARKER@);
    let k = choose|k: int| #[trigger]
        head_fits(s, k, bytes) && k < s.len() && !head_fits(s, k + 1, bytes) && out == s.take(k)
            + TRUNCATION_MARKER@;
    assert(out == s.take(k) + TRUNCATION_MARKER@);
}

} // verus!
