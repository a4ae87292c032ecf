//! Names that the controller derives: role bindings of federated
//! ServiceAccounts, the dedicated movers, and short hashes of what is cut off.
use crate::text::{
    byte_len, clip, clipped, has_suffix, hex_digits, hex_digits_len, render_hex, strip_suffix,
    text_bytes,
};
use std::collections::hash_map::DefaultHasher;
use std::hash::Hasher;
use vstd::prelude::*;
use vstd::std_specs::hash::*;
use vstd::string::StringExecFns;
use vstd::utf8::*;

verus! {

/// The most bytes that the name of an object may have.
pub const MAX_OBJECT_NAME: usize = 253;

/// The prefix of a mover's binding to a federated ServiceAccount.
pub const WI_BINDING_PREFIX: &'static str = "kopiur-mover-wi-";

/// The prefix of a snapshot-replication mover's binding to a federated
/// ServiceAccount.
pub const SREPL_BINDING_PREFIX: &'static str = "kopiur-srepl-mover-wi-";

/// The prefix of a stream mover's binding to a federated ServiceAccount.
pub const STREAM_BINDING_PREFIX: &'static str = "kopiur-stream-mover-wi-";

/// Eight hexadecimal digits of the default hasher's digest of a text: its
/// bytes, and one byte that occurs in no text.
pub open spec fn short_digest(s: Seq<char>) -> Seq<char> {
    hex_digits(
        DefaultHasher::spec_finish(seq![encode_utf8(s), seq![0xffu8]]) as nat,
        8,
    )
}

/// Eight hexadecimal digits of a text's hash.
pub fn short_hash(s: &str) -> (hash: String)
    ensures
        hash@ == short_digest(s@),
{
    let mut h = DefaultHasher::new();
    h.write(s.as_bytes());
    let end: [u8; 1] = [0xffu8];
    h.write(&end);
    proof {
        assert(end@ =~= seq![0xffu8]);
        assert(h@ =~= seq![encode_utf8(s@), seq![0xffu8]]);
    }
    render_hex(h.finish(), 8)
}

/// A prefix and a ServiceAccount's name, cut short with a hash where the whole
/// would be too long.
pub open spec fn binding_name(prefix: Seq<char>, sa: Seq<char>) -> Seq<char> {
    let budget = MAX_OBJECT_NAME - byte_len(prefix);
    if byte_len(sa) <= budget {
        prefix + sa
    } else {
        let keep = if budget > 9 {
            (budget - 9) as nat
        } else {
            0
        };
        prefix + clipped(sa, keep) + "-"@ + short_digest(sa)
    }
}

/// A prefix and a ServiceAccount's name, cut short with a hash where the whole
/// would be too long.
pub fn wi_rolebinding_named(prefix: &str, wi_sa: &str) -> (name: String)
    requires
        byte_len(prefix@) <= MAX_OBJECT_NAME,
    ensures
        name@ == binding_name(prefix@, wi_sa@),
{
    let budget: usize = MAX_OBJECT_NAME - text_bytes(prefix);
    let mut name = prefix.to_owned();
    if text_bytes(wi_sa) <= budget {
        name.append(wi_sa);
    } else {
        let hash = short_hash(wi_sa);
        let keep: usize = if budget > 9 {
            budget - 9
        } else {
            0
        };
        name.append(clip(wi_sa, keep).as_str());
        name.append("-");
        name.append(hash.as_str());
    }
    name
}

/// The name of a mover's binding to a federated ServiceAccount.
pub fn wi_rolebinding_name(wi_sa: &str) -> (name: String)
    ensures
        name@ == binding_name(WI_BINDING_PREFIX@, wi_sa@),
{
    proof {
        prefixes_are_short();
    }
    wi_rolebinding_named(WI_BINDING_PREFIX, wi_sa)
}

/// The three prefixes are plain and fit.
pub proof fn prefixes_are_short()
    ensures
        is_ascii_chars(WI_BINDING_PREFIX@),
        is_ascii_chars(SREPL_BINDING_PREFIX@),
        is_ascii_chars(STREAM_BINDING_PREFIX@),
        byte_len(WI_BINDING_PREFIX@) == 16,
        byte_len(SREPL_BINDING_PREFIX@) == 22,
        byte_len(STREAM_BINDING_PREFIX@) == 23,
{
    reveal_strlit("kopiur-mover-wi-");
    reveal_strlit("kopiur-srepl-mover-wi-");
    reveal_strlit("kopiur-stream-mover-wi-");
    assert(is_ascii_chars(WI_BINDING_PREFIX@));
    assert(is_ascii_chars(SREPL_BINDING_PREFIX@));
    assert(is_ascii_chars(STREAM_BINDING_PREFIX@));
    is_ascii_chars_encode_utf8(WI_BINDING_PREFIX@);
    is_ascii_chars_encode_utf8(SREPL_BINDING_PREFIX@);
    is_ascii_chars_encode_utf8(STREAM_BINDING_PREFIX@);
}

/// Every character takes at least one byte.
pub proof fn chars_within_bytes(s: Seq<char>)
    ensures
        s.len() <= byte_len(s),
    decreases s.len(),
{
    if s.len() > 0 {
        chars_within_bytes(s.drop_first());
    }
}

/// A hash is eight characters of plain text.
proof fn digest_is_plain(n: nat, digits: nat)
    ensures
        is_ascii_chars(hex_digits(n, digits)),
    decreases digits,
{
    if digits > 0 {
        digest_is_plain(n / 16, (digits - 1) as nat);
    }
}

/// The name of a binding never has more than 253 characters.
pub proof fn binding_name_fits(prefix: Seq<char>, sa: Seq<char>)
    requires
        byte_len(prefix) <= MAX_OBJECT_NAME - 9,
    ensures
        binding_name(prefix, sa).len() <= MAX_OBJECT_NAME,
{
    chars_within_bytes(prefix);
    chars_within_bytes(sa);
    reveal_strlit("-");
    hex_digits_len(
        DefaultHasher::spec_finish(seq![encode_utf8(sa), seq![0xffu8]]) as nat,
        8,
    );
}

/// The name of a binding of plain names never has more than 253 bytes.
pub proof fn plain_binding_name_fits_in_bytes(prefix: Seq<char>, sa: Seq<char>)
    requires
        byte_len(prefix) <= MAX_OBJECT_NAME - 9,
        is_ascii_chars(prefix),
        is_ascii_chars(sa),
    ensures
        byte_len(binding_name(prefix, sa)) <= MAX_OBJECT_NAME,
{
    let n = DefaultHasher::spec_finish(seq![encode_utf8(sa), seq![0xffu8]]) as nat;
    digest_is_plain(n, 8);
    reveal_strlit("-");
    binding_name_fits(prefix, sa);
    let name = binding_name(prefix, sa);
    assert(is_ascii_chars(name));
    is_ascii_chars_encode_utf8(name);
}

/// The bindings of the three movers never meet, whatever ServiceAccounts they
/// name.
pub proof fn mover_bindings_never_meet(a: Seq<char>, b: Seq<char>)
    ensures
        binding_name(WI_BINDING_PREFIX@, a) != binding_name(SREPL_BINDING_PREFIX@, b),
        binding_name(WI_BINDING_PREFIX@, a) != binding_name(STREAM_BINDING_PREFIX@, b),
        binding_name(SREPL_BINDING_PREFIX@, a) != binding_name(STREAM_BINDING_PREFIX@, b),
{
    reveal_strlit("kopiur-mover-wi-");
    reveal_strlit("kopiur-srepl-mover-wi-");
    reveal_strlit("kopiur-stream-mover-wi-");
    assert(binding_name(WI_BINDING_PREFIX@, a)[7] == 'm');
    assert(binding_name(SREPL_BINDING_PREFIX@, a)[7] == 's');
    assert(binding_name(SREPL_BINDING_PREFIX@, b)[7] == 's');
    assert(binding_name(STREAM_BINDING_PREFIX@, b)[7] == 's');
    assert(binding_name(SREPL_BINDING_PREFIX@, a)[8] == 'r');
    assert(binding_name(STREAM_BINDING_PREFIX@, b)[8] == 't');
}

/// Names that fit are kept whole, so that different ServiceAccounts are bound
/// under different names.
pub proof fn short_names_stay_apart(prefix: Seq<char>, a: Seq<char>, b: Seq<char>)
    requires
        byte_len(prefix) + byte_len(a) <= MAX_OBJECT_NAME,
        byte_len(prefix) + byte_len(b) <= MAX_OBJECT_NAME,
        a != b,
    ensures
        binding_name(prefix, a) != binding_name(prefix, b),
{
    let x = prefix + a;
    let y = prefix + b;
    if x == y {
        assert(a =~= x.skip(prefix.len() as int));
        assert(b =~= y.skip(prefix.len() as int));
    }
}

/// The name of a mover that is derived from another's: its stem with one
/// ending, or the whole with another.
pub open spec fn derived_name(
    base: Seq<char>,
    stem_ending: Seq<char>,
    ending: Seq<char>,
) -> Seq<char> {
    if has_suffix(base, "-mover"@) {
        base.take(base.len() - "-mover"@.len()) + stem_ending
    } else {
        base + ending
    }
}

fn derive_name(base: &str, stem_ending: &str, ending: &str) -> (name: String)
    ensures
        name@ == derived_name(base@, stem_ending@, ending@),
{
    match strip_suffix(base, "-mover") {
        Some(stem) => {
            let mut name = stem;
            name.append(stem_ending);
            name
        },
        None => {
            let mut name = base.to_owned();
            name.append(ending);
            name
        },
    }
}

/// The name of the snapshot-replication mover, derived from the generic one's.
pub fn snapshot_replication_mover_name(base: &str) -> (name: String)
    ensures
        name@ == derived_name(base@, "-snapshot-replication-mover"@, "-snapshot-replication"@),
{
    derive_name(base, "-snapshot-replication-mover", "-snapshot-replication")
}

/// The name of the stream mover, derived from the generic one's.
pub fn stream_mover_name(base: &str) -> (name: String)
    ensures
        name@ == derived_name(base@, "-stream-mover"@, "-stream"@),
{
    derive_name(base, "-stream-mover", "-stream")
}

/// A derived mover never goes by the generic one's name, and the two derived
/// movers never share one.
pub proof fn derived_movers_stay_apart(base: Seq<char>)
    ensures
        derived_name(base, "-snapshot-replication-mover"@, "-snapshot-replication"@) != base,
        derived_name(base, "-stream-mover"@, "-stream"@) != base,
        derived_name(base, "-snapshot-replication-mover"@, "-snapshot-replication"@)
            != derived_name(base, "-stream-mover"@, "-stream"@),
{
    reveal_strlit("-mover");
    reveal_strlit("-snapshot-replication-mover");
    reveal_strlit("-snapshot-replication");
    reveal_strlit("-stream-mover");
    reveal_strlit("-stream");
    let a = derived_name(base, "-snapshot-replication-mover"@, "-snapshot-replication"@);
    let b = derived_name(base, "-stream-mover"@, "-stream"@);
    assert(a.len() != base.len());
    assert(b.len() != base.len());
    assert(a.len() != b.len());
}

/// Movers derived from whatever generic names stay apart too: a
/// snapshot-replication mover and a stream mover never share a name, and two
/// movers of one kind share theirs only where the generic ones do.
pub proof fn derived_names_never_meet(base: Seq<char>, other: Seq<char>)
    ensures
        derived_name(base, "-snapshot-replication-mover"@, "-snapshot-replication"@)
            != derived_name(other, "-stream-mover"@, "-stream"@),
        derived_name(base, "-snapshot-replication-mover"@, "-snapshot-replication"@)
            == derived_name(other, "-snapshot-replication-mover"@, "-snapshot-replication"@)
            ==> base == other,
        derived_name(base, "-stream-mover"@, "-stream"@) == derived_name(
            other,
            "-stream-mover"@,
            "-stream"@,
        ) ==> base == other,
{
    reveal_strlit("-mover");
    reveal_strlit("-snapshot-replication-mover");
    reveal_strlit("-snapshot-replication");
    reveal_strlit("-stream-mover");
    reveal_strlit("-stream");
    let a = derived_name(base, "-snapshot-replication-mover"@, "-snapshot-replication"@);
    let b = derived_name(other, "-stream-mover"@, "-stream"@);
    if a == b {
        assert(a.last() == b.last());
        assert(a[a.len() - 7] == b[b.len() - 7]);
    }
    same_derived_name(base, other, "-snapshot-replication-mover"@, "-snapshot-replication"@);
    same_derived_name(base, other, "-stream-mover"@, "-stream"@);
}

/// Where the two endings differ in their last character, a derived name tells
/// which name it was derived from.
proof fn same_derived_name(
    base: Seq<char>,
    other: Seq<char>,
    stem_ending: Seq<char>,
    ending: Seq<char>,
)
    requires
        stem_ending.len() > 0,
        ending.len() > 0,
        stem_ending.last() != ending.last(),
    ensures
        derived_name(base, stem_ending, ending) == derived_name(other, stem_ending, ending)
            ==> base == other,
{
    let a = derived_name(base, stem_ending, ending);
    let b = derived_name(other, stem_ending, ending);
    if a == b {
        assert(a.last() == b.last());
        if has_suffix(base, "-mover"@) {
            assert(a.last() == stem_ending.last());
            assert(has_suffix(other, "-mover"@));
            let n = a.len() - stem_ending.len();
            assert(base.take(base.len() - "-mover"@.len()) =~= a.take(n));
            assert(other.take(other.len() - "-mover"@.len()) =~= b.take(n));
            assert(base =~= base.take(base.len() - "-mover"@.len()) + "-mover"@);
            assert(other =~= other.take(other.len() - "-mover"@.len()) + "-mover"@);
        } else {
            assert(a.last() == ending.last());
            assert(!has_suffix(other, "-mover"@));
            let n = a.len() - ending.len();
            assert(base =~= a.take(n));
            assert(other =~= b.take(n));
        }
    }
}

/// A binding is named by its prefix and its ServiceAccount, whole where that
/// fits; else by the prefix, a beginning of the ServiceAccount's name, and the
/// digest of all of it.
pub proof fn binding_is_named_after_its_account(prefix: Seq<char>, sa: Seq<char>)
    ensures
        ({
            let name = binding_name(prefix, sa);
            &&& name.len() >= prefix.len() && name.take(prefix.len() as int) == prefix
            &&& byte_len(prefix) + byte_len(sa) <= 253 ==> name == prefix + sa
            &&& byte_len(prefix) + byte_len(sa) > 253 ==> {
                &&& has_suffix(name, "-"@ + short_digest(sa))
                &&& exists|k: int| #[trigger]
                    is_beginning(sa, k) && name == prefix + sa.take(k) + "-"@ + short_digest(sa)
            }
        }),
{
    let name = binding_name(prefix, sa);
    assert(name.take(prefix.len() as int) =~= prefix);
    if byte_len(prefix) + byte_len(sa) > 253 {
        let budget = MAX_OBJECT_NAME - byte_len(prefix);
        let keep: nat = if budget > 9 {
            (budget - 9) as nat
        } else {
            0
        };
        let k: int = if sa.len() <= keep {
            sa.len() as int
        } else {
            keep as int
        };
        assert(sa.take(sa.len() as int) =~= sa);
        assert(is_beginning(sa, k));
        assert(name == prefix + sa.take(k) + "-"@ + short_digest(sa));
        let end = "-"@ + short_digest(sa);
        assert(name =~= (prefix + sa.take(k)) + end);
        assert(name.skip(name.len() - end.len()) =~= end);
    }
}

/// Whether so many characters are a beginning of a text.
pub open spec fn is_beginning(s: Seq<char>, k: int) -> bool {
    0 <= k <= s.len()
}

/// A digest has eight characters.
pub proof fn digest_has_eight_characters(s: Seq<char>)
    ensures
        short_digest(s).len() == 8,
{
    hex_digits_len(
        DefaultHasher::spec_finish(seq![encode_utf8(s), seq![0xffu8]]) as nat,
        8,
    );
}

/// A mover of its own is named after the generic one: a name that ends in
/// `-mover` keeps that ending, with the part that it plays before it.
pub proof fn derived_name_keeps_the_stem(stem: Seq<char>, base: Seq<char>)
    ensures
        derived_name(stem + "-mover"@, "-stream-mover"@, "-stream"@) == stem + "-stream-mover"@,
        derived_name(
            stem + "-mover"@,
            "-snapshot-replication-mover"@,
            "-snapshot-replication"@,
        ) == stem + "-snapshot-replication-mover"@,
        !has_suffix(base, "-mover"@) ==> derived_name(base, "-stream-mover"@, "-stream"@) == base
            + "-stream"@,
        !has_suffix(base, "-mover"@) ==> derived_name(
            base,
            "-snapshot-replication-mover"@,
            "-snapshot-replication"@,
        ) == base + "-snapshot-replication"@,
{
    let generic = stem + "-mover"@;
    assert(generic.skip(generic.len() - "-mover"@.len()) =~= "-mover"@);
    assert(generic.take(generic.len() - "-mover"@.len()) =~= stem);
}

} // verus!
