//! Label sets: unique keys, walked in key order.
use crate::text::{
    bytes_before_irreflexive, bytes_before_total, bytes_before_transitive, opt_text, precedes,
    same_text, text_before,
};
use vstd::prelude::*;
use vstd::utf8::{encode_utf8, encode_utf8_decode_utf8};

verus! {

/// The key of the label that marks an object as managed.
pub const MANAGED_BY_LABEL: &'static str = "app.kubernetes.io/managed-by";

/// The value of the label that marks an object as managed.
pub const MANAGED_BY_VALUE: &'static str = "kopiur";

/// The key of the label that names what an object is for.
pub const COMPONENT_LABEL: &'static str = "app.kubernetes.io/component";

/// A set of labels, in the order of their keys.
pub struct Labels {
    entries: Vec<(String, String)>,
}

/// What a list of entries maps each key to.
pub open spec fn entry_map(entries: Seq<(String, String)>) -> Map<Seq<char>, Seq<char>>
    decreases entries.len(),
{
    if entries.len() == 0 {
        Map::empty()
    } else {
        entry_map(entries.drop_last()).insert(entries.last().0@, entries.last().1@)
    }
}

/// Whether the keys of a list of entries strictly ascend.
pub open spec fn ascending(entries: Seq<(String, String)>) -> bool {
    forall|i: int, j: int|
        0 <= i < j < entries.len() ==> text_before(
            (#[trigger] entries[i]).0@,
            (#[trigger] entries[j]).0@,
        )
}

impl Labels {
    /// Keys strictly ascend, so that no key occurs twice.
    pub closed spec fn wf(self) -> bool {
        ascending(self.entries@)
    }
}

impl View for Labels {
    type V = Map<Seq<char>, Seq<char>>;

    closed spec fn view(&self) -> Map<Seq<char>, Seq<char>> {
        entry_map(self.entries@)
    }
}

/// Texts of equal bytes are equal.
proof fn bytes_tell_texts_apart(a: Seq<char>, b: Seq<char>)
    requires
        encode_utf8(a) == encode_utf8(b),
    ensures
        a == b,
{
    encode_utf8_decode_utf8(a);
    encode_utf8_decode_utf8(b);
}

/// A key is mapped exactly where an entry holds it.
proof fn entry_map_domain(entries: Seq<(String, String)>, k: Seq<char>)
    ensures
        entry_map(entries).dom().contains(k) <==> exists|i: int|
            0 <= i < entries.len() && (#[trigger] entries[i]).0@ == k,
    decreases entries.len(),
{
    if entries.len() > 0 {
        let front = entries.drop_last();
        entry_map_domain(front, k);
        if exists|i: int| 0 <= i < front.len() && (#[trigger] front[i]).0@ == k {
            let i = choose|i: int| 0 <= i < front.len() && (#[trigger] front[i]).0@ == k;
            assert(entries[i].0@ == k);
        }
        if exists|i: int| 0 <= i < entries.len() && (#[trigger] entries[i]).0@ == k {
            let i = choose|i: int| 0 <= i < entries.len() && (#[trigger] entries[i]).0@ == k;
            if i < front.len() {
                assert(front[i].0@ == k);
            }
        }
        if entries.last().0@ == k {
            assert(entries[entries.len() - 1].0@ == k);
        }
    }
}

/// In an ascending list each entry's value is what its key maps to.
proof fn entry_map_value(entries: Seq<(String, String)>, i: int)
    requires
        ascending(entries),
        0 <= i < entries.len(),
    ensures
        entry_map(entries).dom().contains(entries[i].0@),
        entry_map(entries)[entries[i].0@] == entries[i].1@,
    decreases entries.len(),
{
    let front = entries.drop_last();
    if i < front.len() {
        assert(ascending(front)) by {
            assert forall|a: int, b: int| 0 <= a < b < front.len() implies text_before(
                (#[trigger] front[a]).0@,
                (#[trigger] front[b]).0@,
            ) by {
                assert(text_before(entries[a].0@, entries[b].0@));
            }
        }
        entry_map_value(front, i);
        assert(front[i] == entries[i]);
        assert(text_before(entries[i].0@, entries[entries.len() - 1].0@));
        bytes_before_irreflexive(encode_utf8(entries[i].0@));
    }
}

/// Putting an entry anywhere into a list that does not hold its key adds it to
/// the map.
proof fn entry_map_insert(entries: Seq<(String, String)>, i: int, e: (String, String))
    requires
        0 <= i <= entries.len(),
        forall|j: int| 0 <= j < entries.len() ==> (#[trigger] entries[j]).0@ != e.0@,
    ensures
        entry_map(entries.insert(i, e)) == entry_map(entries).insert(e.0@, e.1@),
    decreases entries.len(),
{
    let grown = entries.insert(i, e);
    if i == entries.len() {
        assert(grown.drop_last() =~= entries);
    } else {
        let front = entries.drop_last();
        assert(grown.drop_last() =~= front.insert(i, e));
        assert(grown.last() == entries.last());
        assert forall|j: int| 0 <= j < front.len() implies (#[trigger] front[j]).0@ != e.0@ by {
            assert(entries[j].0@ != e.0@);
        }
        entry_map_insert(front, i, e);
        assert(entries[entries.len() - 1].0@ != e.0@);
        assert(entry_map(grown) =~= entry_map(entries).insert(e.0@, e.1@));
    }
}

/// Replacing the value of an entry of an ascending list changes what its key
/// maps to, and nothing else.
proof fn entry_map_update(entries: Seq<(String, String)>, i: int, e: (String, String))
    requires
        ascending(entries),
        0 <= i < entries.len(),
        entries[i].0@ == e.0@,
    ensures
        entry_map(entries.update(i, e)) == entry_map(entries).insert(e.0@, e.1@),
    decreases entries.len(),
{
    let changed = entries.update(i, e);
    let front = entries.drop_last();
    if i == front.len() {
        assert(changed.drop_last() =~= front);
        assert(entry_map(changed) =~= entry_map(entries).insert(e.0@, e.1@));
    } else {
        assert(changed.drop_last() =~= front.update(i, e));
        assert(changed.last() == entries.last());
        assert(ascending(front)) by {
            assert forall|a: int, b: int| 0 <= a < b < front.len() implies text_before(
                (#[trigger] front[a]).0@,
                (#[trigger] front[b]).0@,
            ) by {
                assert(text_before(entries[a].0@, entries[b].0@));
            }
        }
        entry_map_update(front, i, e);
        assert(text_before(entries[i].0@, entries[entries.len() - 1].0@));
        bytes_before_irreflexive(encode_utf8(entries[i].0@));
        assert(entry_map(changed) =~= entry_map(entries).insert(e.0@, e.1@));
    }
}

impl Labels {
    /// An empty set.
    pub fn new() -> (labels: Self)
        ensures
            labels.wf(),
            labels@ == Map::<Seq<char>, Seq<char>>::empty(),
    {
        Labels { entries: Vec::new() }
    }

    /// Whether the set is empty.
    pub fn is_empty(&self) -> (empty: bool)
        requires
            self.wf(),
        ensures
            empty <==> self@ == Map::<Seq<char>, Seq<char>>::empty(),
    {
        proof {
            if self.entries@.len() > 0 {
                entry_map_value(self.entries@, 0);
                assert(self@.dom().contains(self.entries@[0].0@));
                assert(!Map::<Seq<char>, Seq<char>>::empty().dom().contains(self.entries@[0].0@));
            }
        }
        self.entries.len() == 0
    }

    /// The value of a key.
    pub fn get(&self, key: &str) -> (value: Option<String>)
        requires
            self.wf(),
        ensures
            opt_text(value) == (if self@.dom().contains(key@) {
                Some(self@[key@])
            } else {
                None
            }),
    {
        let mut i: usize = 0;
        while i < self.entries.len()
            invariant
                self.wf(),
                i <= self.entries.len(),
                forall|j: int| 0 <= j < i ==> (#[trigger] self.entries@[j]).0@ != key@,
            decreases self.entries.len() - i,
        {
            if same_text(self.entries[i].0.as_str(), key) {
                proof {
                    entry_map_value(self.entries@, i as int);
                }
                return Some(self.entries[i].1.clone());
            }
            i = i + 1;
        }
        proof {
            entry_map_domain(self.entries@, key@);
        }
        None
    }

    /// Sets the value of a key.
    pub fn insert(&mut self, key: &str, value: &str)
        requires
            old(self).wf(),
        ensures
            final(self).wf(),
            final(self)@ == old(self)@.insert(key@, value@),
    {
        let ghost before = self.entries@;
        let mut i: usize = 0;
        while i < self.entries.len() && precedes(self.entries[i].0.as_str(), key)
            invariant
                self.entries@ == before,
                ascending(before),
                i <= before.len(),
                forall|j: int| 0 <= j < i ==> text_before((#[trigger] before[j]).0@, key@),
            decreases before.len() - i,
        {
            i = i + 1;
        }
        let e = (key.to_owned(), value.to_owned());
        let ghost ge = e;
        if i < self.entries.len() && same_text(self.entries[i].0.as_str(), key) {
            proof {
                entry_map_update(before, i as int, ge);
            }
            self.entries.set(i, e);
            proof {
                let after = before.update(i as int, ge);
                assert(self.entries@ == after);
                assert forall|a: int, b: int| 0 <= a < b < after.len() implies text_before(
                    (#[trigger] after[a]).0@,
                    (#[trigger] after[b]).0@,
                ) by {
                    assert(text_before(before[a].0@, before[b].0@));
                }
            }
        } else {
            proof {
                assert forall|j: int| i <= j < before.len() implies text_before(
                    key@,
                    (#[trigger] before[j]).0@,
                ) by {
                    bytes_before_total(encode_utf8(before[i as int].0@), encode_utf8(key@));
                    if encode_utf8(before[i as int].0@) == encode_utf8(key@) {
                        bytes_tell_texts_apart(before[i as int].0@, key@);
                    }
                    if i < j {
                        assert(text_before(before[i as int].0@, before[j].0@));
                        bytes_before_transitive(
                            encode_utf8(key@),
                            encode_utf8(before[i as int].0@),
                            encode_utf8(before[j].0@),
                        );
                    }
                }
                assert forall|j: int| 0 <= j < before.len() implies (#[trigger] before[j]).0@
                    != key@ by {
                    bytes_before_irreflexive(encode_utf8(key@));
                    if j < i {
                        assert(text_before(before[j].0@, key@));
                    } else {
                        assert(text_before(key@, before[j].0@));
                    }
                }
                entry_map_insert(before, i as int, ge);
            }
            self.entries.insert(i, e);
            proof {
                let after = before.insert(i as int, ge);
                assert(self.entries@ == after);
                assert forall|a: int, b: int| 0 <= a < b < after.len() implies text_before(
                    (#[trigger] after[a]).0@,
                    (#[trigger] after[b]).0@,
                ) by {
                    let a0 = if a < i { a } else { a - 1 };
                    let b0 = if b < i { b } else { b - 1 };
                    if a != i && b != i {
                        assert(text_before(before[a0].0@, before[b0].0@));
                    }
                }
            }
        }
    }

    /// The entries, in key order.
    pub fn to_list(&self) -> (list: Vec<(String, String)>)
        requires
            self.wf(),
        ensures
            ascending(list@),
            entry_map(list@) == self@,
    {
        let mut list: Vec<(String, String)> = Vec::new();
        let mut i: usize = 0;
        while i < self.entries.len()
            invariant
                i <= self.entries.len(),
                list@ == self.entries@.take(i as int),
            decreases self.entries.len() - i,
        {
            list.push((self.entries[i].0.clone(), self.entries[i].1.clone()));
            proof {
                assert(self.entries@.take(i + 1) =~= self.entries@.take(i as int).push(
                    self.entries@[i as int],
                ));
            }
            i = i + 1;
        }
        proof {
            assert(self.entries@.take(self.entries@.len() as int) =~= self.entries@);
        }
        list
    }
}

/// The labels of an object that belongs to another: those it asks for, and
/// always the mark of being managed.
pub open spec fn child_label_map(extra: Seq<(String, String)>) -> Map<Seq<char>, Seq<char>> {
    entry_map(extra).insert(MANAGED_BY_LABEL@, MANAGED_BY_VALUE@)
}

/// The labels of an object that belongs to another.
pub fn child_labels(extra: &Vec<(String, String)>) -> (labels: Labels)
    ensures
        labels.wf(),
        labels@ == child_label_map(extra@),
{
    let mut labels = Labels::new();
    let mut i: usize = 0;
    while i < extra.len()
        invariant
            i <= extra.len(),
            labels.wf(),
            labels@ == entry_map(extra@.take(i as int)),
        decreases extra.len() - i,
    {
        proof {
            assert(extra@.take(i + 1).drop_last() =~= extra@.take(i as int));
        }
        labels.insert(extra[i].0.as_str(), extra[i].1.as_str());
        i = i + 1;
    }
    proof {
        assert(extra@.take(extra@.len() as int) =~= extra@);
    }
    labels.insert(MANAGED_BY_LABEL, MANAGED_BY_VALUE);
    labels
}

/// A reference to the object that owns another.
pub struct OwnerReference {
    pub uid: String,
    pub controller: Option<bool>,
}

/// What names and marks an object.
pub struct ObjectMeta {
    pub name: String,
    pub namespace: String,
    pub labels: Option<Labels>,
    pub owner: Option<OwnerReference>,
}

/// The metadata of an object that belongs to another. An empty set of labels
/// is left out.
pub fn child_meta(
    name: &str,
    namespace: &str,
    labels: Labels,
    owner: Option<OwnerReference>,
) -> (meta: ObjectMeta)
    requires
        labels.wf(),
    ensures
        meta.name@ == name@,
        meta.namespace@ == namespace@,
        meta.labels is None <==> labels@ == Map::<Seq<char>, Seq<char>>::empty(),
        meta.labels is Some ==> meta.labels->0 == labels,
        meta.owner == owner,
{
    let kept = if labels.is_empty() {
        None
    } else {
        Some(labels)
    };
    ObjectMeta { name: name.to_owned(), namespace: namespace.to_owned(), labels: kept, owner }
}

/// An object that belongs to another always bears the mark of being managed,
/// whatever it asks for, and otherwise exactly the labels that it asks for.
pub proof fn child_is_always_marked(extra: Seq<(String, String)>, key: Seq<char>)
    ensures
        child_label_map(extra).dom().contains(MANAGED_BY_LABEL@),
        child_label_map(extra)[MANAGED_BY_LABEL@] == MANAGED_BY_VALUE@,
        key != MANAGED_BY_LABEL@ ==> (child_label_map(extra).dom().contains(key) <==> entry_map(
            extra,
        ).dom().contains(key)),
        key != MANAGED_BY_LABEL@ && entry_map(extra).dom().contains(key) ==> child_label_map(
            extra,
        )[key] == entry_map(extra)[key],
{
}

/// Of entries under one key the last stands, and an entry touches no other key.
pub proof fn last_entry_of_a_key_stands(
    entries: Seq<(String, String)>,
    entry: (String, String),
    key: Seq<char>,
)
    ensures
        entry_map(Seq::empty()) =~= Map::<Seq<char>, Seq<char>>::empty(),
        entry_map(entries.push(entry)).dom().contains(entry.0@),
        entry_map(entries.push(entry))[entry.0@] == entry.1@,
        key != entry.0@ ==> (entry_map(entries.push(entry)).dom().contains(key) <==> entry_map(
            entries,
        ).dom().contains(key)),
        key != entry.0@ && entry_map(entries).dom().contains(key) ==> entry_map(
            entries.push(entry),
        )[key] == entry_map(entries)[key],
{
    assert(entries.push(entry).drop_last() =~= entries);
}

} // verus!
