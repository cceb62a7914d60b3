//! Maps from text keys, written down as lists of entries with each key once,
//! and the values that a template is rendered with.

use vstd::prelude::*;
use vstd::string::*;

verus! {

/// A map from keys to text, as a template reads it. A key that is inserted
/// again takes the new text.
#[derive(Debug)]
pub struct Values {
    entries: Vec<(String, String)>,
}

/// Whether some entry of `entries` has the key `key`.
pub open spec fn has_key<V>(entries: Seq<(String, V)>, key: Seq<char>) -> bool {
    exists|i: int| 0 <= i < entries.len() && (#[trigger] entries[i]).0@ == key
}

/// Whether no two entries of `entries` have the same key.
pub open spec fn distinct_keys<V>(entries: Seq<(String, V)>) -> bool {
    forall|i: int, j: int|
        0 <= i < j < entries.len() ==> (#[trigger] entries[i]).0@ != (#[trigger] entries[j]).0@
}

/// The position in `entries` of an entry with the key `key`.
pub open spec fn index_of<V>(entries: Seq<(String, V)>, key: Seq<char>) -> int {
    choose|i: int| 0 <= i < entries.len() && (#[trigger] entries[i]).0@ == key
}

/// The map that `entries` write down.
pub open spec fn as_map<V: View>(entries: Seq<(String, V)>) -> Map<Seq<char>, V::V> {
    Map::new(
        |key: Seq<char>| has_key(entries, key),
        |key: Seq<char>| entries[index_of(entries, key)].1@,
    )
}

/// With distinct keys, each entry is what the map holds for its key.
pub proof fn lemma_entry_in_map<V: View>(entries: Seq<(String, V)>, i: int)
    requires
        distinct_keys(entries),
        0 <= i < entries.len(),
    ensures
        as_map(entries).contains_key(entries[i].0@),
        as_map(entries)[entries[i].0@] == entries[i].1@,
{
    let key = entries[i].0@;
    let j = index_of(entries, key);
    assert(0 <= j < entries.len() && entries[j].0@ == key);
    if j != i {
        if j < i {
            assert(entries[j].0@ != entries[i].0@);
        } else {
            assert(entries[i].0@ != entries[j].0@);
        }
    }
}

/// An entry with a new key, written at the end, is an insertion.
pub proof fn lemma_push_inserts<V: View>(entries: Seq<(String, V)>, entry: (String, V))
    requires
        distinct_keys(entries),
        !has_key(entries, entry.0@),
    ensures
        distinct_keys(entries.push(entry)),
        as_map(entries.push(entry)) == as_map(entries).insert(entry.0@, entry.1@),
{
    let after = entries.push(entry);
    assert forall|i: int, j: int| 0 <= i < j < after.len() implies (#[trigger] after[i]).0@ != (
    #[trigger] after[j]).0@ by {
        if j < entries.len() {
            assert(entries[i].0@ != entries[j].0@);
        } else {
            assert(entries[i].0@ != entry.0@);
        }
    }
    assert forall|key: Seq<char>| has_key(after, key) <==> (key == entry.0@ || has_key(
        entries,
        key,
    )) by {
        if has_key(entries, key) {
            let i = index_of(entries, key);
            assert(after[i].0@ == key);
        }
        if key == entry.0@ {
            assert(after[entries.len() as int].0@ == key);
        }
        if has_key(after, key) {
            let i = index_of(after, key);
            if i < entries.len() {
                assert(entries[i].0@ == key);
            }
        }
    }
    assert forall|key: Seq<char>| has_key(after, key) implies #[trigger] as_map(after)[key]
        == as_map(entries).insert(entry.0@, entry.1@)[key] by {
        let i = index_of(after, key);
        lemma_entry_in_map(after, i);
        if i < entries.len() {
            assert(entries[i].0@ == key);
            lemma_entry_in_map(entries, i);
        }
    }
    assert(as_map(after) =~= as_map(entries).insert(entry.0@, entry.1@));
}

/// An entry written over the one with its key is an insertion.
pub proof fn lemma_update_inserts<V: View>(
    entries: Seq<(String, V)>,
    at: int,
    entry: (String, V),
)
    requires
        distinct_keys(entries),
        0 <= at < entries.len(),
        entries[at].0@ == entry.0@,
    ensures
        distinct_keys(entries.update(at, entry)),
        as_map(entries.update(at, entry)) == as_map(entries).insert(entry.0@, entry.1@),
{
    let after = entries.update(at, entry);
    assert forall|i: int, j: int| 0 <= i < j < after.len() implies (#[trigger] after[i]).0@ != (
    #[trigger] after[j]).0@ by {
        assert(entries[i].0@ != entries[j].0@);
    }
    assert forall|key: Seq<char>| has_key(after, key) <==> (key == entry.0@ || has_key(
        entries,
        key,
    )) by {
        if has_key(entries, key) {
            let i = index_of(entries, key);
            assert(after[i].0@ == key);
        }
        if key == entry.0@ {
            assert(after[at].0@ == key);
        }
        if has_key(after, key) {
            let i = index_of(after, key);
            assert(entries[i].0@ == key);
        }
    }
    assert forall|key: Seq<char>| has_key(after, key) implies #[trigger] as_map(after)[key]
        == as_map(entries).insert(entry.0@, entry.1@)[key] by {
        let i = index_of(after, key);
        lemma_entry_in_map(after, i);
        assert(entries[i].0@ == key);
        lemma_entry_in_map(entries, i);
    }
    assert(as_map(after) =~= as_map(entries).insert(entry.0@, entry.1@));
}

impl View for Values {
    type V = Map<Seq<char>, Seq<char>>;

    closed spec fn view(&self) -> Map<Seq<char>, Seq<char>> {
        as_map(self.entries@)
    }
}

impl Values {
    #[verifier::type_invariant]
    spec fn each_key_once(self) -> bool {
        distinct_keys(self.entries@)
    }

    /// The map without any key.
    pub fn new() -> (values: Self)
        ensures
            values@ == Map::<Seq<char>, Seq<char>>::empty(),
    {
        let values = Values { entries: Vec::new() };
        assert(values@ =~= Map::<Seq<char>, Seq<char>>::empty());
        values
    }

    /// The position of the entry with the key `key`, if there is one.
    fn position(&self, key: &String) -> (at: Option<usize>)
        ensures
            match at {
                Some(i) => i < self.entries.len() && self.entries@[i as int].0@ == key@,
                None => !has_key(self.entries@, key@),
            },
    {
        let mut i: usize = 0;
        while i < self.entries.len()
            invariant
                i <= self.entries.len(),
                forall|j: int| 0 <= j < i ==> (#[trigger] self.entries@[j]).0@ != key@,
            decreases self.entries.len() - i,
        {
            if self.entries[i].0 == *key {
                return Some(i);
            }
            i += 1;
        }
        None
    }

    /// This map with `value` under `key`, in place of what `key` had.
    pub fn with(self, key: String, value: String) -> (values: Self)
        ensures
            values@ == self@.insert(key@, value@),
    {
        proof {
            use_type_invariant(&self);
        }
        let at = self.position(&key);
        let Values { mut entries } = self;
        match at {
            Some(i) => {
                proof {
                    lemma_update_inserts(entries@, i as int, (key, value));
                }
                entries.set(i, (key, value));
            },
            None => {
                proof {
                    lemma_push_inserts(entries@, (key, value));
                }
                entries.push((key, value));
            },
        }
        Values { entries }
    }

    /// The text under `key`, if the map has the key.
    pub fn get(&self, key: &str) -> (value: Option<String>)
        ensures
            value.deep_view() == if self@.contains_key(key@) {
                Some(self@[key@])
            } else {
                None
            },
    {
        proof {
            use_type_invariant(self);
        }
        let key = key.to_owned();
        match self.position(&key) {
            Some(i) => {
                proof {
                    lemma_entry_in_map(self.entries@, i as int);
                }
                Some(self.entries[i].1.clone())
            },
            None => None,
        }
    }

    /// This map with every entry of `other` written into it: where both have
    /// a key, the text of `other` stands.
    pub fn extended(self, other: &Values) -> (values: Self)
        ensures
            values@ == self@.union_prefer_right(other@),
    {
        proof {
            use_type_invariant(other);
        }
        let ghost start = self@;
        let mut values = self;
        let mut i: usize = 0;
        assert(other.entries@.take(0) =~= Seq::empty());
        assert(as_map(other.entries@.take(0)) =~= Map::<Seq<char>, Seq<char>>::empty());
        assert(values@ =~= start.union_prefer_right(as_map(other.entries@.take(0))));
        while i < other.entries.len()
            invariant
                i <= other.entries.len(),
                distinct_keys(other.entries@),
                values@ == start.union_prefer_right(as_map(other.entries@.take(i as int))),
            decreases other.entries.len() - i,
        {
            let key = other.entries[i].0.clone();
            let value = other.entries[i].1.clone();
            proof {
                let before = other.entries@.take(i as int);
                let entry = other.entries@[i as int];
                assert(other.entries@.take(i + 1) =~= before.push(entry));
                assert(distinct_keys(before)) by {
                    assert forall|a: int, b: int| 0 <= a < b < before.len() implies (
                    #[trigger] before[a]).0@ != (#[trigger] before[b]).0@ by {
                        assert(other.entries@[a].0@ != other.entries@[b].0@);
                    }
                }
                assert(!has_key(before, entry.0@)) by {
                    if has_key(before, entry.0@) {
                        let j = index_of(before, entry.0@);
                        assert(other.entries@[j].0@ != other.entries@[i as int].0@);
                    }
                }
                lemma_push_inserts(before, entry);
                assert(start.union_prefer_right(as_map(before).insert(key@, value@))
                    =~= start.union_prefer_right(as_map(before)).insert(key@, value@));
            }
            values = values.with(key, value);
            i += 1;
        }
        assert(other.entries@.take(i as int) =~= other.entries@);
        values
    }

    /// The entries of the map, each key once, in no order that means
    /// anything.
    pub fn entries(&self) -> (entries: Vec<(String, String)>)
        ensures
            distinct_keys(entries@),
            as_map(entries@) == self@,
    {
        proof {
            use_type_invariant(self);
        }
        let mut entries: Vec<(String, String)> = Vec::new();
        let mut i: usize = 0;
        while i < self.entries.len()
            invariant
                i <= self.entries.len(),
                entries.len() == i,
                forall|j: int|
                    0 <= j < i ==> (#[trigger] entries@[j]).0@ == self.entries@[j].0@ && entries@[j].1@
                        == self.entries@[j].1@,
            decreases self.entries.len() - i,
        {
            entries.push((self.entries[i].0.clone(), self.entries[i].1.clone()));
            i += 1;
        }
        proof {
            lemma_same_text_same_map(entries@, self.entries@);
        }
        entries
    }
}

/// Entries that agree in their text, place by place, write down one map.
pub proof fn lemma_same_text_same_map<V: View, W: View<V = V::V>>(
    a: Seq<(String, V)>,
    b: Seq<(String, W)>,
)
    requires
        a.len() == b.len(),
        forall|i: int|
            0 <= i < a.len() ==> (#[trigger] a[i]).0@ == b[i].0@ && a[i].1@ == b[i].1@,
        distinct_keys(b),
    ensures
        distinct_keys(a),
        as_map(a) == as_map(b),
{
    assert forall|i: int, j: int| 0 <= i < j < a.len() implies (#[trigger] a[i]).0@ != (
    #[trigger] a[j]).0@ by {
        assert(b[i].0@ != b[j].0@);
    }
    assert forall|key: Seq<char>| has_key(a, key) <==> has_key(b, key) by {
        if has_key(a, key) {
            let i = index_of(a, key);
            assert(b[i].0@ == key);
        }
        if has_key(b, key) {
            let i = index_of(b, key);
            assert(a[i].0@ == key);
        }
    }
    assert forall|key: Seq<char>| has_key(a, key) implies #[trigger] as_map(a)[key] == as_map(
        b,
    )[key] by {
        let i = index_of(a, key);
        lemma_entry_in_map(a, i);
        assert(b[i].0@ == key);
        lemma_entry_in_map(b, i);
    }
    assert(as_map(a) =~= as_map(b));
}

} // verus!
