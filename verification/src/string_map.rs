//! A small map keyed by text.

use vstd::prelude::*;

verus! {

/// A map from strings to values, kept as a list of entries with no key
/// twice. It is meant for few entries: a lookup walks the list.
#[derive(Debug)]
pub struct StringMap<V> {
    entries: Vec<(String, V)>,
}

/// Whether no key occurs twice in a list of entries.
pub open spec fn spec_keys_unique<V>(entries: Seq<(String, V)>) -> bool {
    forall|i: int, j: int|
        0 <= i < entries.len() && 0 <= j < entries.len() && i != j ==> (#[trigger] entries[i]).0@
            != (#[trigger] entries[j]).0@
}

/// Whether an entry of the list has the key.
pub open spec fn spec_has_key<V>(entries: Seq<(String, V)>, key: Seq<char>) -> bool {
    exists|i: int| 0 <= i < entries.len() && (#[trigger] entries[i]).0@ == key
}

/// The place of the key in the list.
pub open spec fn spec_key_index<V>(entries: Seq<(String, V)>, key: Seq<char>) -> int {
    choose|i: int| 0 <= i < entries.len() && (#[trigger] entries[i]).0@ == key
}

/// The map that a list of entries stands for.
pub open spec fn spec_entries_map<V>(entries: Seq<(String, V)>) -> Map<Seq<char>, V> {
    Map::new(
        |key: Seq<char>| spec_has_key(entries, key),
        |key: Seq<char>| entries[spec_key_index(entries, key)].1,
    )
}

/// The entry at a place is what the map holds for its key.
pub proof fn lemma_entry_in_map<V>(entries: Seq<(String, V)>, i: int)
    requires
        spec_keys_unique(entries),
        0 <= i < entries.len(),
    ensures
        spec_entries_map(entries).contains_key(entries[i].0@),
        spec_entries_map(entries)[entries[i].0@] == entries[i].1,
{
    let key = entries[i].0@;
    assert(spec_has_key(entries, key));
    let j = spec_key_index(entries, key);
    assert(entries[j].0@ == entries[i].0@);
}

/// Adding an entry under a new key adds it to the map.
pub proof fn lemma_push_entry<V>(entries: Seq<(String, V)>, key: String, value: V)
    requires
        spec_keys_unique(entries),
        !spec_has_key(entries, key@),
    ensures
        spec_keys_unique(entries.push((key, value))),
        spec_entries_map(entries.push((key, value))) == spec_entries_map(entries).insert(
            key@,
            value,
        ),
{
    let after = entries.push((key, value));
    assert forall|i: int, j: int|
        0 <= i < after.len() && 0 <= j < after.len() && i != j implies (#[trigger] after[i]).0@
        != (#[trigger] after[j]).0@ by {
        if i < entries.len() {
            assert(after[i] == entries[i]);
        }
        if j < entries.len() {
            assert(after[j] == entries[j]);
        }
    }
    assert forall|other: Seq<char>| spec_has_key(after, other) <==> (spec_has_key(entries, other)
        || other == key@) by {
        if spec_has_key(after, other) {
            let i = spec_key_index(after, other);
            if i < entries.len() {
                assert(entries[i].0@ == other);
            }
        }
        if spec_has_key(entries, other) {
            let i = spec_key_index(entries, other);
            assert(after[i].0@ == other);
        }
        assert(after[entries.len() as int].0@ == key@);
    }
    assert forall|other: Seq<char>| spec_has_key(after, other) implies spec_entries_map(
        after,
    )[other] == spec_entries_map(entries).insert(key@, value)[other] by {
        let i = spec_key_index(after, other);
        lemma_entry_in_map(after, i);
        if i < entries.len() {
            assert(after[i] == entries[i]);
            lemma_entry_in_map(entries, i);
        }
    }
    assert(spec_entries_map(after) =~= spec_entries_map(entries).insert(key@, value));
}

/// Taking an entry out takes its key out of the map.
pub proof fn lemma_remove_entry<V>(entries: Seq<(String, V)>, at: int)
    requires
        spec_keys_unique(entries),
        0 <= at < entries.len(),
    ensures
        spec_keys_unique(entries.remove(at)),
        !spec_has_key(entries.remove(at), entries[at].0@),
        spec_entries_map(entries.remove(at)) == spec_entries_map(entries).remove(entries[at].0@),
{
    let after = entries.remove(at);
    let gone = entries[at].0@;
    assert forall|i: int| 0 <= i < after.len() implies #[trigger] after[i] == entries[if i < at {
        i
    } else {
        i + 1
    }] by {}
    assert forall|i: int, j: int|
        0 <= i < after.len() && 0 <= j < after.len() && i != j implies (#[trigger] after[i]).0@
        != (#[trigger] after[j]).0@ by {
        let a = if i < at { i } else { i + 1 };
        let b = if j < at { j } else { j + 1 };
        assert(after[i] == entries[a]);
        assert(after[j] == entries[b]);
    }
    assert forall|other: Seq<char>| spec_has_key(after, other) <==> (spec_has_key(entries, other)
        && other != gone) by {
        if spec_has_key(after, other) {
            let i = spec_key_index(after, other);
            let a = if i < at { i } else { i + 1 };
            assert(after[i] == entries[a]);
            assert(entries[a].0@ == other);
        }
        if spec_has_key(entries, other) && other != gone {
            let a = spec_key_index(entries, other);
            let i = if a < at { a } else { a - 1 };
            assert(after[i] == entries[a]);
            assert(after[i].0@ == other);
        }
    }
    assert forall|other: Seq<char>| spec_has_key(after, other) implies spec_entries_map(
        after,
    )[other] == spec_entries_map(entries)[other] by {
        let i = spec_key_index(after, other);
        let a = if i < at { i } else { i + 1 };
        assert(after[i] == entries[a]);
        lemma_entry_in_map(after, i);
        lemma_entry_in_map(entries, a);
    }
    assert(spec_entries_map(after) =~= spec_entries_map(entries).remove(gone));
}

/// A list of entries with no key twice stands for a finite map with as
/// many keys as the list has entries.
pub proof fn lemma_entries_finite<V>(entries: Seq<(String, V)>)
    requires
        spec_keys_unique(entries),
    ensures
        spec_entries_map(entries).dom().finite(),
        spec_entries_map(entries).dom().len() == entries.len(),
    decreases entries.len(),
{
    if entries.len() == 0 {
        assert(spec_entries_map(entries).dom() =~= Set::<Seq<char>>::empty());
    } else {
        let last = (entries.len() - 1) as int;
        lemma_remove_entry(entries, last);
        lemma_entries_finite(entries.remove(last));
        lemma_entry_in_map(entries, last);
        assert(spec_entries_map(entries).dom() =~= spec_entries_map(
            entries.remove(last),
        ).dom().insert(entries[last].0@));
    }
}

impl<V> View for StringMap<V> {
    type V = Map<Seq<char>, V>;

    closed spec fn view(&self) -> Map<Seq<char>, V> {
        spec_entries_map(self.entries@)
    }
}

impl<V> StringMap<V> {
    /// No key occurs twice.
    pub closed spec fn wf(&self) -> bool {
        spec_keys_unique(self.entries@)
    }

    /// An empty map.
    pub fn new() -> (map: StringMap<V>)
        ensures
            map.wf(),
            map@ == Map::<Seq<char>, V>::empty(),
    {
        let map = StringMap { entries: Vec::new() };
        assert(map@ =~= Map::<Seq<char>, V>::empty());
        map
    }

    /// The map has finitely many keys, as many as `len` says.
    pub proof fn lemma_finite(&self)
        requires
            self.wf(),
        ensures
            self@.dom().finite(),
            self@.dom().len() == self.spec_len(),
    {
        lemma_entries_finite(self.entries@);
    }

    /// How many keys the map has.
    pub closed spec fn spec_len(&self) -> nat {
        self.entries@.len()
    }

    /// How many keys the map has.
    pub fn len(&self) -> (len: usize)
        ensures
            len == self.spec_len(),
    {
        self.entries.len()
    }

    /// Whether the map has no keys.
    pub fn is_empty(&self) -> (empty: bool)
        requires
            self.wf(),
        ensures
            empty == (self@ == Map::<Seq<char>, V>::empty()),
    {
        let empty = self.entries.len() == 0;
        proof {
            if empty {
                assert(self@ =~= Map::<Seq<char>, V>::empty());
            } else {
                lemma_entry_in_map(self.entries@, 0);
            }
        }
        empty
    }

    /// The place of `key` in the list.
    fn find(&self, key: &String) -> (at: Option<usize>)
        ensures
            at is Some ==> at->0 < self.entries@.len() && self.entries@[at->0 as int].0@ == key@,
            at is None ==> !spec_has_key(self.entries@, key@),
    {
        let mut i: usize = 0;
        while i < self.entries.len()
            invariant
                i <= self.entries@.len(),
                forall|j: int| 0 <= j < i ==> (#[trigger] self.entries@[j]).0@ != key@,
            decreases self.entries@.len() - i,
        {
            if self.entries[i].0 == *key {
                return Some(i);
            }
            i = i + 1;
        }
        None
    }

    /// Whether the map has the key.
    pub fn contains_key(&self, key: &String) -> (has: bool)
        requires
            self.wf(),
        ensures
            has == self@.contains_key(key@),
    {
        self.find(key).is_some()
    }

    /// The value under the key.
    pub fn get(&self, key: &String) -> (value: Option<&V>)
        requires
            self.wf(),
        ensures
            value is Some == self@.contains_key(key@),
            value is Some ==> *value->0 == self@[key@],
    {
        match self.find(key) {
            Some(at) => {
                proof {
                    lemma_entry_in_map(self.entries@, at as int);
                }
                Some(&self.entries[at].1)
            },
            None => None,
        }
    }

    /// Puts a value under the key, in place of what was there.
    pub fn insert(&mut self, key: String, value: V)
        requires
            old(self).wf(),
        ensures
            final(self).wf(),
            final(self)@ == old(self)@.insert(key@, value),
    {
        match self.find(&key) {
            Some(at) => {
                proof {
                    lemma_remove_entry(self.entries@, at as int);
                    lemma_push_entry(self.entries@.remove(at as int), key, value);
                }
                self.entries.remove(at);
                self.entries.push((key, value));
                assert(self@ =~= old(self)@.insert(key@, value));
            },
            None => {
                proof {
                    lemma_push_entry(self.entries@, key, value);
                }
                self.entries.push((key, value));
            },
        }
    }

    /// Takes the key out of the map, and hands back what was under it.
    pub fn remove(&mut self, key: &String) -> (value: Option<V>)
        requires
            old(self).wf(),
        ensures
            final(self).wf(),
            final(self)@ == old(self)@.remove(key@),
            value is Some == old(self)@.contains_key(key@),
            value is Some ==> value->0 == old(self)@[key@],
    {
        match self.find(key) {
            Some(at) => {
                proof {
                    lemma_remove_entry(self.entries@, at as int);
                    lemma_entry_in_map(self.entries@, at as int);
                }
                let entry = self.entries.remove(at);
                Some(entry.1)
            },
            None => {
                assert(self@ =~= old(self)@.remove(key@));
                None
            },
        }
    }
}

} // verus!
