//! Helpers for walking the maps of a session.

use crate::identity::Id;
use std::collections::{HashMap, HashSet};
use vstd::prelude::*;
use vstd::std_specs::iter::IteratorSpec;

verus! {

/// The keys of a map, each once. The order is the map's own and changes
/// from run to run.
pub fn map_keys<V>(map: &HashMap<Id, V>) -> (keys: Vec<Id>)
    ensures
        keys@.no_duplicates(),
        keys@.to_set() == map@.dom(),
        keys@.len() == map@.dom().len(),
{
    broadcast use vstd::std_specs::hash::group_hash_axioms;

    let mut keys: Vec<Id> = Vec::new();
    for key in it: map.keys()
        invariant
            it.seq() == map.keys().remaining(),
            keys@.len() == it.index(),
            forall|i: int| 0 <= i < it.index() ==> keys@[i] == *(#[trigger] it.seq()[i]),
    {
        keys.push(*key);
    }
    proof {
        let remaining = map.keys().remaining();
        assert(keys@ =~= remaining.unref());
        assert forall|i: int, j: int|
            0 <= i < keys@.len() && 0 <= j < keys@.len() && i != j implies keys@[i] != keys@[j] by {
            assert(remaining[i] != remaining[j]);
        }
    }
    keys
}

/// The members of a set, each once. The order is the set's own and changes
/// from run to run.
pub fn set_members(set: &HashSet<Id>) -> (members: Vec<Id>)
    ensures
        members@.no_duplicates(),
        members@.to_set() == set@,
        members@.len() == set@.len(),
{
    broadcast use vstd::std_specs::hash::group_hash_axioms;

    let mut members: Vec<Id> = Vec::new();
    for member in it: set.iter()
        invariant
            it.seq() == set.iter().remaining(),
            members@.len() == it.index(),
            forall|i: int| 0 <= i < it.index() ==> members@[i] == *(#[trigger] it.seq()[i]),
    {
        members.push(*member);
    }
    proof {
        let remaining = set.iter().remaining();
        assert(members@ =~= remaining.unref());
        assert forall|i: int, j: int|
            0 <= i < members@.len() && 0 <= j < members@.len() && i != j implies members@[i]
            != members@[j] by {
            assert(remaining[i] != remaining[j]);
        }
    }
    members
}

/// The keys that a map of flags maps to `wanted`, each once.
pub fn keys_with_flag(map: &HashMap<Id, bool>, wanted: bool) -> (keys: Vec<Id>)
    ensures
        keys@.no_duplicates(),
        forall|key: Id| keys@.contains(key) <==> (map@.contains_key(key) && map@[key] == wanted),
{
    broadcast use vstd::std_specs::hash::group_hash_axioms;

    let all = map_keys(map);
    let mut keys: Vec<Id> = Vec::new();
    let mut i: usize = 0;
    while i < all.len()
        invariant
            i <= all@.len(),
            all@.no_duplicates(),
            all@.to_set() == map@.dom(),
            keys@.no_duplicates(),
            forall|key: Id|
                keys@.contains(key) <==> (all@.subrange(0, i as int).contains(key)
                    && map@[key] == wanted),
        decreases all@.len() - i,
    {
        let key = all[i];
        let ghost before = keys@;
        let ghost prefix = all@.subrange(0, i as int);
        let ghost next = all@.subrange(0, i + 1);
        assert(all@.to_set().contains(key));
        assert(next =~= prefix.push(key));
        assert(!prefix.contains(key)) by {
            if prefix.contains(key) {
                let j = choose|j: int| 0 <= j < prefix.len() && prefix[j] == key;
                assert(all@[j] == all@[i as int]);
            }
        }
        assert forall|other: Id| next.contains(other) <==> (prefix.contains(other) || other
            == key) by {
            if next.contains(other) {
                let t = choose|t: int| 0 <= t < next.len() && next[t] == other;
                if t < prefix.len() {
                    assert(prefix[t] == other);
                }
            }
            if prefix.contains(other) {
                let t = choose|t: int| 0 <= t < prefix.len() && prefix[t] == other;
                assert(next[t] == other);
            }
            assert(next[i as int] == key);
        }
        let flagged = match map.get(&key) {
            Some(flag) => *flag == wanted,
            None => false,
        };
        if flagged {
            keys.push(key);
            assert forall|other: Id| keys@.contains(other) <==> (before.contains(other) || other
                == key) by {
                if keys@.contains(other) {
                    let j = choose|j: int| 0 <= j < keys@.len() && keys@[j] == other;
                    if j < before.len() {
                        assert(before[j] == other);
                    }
                }
                if before.contains(other) {
                    let j = choose|j: int| 0 <= j < before.len() && before[j] == other;
                    assert(keys@[j] == other);
                }
                assert(keys@[before.len() as int] == key);
            }
        }
        assert forall|other: Id| keys@.contains(other) <==> (next.contains(other) && map@[other]
            == wanted) by {
            let in_before = before.contains(other);
            let in_prefix = prefix.contains(other);
            let in_next = next.contains(other);
            let in_keys = keys@.contains(other);
            assert(in_before <==> (in_prefix && map@[other] == wanted));
        }
        i = i + 1;
    }
    proof {
        assert(all@.subrange(0, i as int) =~= all@);
        assert forall|key: Id| keys@.contains(key) <==> (map@.contains_key(key) && map@[key]
            == wanted) by {
            assert(all@.to_set().contains(key) == all@.contains(key));
        }
    }
    keys
}

} // verus!
