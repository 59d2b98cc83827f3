//! Association lists as finite maps.
//!
//! The dispatcher keeps its small tables as vectors of pairs in which no key
//! occurs twice. This module says which map such a list stands for and proves
//! what appending, removing and replacing an entry does to that map.

use vstd::prelude::*;

verus! {

/// Whether `key` is the key of an entry of `entries`.
pub open spec fn has_key<K, V>(entries: Seq<(K, V)>, key: K) -> bool {
    exists|i: int| 0 <= i < entries.len() && (#[trigger] entries[i]).0 == key
}

/// The position of an entry of `entries` whose key is `key`.
pub open spec fn position_of<K, V>(entries: Seq<(K, V)>, key: K) -> int {
    choose|i: int| 0 <= i < entries.len() && (#[trigger] entries[i]).0 == key
}

/// No two entries of `entries` have the same key.
pub open spec fn distinct_keys<K, V>(entries: Seq<(K, V)>) -> bool {
    forall|i: int, j: int|
        0 <= i < j < entries.len() ==> (#[trigger] entries[i]).0 != (#[trigger] entries[j]).0
}

/// The map from each key of `entries` to the view of its value.
pub open spec fn entries_map<K, V: View>(entries: Seq<(K, V)>) -> Map<K, V::V> {
    Map::new(
        |key: K| has_key(entries, key),
        |key: K| entries[position_of(entries, key)].1@,
    )
}

/// In a list without repeated keys, an entry is found at the position of its
/// key, and the map holds the view of its value.
pub proof fn lemma_entry_at<K, V: View>(entries: Seq<(K, V)>, at: int)
    requires
        distinct_keys(entries),
        0 <= at < entries.len(),
    ensures
        has_key(entries, entries[at].0),
        position_of(entries, entries[at].0) == at,
        entries_map(entries).dom().contains(entries[at].0),
        entries_map(entries)[entries[at].0] == entries[at].1@,
{
    let key = entries[at].0;
    assert(has_key(entries, key));
    let held = position_of(entries, key);
    if held < at {
        assert(entries[held].0 != entries[at].0);
    } else if at < held {
        assert(entries[at].0 != entries[held].0);
    }
}

/// Appending an entry with a new key inserts it into the map.
pub proof fn lemma_entries_map_push<K, V: View>(entries: Seq<(K, V)>, key: K, value: V)
    requires
        distinct_keys(entries),
        !has_key(entries, key),
    ensures
        distinct_keys(entries.push((key, value))),
        entries_map(entries.push((key, value))) == entries_map(entries).insert(key, value@),
{
    let after = entries.push((key, value));
    assert forall|i: int, j: int| 0 <= i < j < after.len() implies (#[trigger] after[i]).0 != (
    #[trigger] after[j]).0 by {
        if j < entries.len() {
            assert(entries[i].0 != entries[j].0);
        } else {
            assert(after[i] == entries[i]);
            assert(entries[i].0 != key);
        }
    }
    assert forall|k: K| #[trigger]
        entries_map(after).dom().contains(k) <==> entries_map(entries).insert(
            key,
            value@,
        ).dom().contains(k) by {
        if has_key(after, k) {
            let i = position_of(after, k);
            if i < entries.len() {
                assert(entries[i].0 == k);
            }
        }
        if has_key(entries, k) {
            let i = position_of(entries, k);
            assert(after[i].0 == k);
        }
        if k == key {
            assert(after[after.len() - 1].0 == k);
        }
    }
    assert forall|k: K| #[trigger] entries_map(after).dom().contains(k) implies entries_map(
        after,
    )[k] == entries_map(entries).insert(key, value@)[k] by {
        let i = position_of(after, k);
        lemma_entry_at(after, i);
        if k != key {
            assert(entries[i].0 == k);
            lemma_entry_at(entries, i);
        }
    }
    assert(entries_map(after) =~= entries_map(entries).insert(key, value@));
}

/// Taking an entry out removes its key from the map.
pub proof fn lemma_entries_map_remove<K, V: View>(entries: Seq<(K, V)>, at: int)
    requires
        distinct_keys(entries),
        0 <= at < entries.len(),
    ensures
        distinct_keys(entries.remove(at)),
        entries_map(entries.remove(at)) == entries_map(entries).remove(entries[at].0),
{
    let after = entries.remove(at);
    let key = entries[at].0;
    assert forall|i: int, j: int| 0 <= i < j < after.len() implies (#[trigger] after[i]).0 != (
    #[trigger] after[j]).0 by {
        let source = if i < at { i } else { i + 1 };
        let other = if j < at { j } else { j + 1 };
        assert(entries[source].0 != entries[other].0);
    }
    assert forall|k: K| #[trigger]
        entries_map(after).dom().contains(k) <==> entries_map(entries).remove(
            key,
        ).dom().contains(k) by {
        if has_key(after, k) {
            let i = position_of(after, k);
            let source = if i < at { i } else { i + 1 };
            assert(entries[source].0 == k);
            lemma_entry_at(entries, source);
            lemma_entry_at(entries, at);
        }
        if has_key(entries, k) && k != key {
            let i = position_of(entries, k);
            let target = if i < at { i } else { i - 1 };
            assert(after[target].0 == k);
        }
    }
    assert forall|k: K| #[trigger] entries_map(after).dom().contains(k) implies entries_map(
        after,
    )[k] == entries_map(entries).remove(key)[k] by {
        let i = position_of(after, k);
        lemma_entry_at(after, i);
        let source = if i < at { i } else { i + 1 };
        assert(entries[source].0 == k);
        lemma_entry_at(entries, source);
    }
    assert(entries_map(after) =~= entries_map(entries).remove(key));
}

/// Replacing the value of an entry replaces it in the map.
pub proof fn lemma_entries_map_update<K, V: View>(entries: Seq<(K, V)>, at: int, value: V)
    requires
        distinct_keys(entries),
        0 <= at < entries.len(),
    ensures
        distinct_keys(entries.update(at, (entries[at].0, value))),
        entries_map(entries.update(at, (entries[at].0, value))) == entries_map(entries).insert(
            entries[at].0,
            value@,
        ),
{
    let key = entries[at].0;
    let after = entries.update(at, (key, value));
    assert forall|i: int| 0 <= i < after.len() implies (#[trigger] after[i]).0 == entries[i].0 by {}
    assert forall|i: int, j: int| 0 <= i < j < after.len() implies (#[trigger] after[i]).0 != (
    #[trigger] after[j]).0 by {
        assert(entries[i].0 != entries[j].0);
    }
    assert forall|k: K| #[trigger]
        entries_map(after).dom().contains(k) <==> entries_map(entries).insert(
            key,
            value@,
        ).dom().contains(k) by {
        if has_key(after, k) {
            let i = position_of(after, k);
            assert(entries[i].0 == k);
        }
        if has_key(entries, k) {
            let i = position_of(entries, k);
            assert(after[i].0 == k);
        }
        if k == key {
            assert(after[at].0 == k);
        }
    }
    assert forall|k: K| #[trigger] entries_map(after).dom().contains(k) implies entries_map(
        after,
    )[k] == entries_map(entries).insert(key, value@)[k] by {
        let i = position_of(after, k);
        lemma_entry_at(after, i);
        if k != key {
            assert(entries[i].0 == k);
            lemma_entry_at(entries, i);
        } else {
            lemma_entry_at(after, at);
        }
    }
    assert(entries_map(after) =~= entries_map(entries).insert(key, value@));
}

} // verus!
