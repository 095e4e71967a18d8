//! Sequences of key-value pairs with pairwise distinct keys, read as maps.
//!
//! The stores of this crate keep their records in vectors. Their contracts
//! speak of maps; the lemmas here carry each edit of a sequence over to the
//! map that it stands for.

use vstd::prelude::*;

verus! {

/// Some entry of `entries` has the key `key`.
pub open spec fn has_key<K, V>(entries: Seq<(K, V)>, key: K) -> bool {
    exists|i: int| 0 <= i < entries.len() && (#[trigger] entries[i]).0 == key
}

/// A position of `key` in `entries`, where there is one.
pub open spec fn position_of<K, V>(entries: Seq<(K, V)>, key: K) -> int {
    choose|i: int| 0 <= i < entries.len() && (#[trigger] entries[i]).0 == key
}

/// No two entries share a key.
pub open spec fn distinct_keys<K, V>(entries: Seq<(K, V)>) -> bool {
    forall|i: int, j: int|
        0 <= i < j < entries.len() ==> (#[trigger] entries[i]).0 != (#[trigger] entries[j]).0
}

/// The map that sends each key of `entries` to the value beside it.
pub open spec fn as_map<K, V>(entries: Seq<(K, V)>) -> Map<K, V> {
    Map::new(|key: K| has_key(entries, key), |key: K| entries[position_of(entries, key)].1)
}

/// With distinct keys, the entry at position `i` is what the map holds for
/// its key.
pub proof fn lemma_entry_in_map<K, V>(entries: Seq<(K, V)>, i: int)
    requires
        distinct_keys(entries),
        0 <= i < entries.len(),
    ensures
        as_map(entries).dom().contains(entries[i].0),
        as_map(entries)[entries[i].0] == entries[i].1,
        position_of(entries, entries[i].0) == i,
{
    let key = entries[i].0;
    assert(has_key(entries, key));
    let j = position_of(entries, key);
    assert(0 <= j < entries.len() && entries[j].0 == key);
    if j < i {
        assert(entries[j].0 != entries[i].0);
    } else if i < j {
        assert(entries[i].0 != entries[j].0);
    }
}

/// A key that no entry has is not in the map.
pub proof fn lemma_absent_key<K, V>(entries: Seq<(K, V)>, key: K)
    requires
        forall|i: int| 0 <= i < entries.len() ==> (#[trigger] entries[i]).0 != key,
    ensures
        !as_map(entries).dom().contains(key),
{
}

/// The empty sequence stands for the empty map.
pub proof fn lemma_empty<K, V>()
    ensures
        distinct_keys(Seq::<(K, V)>::empty()),
        as_map(Seq::<(K, V)>::empty()) == Map::<K, V>::empty(),
{
    assert(as_map(Seq::<(K, V)>::empty()) =~= Map::<K, V>::empty());
}

/// Appending an entry with a new key inserts it into the map.
pub proof fn lemma_push<K, V>(entries: Seq<(K, V)>, entry: (K, V))
    requires
        distinct_keys(entries),
        !has_key(entries, entry.0),
    ensures
        distinct_keys(entries.push(entry)),
        as_map(entries.push(entry)) == as_map(entries).insert(entry.0, entry.1),
{
    let longer = entries.push(entry);
    let last = entries.len() as int;
    assert forall|i: int, j: int| 0 <= i < j < longer.len() implies (#[trigger] longer[i]).0 != (
    #[trigger] longer[j]).0 by {
        if j < last {
            assert(entries[i].0 != entries[j].0);
        } else {
            assert(longer[i] == entries[i]);
        }
    }
    assert forall|key: K| has_key(longer, key) <==> (key == entry.0 || has_key(entries, key)) by {
        if has_key(longer, key) {
            let i = position_of(longer, key);
            if i < last {
                assert(entries[i].0 == key);
            }
        }
        if key == entry.0 {
            assert(longer[last].0 == key);
        }
        if has_key(entries, key) {
            let i = position_of(entries, key);
            assert(longer[i].0 == key);
        }
    }
    assert forall|key: K| has_key(longer, key) implies #[trigger] as_map(longer)[key] == as_map(
        entries,
    ).insert(entry.0, entry.1)[key] by {
        let i = position_of(longer, key);
        lemma_entry_in_map(longer, i);
        if i < last {
            assert(longer[i] == entries[i]);
            lemma_entry_in_map(entries, i);
        }
    }
    assert(as_map(longer) =~= as_map(entries).insert(entry.0, entry.1));
}

/// Taking the entry at position `i` out removes its key from the map.
pub proof fn lemma_remove<K, V>(entries: Seq<(K, V)>, i: int)
    requires
        distinct_keys(entries),
        0 <= i < entries.len(),
    ensures
        distinct_keys(entries.remove(i)),
        as_map(entries.remove(i)) == as_map(entries).remove(entries[i].0),
{
    let shorter = entries.remove(i);
    let gone = entries[i].0;
    assert forall|a: int| 0 <= a < shorter.len() implies #[trigger] shorter[a] == entries[if a
        < i {
        a
    } else {
        a + 1
    }] by {}
    assert forall|a: int, b: int| 0 <= a < b < shorter.len() implies (#[trigger] shorter[a]).0 != (
    #[trigger] shorter[b]).0 by {
        let a0 = if a < i { a } else { a + 1 };
        let b0 = if b < i { b } else { b + 1 };
        assert(entries[a0].0 != entries[b0].0);
    }
    assert forall|key: K| has_key(shorter, key) <==> (key != gone && has_key(entries, key)) by {
        if has_key(shorter, key) {
            let a = position_of(shorter, key);
            let a0 = if a < i { a } else { a + 1 };
            assert(entries[a0].0 == key);
            if a0 < i {
                assert(entries[a0].0 != entries[i].0);
            } else {
                assert(entries[i].0 != entries[a0].0);
            }
        }
        if key != gone && has_key(entries, key) {
            let a0 = position_of(entries, key);
            let a = if a0 < i { a0 } else { a0 - 1 };
            assert(shorter[a].0 == key);
        }
    }
    assert forall|key: K| has_key(shorter, key) implies #[trigger] as_map(shorter)[key] == as_map(
        entries,
    )[key] by {
        let a = position_of(shorter, key);
        let a0 = if a < i { a } else { a + 1 };
        lemma_entry_in_map(shorter, a);
        lemma_entry_in_map(entries, a0);
    }
    assert(as_map(shorter) =~= as_map(entries).remove(gone));
}

/// Replacing the value at position `i`, key unchanged, overwrites the key's
/// value in the map.
pub proof fn lemma_update<K, V>(entries: Seq<(K, V)>, i: int, value: V)
    requires
        distinct_keys(entries),
        0 <= i < entries.len(),
    ensures
        distinct_keys(entries.update(i, (entries[i].0, value))),
        as_map(entries.update(i, (entries[i].0, value))) == as_map(entries).insert(
            entries[i].0,
            value,
        ),
{
    let key_i = entries[i].0;
    let edited = entries.update(i, (key_i, value));
    assert forall|a: int, b: int| 0 <= a < b < edited.len() implies (#[trigger] edited[a]).0 != (
    #[trigger] edited[b]).0 by {
        assert(edited[a].0 == entries[a].0);
        assert(edited[b].0 == entries[b].0);
        assert(entries[a].0 != entries[b].0);
    }
    assert forall|key: K| has_key(edited, key) <==> has_key(entries, key) by {
        if has_key(edited, key) {
            let a = position_of(edited, key);
            assert(entries[a].0 == key);
        }
        if has_key(entries, key) {
            let a = position_of(entries, key);
            assert(edited[a].0 == key);
        }
    }
    lemma_entry_in_map(entries, i);
    assert forall|key: K| has_key(edited, key) implies #[trigger] as_map(edited)[key] == as_map(
        entries,
    ).insert(key_i, value)[key] by {
        let a = position_of(edited, key);
        lemma_entry_in_map(edited, a);
        if a != i {
            assert(edited[a] == entries[a]);
            lemma_entry_in_map(entries, a);
        }
    }
    assert(as_map(edited) =~= as_map(entries).insert(key_i, value));
}

/// The map of a sequence is finite, and with distinct keys it has as many
/// keys as the sequence has entries.
pub proof fn lemma_size<K, V>(entries: Seq<(K, V)>)
    requires
        distinct_keys(entries),
    ensures
        as_map(entries).dom().finite(),
        as_map(entries).dom().len() == entries.len(),
    decreases entries.len(),
{
    if entries.len() == 0 {
        lemma_empty::<K, V>();
        assert(entries =~= Seq::<(K, V)>::empty());
    } else {
        let front = entries.drop_last();
        let last = entries.last();
        assert forall|i: int, j: int| 0 <= i < j < front.len() implies (#[trigger] front[i]).0 != (
        #[trigger] front[j]).0 by {
            assert(entries[i].0 != entries[j].0);
        }
        lemma_size(front);
        if has_key(front, last.0) {
            let i = position_of(front, last.0);
            assert(entries[i].0 != entries[entries.len() - 1].0);
        }
        lemma_push(front, last);
        assert(front.push(last) =~= entries);
        assert(!as_map(front).dom().contains(last.0));
        assert(as_map(entries).dom() =~= as_map(front).dom().insert(last.0));
    }
}

} // verus!
