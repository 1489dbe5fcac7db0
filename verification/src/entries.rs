//! Lists of entries by key in which no key stands twice: the maps of a
//! request, kept in the order in which they were filled.

use crate::types::{Address, H256};
use vstd::prelude::*;

verus! {

/// A key that can be compared.
pub trait Key: Sized {
    /// Tells whether two keys are the same.
    fn same(&self, other: &Self) -> (same: bool)
        ensures
            same == (*self == *other),
    ;
}

impl Key for Address {
    fn same(&self, other: &Self) -> (same: bool) {
        let mut i: usize = 0;
        while i < 20
            invariant
                i <= 20,
                forall|j: int| 0 <= j < i ==> self.0@[j] == other.0@[j],
            decreases 20 - i,
        {
            if self.0[i] != other.0[i] {
                return false;
            }
            i += 1;
        }
        assert(self.0 =~= other.0);
        true
    }
}

impl Key for H256 {
    fn same(&self, other: &Self) -> (same: bool) {
        let mut i: usize = 0;
        while i < 32
            invariant
                i <= 32,
                forall|j: int| 0 <= j < i ==> self.0@[j] == other.0@[j],
            decreases 32 - i,
        {
            if self.0[i] != other.0[i] {
                return false;
            }
            i += 1;
        }
        assert(self.0 =~= other.0);
        true
    }
}

/// No key stands twice in `entries`.
pub open spec fn distinct_keys<K, V>(entries: Seq<(K, V)>) -> bool {
    forall|i: int, j: int| 0 <= i < j < entries.len() ==> entries[i].0 != entries[j].0
}

/// `key` stands in `entries`.
pub open spec fn has_key<K, V>(entries: Seq<(K, V)>, key: K) -> bool {
    exists|i: int| 0 <= i < entries.len() && (#[trigger] entries[i]).0 == key
}

/// `entries` with `value` under `key`: in the place of the entry that the
/// key has, or at the end where it has none.
pub open spec fn with_entry<K, V>(entries: Seq<(K, V)>, key: K, value: V) -> Seq<(K, V)>
    decreases entries.len(),
{
    if entries.len() == 0 {
        seq![(key, value)]
    } else if entries[0].0 == key {
        seq![(key, value)] + entries.drop_first()
    } else {
        seq![entries[0]] + with_entry(entries.drop_first(), key, value)
    }
}

/// Place of the entry of `key`, if it has one.
pub fn position<K: Key, V>(entries: &Vec<(K, V)>, key: &K) -> (place: Option<usize>)
    ensures
        match place {
            Some(i) => i < entries@.len() && entries@[i as int].0 == *key && forall|j: int|
                0 <= j < i ==> (#[trigger] entries@[j]).0 != *key,
            None => !has_key(entries@, *key),
        },
{
    let mut i: usize = 0;
    while i < entries.len()
        invariant
            i <= entries@.len(),
            forall|j: int| 0 <= j < i ==> (#[trigger] entries@[j]).0 != *key,
        decreases entries@.len() - i,
    {
        if entries[i].0.same(key) {
            return Some(i);
        }
        i += 1;
    }
    None
}

/// Where the key stands first at `place`, the new entry takes that place.
proof fn lemma_with_entry_found<K, V>(entries: Seq<(K, V)>, key: K, value: V, place: int)
    requires
        0 <= place < entries.len(),
        entries[place].0 == key,
        forall|j: int| 0 <= j < place ==> (#[trigger] entries[j]).0 != key,
    ensures
        with_entry(entries, key, value) == entries.update(place, (key, value)),
    decreases entries.len(),
{
    if place == 0 {
        assert(seq![(key, value)] + entries.drop_first() =~= entries.update(0, (key, value)));
    } else {
        let rest = entries.drop_first();
        assert(forall|j: int| 0 <= j < place - 1 ==> (#[trigger] rest[j]).0 != key) by {
            assert forall|j: int| 0 <= j < place - 1 implies (#[trigger] rest[j]).0 != key by {
                assert(rest[j] == entries[j + 1]);
            }
        }
        lemma_with_entry_found(rest, key, value, place - 1);
        assert(seq![entries[0]] + rest.update(place - 1, (key, value)) =~= entries.update(
            place,
            (key, value),
        ));
    }
}

/// Where the key does not stand, the new entry goes to the end.
proof fn lemma_with_entry_missing<K, V>(entries: Seq<(K, V)>, key: K, value: V)
    requires
        !has_key(entries, key),
    ensures
        with_entry(entries, key, value) == entries.push((key, value)),
    decreases entries.len(),
{
    if entries.len() == 0 {
        assert(seq![(key, value)] =~= entries.push((key, value)));
    } else {
        let rest = entries.drop_first();
        assert(entries[0].0 != key);
        assert(!has_key(rest, key)) by {
            if has_key(rest, key) {
                let i = choose|i: int| 0 <= i < rest.len() && (#[trigger] rest[i]).0 == key;
                assert(entries[i + 1].0 == key);
            }
        }
        lemma_with_entry_missing(rest, key, value);
        assert(seq![entries[0]] + rest.push((key, value)) =~= entries.push((key, value)));
    }
}

/// Putting an entry keeps the keys distinct; afterwards the key has the new
/// value and every other key the entry it had.
pub proof fn lemma_with_entry<K, V>(entries: Seq<(K, V)>, key: K, value: V)
    requires
        distinct_keys(entries),
    ensures
        distinct_keys(with_entry(entries, key, value)),
        has_key(with_entry(entries, key, value), key),
        forall|i: int|
            0 <= i < with_entry(entries, key, value).len() && (#[trigger] with_entry(
                entries,
                key,
                value,
            )[i]).0 == key ==> with_entry(entries, key, value)[i].1 == value,
        forall|i: int|
            0 <= i < entries.len() && (#[trigger] entries[i]).0 != key ==> with_entry(
                entries,
                key,
                value,
            )[i] == entries[i],
        with_entry(entries, key, value).len() == if has_key(entries, key) {
            entries.len()
        } else {
            entries.len() + 1
        },
{
    let after = with_entry(entries, key, value);
    if has_key(entries, key) {
        let place = choose|i: int| 0 <= i < entries.len() && (#[trigger] entries[i]).0 == key;
        assert forall|j: int| 0 <= j < place implies (#[trigger] entries[j]).0 != key by {}
        lemma_with_entry_found(entries, key, value, place);
        assert(after[place].0 == key);
        assert forall|i: int, j: int| 0 <= i < j < after.len() implies after[i].0
            != after[j].0 by {
            assert(after[i].0 == entries[i].0);
            assert(after[j].0 == entries[j].0);
        }
        assert forall|i: int| 0 <= i < after.len() && (#[trigger] after[i]).0 == key implies after[i].1
            == value by {
            assert(after[i].0 == entries[i].0);
            if i != place {
                if i < place {
                    assert(entries[i].0 != entries[place].0);
                } else {
                    assert(entries[place].0 != entries[i].0);
                }
            }
        }
    } else {
        lemma_with_entry_missing(entries, key, value);
        assert(after[entries.len() as int].0 == key);
        assert forall|i: int, j: int| 0 <= i < j < after.len() implies after[i].0
            != after[j].0 by {
            if j == entries.len() {
                assert(after[i] == entries[i]);
            }
        }
    }
}

/// Puts `value` under `key`: over the entry that the key has, or at the end.
pub fn put<K: Key, V>(entries: &mut Vec<(K, V)>, key: K, value: V)
    ensures
        final(entries)@ == with_entry(old(entries)@, key, value),
{
    match position(entries, &key) {
        Some(place) => {
            proof {
                lemma_with_entry_found(entries@, key, value, place as int);
            }
            entries.set(place, (key, value));
        },
        None => {
            proof {
                lemma_with_entry_missing(entries@, key, value);
            }
            entries.push((key, value));
        },
    }
}

} // verus!
