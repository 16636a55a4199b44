//! A small keyed table, for keys that cannot be hashed under proof.

use vstd::prelude::*;

verus! {

/// A key that executable code can compare exactly as the model does.
pub trait TableKey: View + Sized {
    /// Whether the two keys have the same value.
    fn same_key(&self, other: &Self) -> (same: bool)
        ensures
            same == (self@ == other@),
    ;
}

/// One entry of a [`Table`].
pub struct Slot<K, V> {
    pub key: K,
    pub value: V,
}

/// Whether slot `i` is the first one that carries `key`.
pub open spec fn is_first_slot<K: View, V>(slots: Seq<Slot<K, V>>, key: K::V, i: int) -> bool {
    &&& 0 <= i < slots.len()
    &&& slots[i].key@ == key
    &&& forall|j: int| 0 <= j < i ==> (#[trigger] slots[j]).key@ != key
}

/// The map a sequence of slots stands for: each key that occurs, mapped to
/// the value of the first slot that carries it.
pub open spec fn slots_map<K: View, V: View>(slots: Seq<Slot<K, V>>) -> Map<K::V, V::V> {
    Map::new(
        |key: K::V| exists|i: int| is_first_slot(slots, key, i),
        |key: K::V| slots[choose|i: int| is_first_slot(slots, key, i)].value@,
    )
}

/// A slot that is first for its key is the one the map reads.
pub proof fn lemma_first_slot_is_read<K: View, V: View>(
    slots: Seq<Slot<K, V>>,
    key: K::V,
    i: int,
)
    requires
        is_first_slot(slots, key, i),
    ensures
        slots_map(slots).contains_key(key),
        slots_map(slots)[key] == slots[i].value@,
{
    let chosen = choose|c: int| is_first_slot(slots, key, c);
    assert(is_first_slot(slots, key, chosen));
    assert(chosen == i) by {
        if chosen < i {
            assert(slots[chosen].key@ != key);
        }
        if i < chosen {
            assert(slots[i].key@ != key);
        }
    }
}

/// A key that no slot carries is not in the map.
pub proof fn lemma_absent_key_is_unmapped<K: View, V: View>(slots: Seq<Slot<K, V>>, key: K::V)
    requires
        forall|j: int| 0 <= j < slots.len() ==> (#[trigger] slots[j]).key@ != key,
    ensures
        !slots_map(slots).contains_key(key),
{
    assert forall|i: int| !is_first_slot(slots, key, i) by {
        if 0 <= i < slots.len() {
            assert(slots[i].key@ != key);
        }
    }
}

/// Replacing the value of the first slot for a key maps that key to the new
/// value and leaves every other key as it was.
pub proof fn lemma_replace_value<K: View, V: View>(
    before: Seq<Slot<K, V>>,
    after: Seq<Slot<K, V>>,
    i: int,
)
    requires
        0 <= i < before.len(),
        is_first_slot(before, before[i].key@, i),
        after.len() == before.len(),
        after[i].key@ == before[i].key@,
        forall|j: int| 0 <= j < before.len() && j != i ==> after[j] == before[j],
    ensures
        slots_map(after) == slots_map(before).insert(before[i].key@, after[i].value@),
{
    let key = before[i].key@;
    let expected = slots_map(before).insert(key, after[i].value@);
    // The keys are where they were, so each key has the same first slot.
    assert forall|k: K::V, j: int| is_first_slot(before, k, j) == is_first_slot(after, k, j) by {
        assert(forall|h: int| 0 <= h < before.len() ==> (#[trigger] after[h]).key@ == before[h].key@);
        assert(forall|h: int| 0 <= h < before.len() ==> (#[trigger] before[h]).key@ == after[h].key@);
    }
    assert forall|k: K::V| slots_map(after).contains_key(k) == expected.contains_key(k) by {
        if slots_map(before).contains_key(k) {
            let j = choose|j: int| is_first_slot(before, k, j);
            assert(is_first_slot(after, k, j));
        }
        if k == key {
            assert(is_first_slot(after, k, i));
        }
    }
    assert forall|k: K::V| slots_map(after).contains_key(k) implies slots_map(after)[k]
        == expected[k] by {
        let j = choose|j: int| is_first_slot(after, k, j);
        lemma_first_slot_is_read(after, k, j);
        lemma_first_slot_is_read(before, k, j);
    }
    assert(slots_map(after) =~= expected);
}

/// Appending a slot for a key that no slot carries adds that key and leaves
/// every other key as it was.
pub proof fn lemma_append_slot<K: View, V: View>(before: Seq<Slot<K, V>>, slot: Slot<K, V>)
    requires
        forall|j: int| 0 <= j < before.len() ==> (#[trigger] before[j]).key@ != slot.key@,
    ensures
        slots_map(before.push(slot)) == slots_map(before).insert(slot.key@, slot.value@),
{
    let after = before.push(slot);
    let key = slot.key@;
    let last = before.len() as int;
    let expected = slots_map(before).insert(key, slot.value@);
    assert(forall|h: int| 0 <= h < last ==> #[trigger] after[h] == before[h]);
    // The new slot is the first for its key; every other key keeps its first slot.
    assert(is_first_slot(after, key, last));
    assert forall|k: K::V, j: int| k != key implies is_first_slot(before, k, j) == is_first_slot(
        after,
        k,
        j,
    ) by {
        if is_first_slot(before, k, j) {
            assert forall|h: int| 0 <= h < j implies (#[trigger] after[h]).key@ != k by {
                assert(after[h] == before[h]);
            }
        }
        if is_first_slot(after, k, j) {
            assert forall|h: int| 0 <= h < j implies (#[trigger] before[h]).key@ != k by {
                assert(after[h] == before[h]);
            }
        }
    }
    assert forall|k: K::V| slots_map(after).contains_key(k) == expected.contains_key(k) by {
        if k != key && slots_map(before).contains_key(k) {
            let j = choose|j: int| is_first_slot(before, k, j);
            assert(is_first_slot(after, k, j));
        }
    }
    assert forall|k: K::V| slots_map(after).contains_key(k) implies slots_map(after)[k]
        == expected[k] by {
        let j = choose|j: int| is_first_slot(after, k, j);
        lemma_first_slot_is_read(after, k, j);
        if k != key {
            lemma_first_slot_is_read(before, k, j);
        } else {
            lemma_first_slot_is_read(after, k, last);
        }
    }
    assert(slots_map(after) =~= expected);
}

/// A map from keys to values, held as a list of slots and searched in order.
///
/// The table is meant for keys made of strings and outside values, which a
/// hash map cannot be reasoned about with. Writing under a key that is held
/// replaces its value in place; a new key gets a new slot at the end.
pub struct Table<K, V> {
    slots: Vec<Slot<K, V>>,
}

impl<K: View, V: View> View for Table<K, V> {
    type V = Map<K::V, V::V>;

    closed spec fn view(&self) -> Map<K::V, V::V> {
        slots_map(self.slots@)
    }
}

impl<K: TableKey, V: View> Table<K, V> {
    /// The empty table.
    pub fn new() -> (table: Self)
        ensures
            table@ == Map::<K::V, V::V>::empty(),
    {
        let table = Table { slots: Vec::new() };
        proof {
            assert forall|key: K::V| !(#[trigger] slots_map(table.slots@).contains_key(key)) by {
                lemma_absent_key_is_unmapped(table.slots@, key);
            }
            assert(table@ =~= Map::<K::V, V::V>::empty());
        }
        table
    }

    /// The index of the first slot that carries `key`, if any does.
    fn position(&self, key: &K) -> (found: Option<usize>)
        ensures
            match found {
                Some(i) => is_first_slot(self.slots@, key@, i as int),
                None => forall|j: int|
                    0 <= j < self.slots@.len() ==> (#[trigger] self.slots@[j]).key@ != key@,
            },
    {
        let mut i: usize = 0;
        while i < self.slots.len()
            invariant
                i <= self.slots@.len(),
                forall|j: int| 0 <= j < i ==> (#[trigger] self.slots@[j]).key@ != key@,
            decreases self.slots@.len() - i,
        {
            if self.slots[i].key.same_key(key) {
                return Some(i);
            }
            i += 1;
        }
        None
    }

    /// The value held under `key`, if there is one.
    pub fn get(&self, key: &K) -> (found: Option<&V>)
        ensures
            match found {
                Some(value) => self@.contains_key(key@) && value@ == self@[key@],
                None => !self@.contains_key(key@),
            },
    {
        match self.position(key) {
            Some(i) => {
                proof {
                    lemma_first_slot_is_read(self.slots@, key@, i as int);
                }
                Some(&self.slots[i].value)
            },
            None => {
                proof {
                    lemma_absent_key_is_unmapped(self.slots@, key@);
                }
                None
            },
        }
    }

    /// Holds `value` under `key`, in place of whatever was held there.
    pub fn put(&mut self, key: K, value: V)
        ensures
            final(self)@ == old(self)@.insert(key@, value@),
    {
        match self.position(&key) {
            Some(i) => {
                self.slots.set(i, Slot { key, value });
                proof {
                    lemma_replace_value(old(self).slots@, self.slots@, i as int);
                }
            },
            None => {
                let ghost slot = Slot { key, value };
                self.slots.push(Slot { key, value });
                proof {
                    lemma_append_slot(old(self).slots@, slot);
                }
            },
        }
    }
}

} // verus!
