//! A finite map from storage keys to values, kept as a list without repeated keys.

use vstd::prelude::*;
use crate::storage_types::DataKey;

verus! {

/// One stored entry.
pub struct Entry<T> {
    pub key: DataKey,
    pub value: T,
}

/// The entries of one storage tier. Its view is the map from each key to the
/// value stored under it.
pub struct Store<T> {
    entries: Vec<Entry<T>>,
}

/// The map that a list of entries stands for; a later entry overrides an earlier one.
pub open spec fn entries_map<T>(entries: Seq<Entry<T>>) -> Map<DataKey, T>
    decreases entries.len(),
{
    if entries.len() == 0 {
        Map::empty()
    } else {
        entries_map(entries.drop_last()).insert(entries.last().key, entries.last().value)
    }
}

/// No key occurs twice in the list.
pub open spec fn distinct_keys<T>(entries: Seq<Entry<T>>) -> bool {
    forall|i: int, j: int|
        0 <= i < j < entries.len() ==> (#[trigger] entries[i]).key != (#[trigger] entries[j]).key
}

/// The map of a list holds exactly the keys of the list, and its domain is finite.
pub proof fn lemma_entries_map_keys<T>(entries: Seq<Entry<T>>)
    ensures
        entries_map(entries).dom().finite(),
        forall|k: DataKey| #[trigger]
            entries_map(entries).contains_key(k) <==> exists|i: int|
                0 <= i < entries.len() && (#[trigger] entries[i]).key == k,
    decreases entries.len(),
{
    if entries.len() > 0 {
        let front = entries.drop_last();
        lemma_entries_map_keys(front);
        assert forall|k: DataKey| #[trigger]
            entries_map(entries).contains_key(k) <==> exists|i: int|
                0 <= i < entries.len() && (#[trigger] entries[i]).key == k by {
            if entries_map(entries).contains_key(k) {
                if k == entries.last().key {
                    assert(entries[entries.len() - 1].key == k);
                } else {
                    assert(entries_map(front).contains_key(k));
                    let i = choose|i: int| 0 <= i < front.len() && (#[trigger] front[i]).key == k;
                    assert(entries[i].key == k);
                }
            }
            if exists|i: int| 0 <= i < entries.len() && (#[trigger] entries[i]).key == k {
                let i = choose|i: int| 0 <= i < entries.len() && (#[trigger] entries[i]).key == k;
                if i < entries.len() - 1 {
                    assert(front[i].key == k);
                }
            }
        }
    }
}

/// Where no key occurs twice, the map gives each entry's key that entry's value.
pub proof fn lemma_entries_map_value<T>(entries: Seq<Entry<T>>, i: int)
    requires
        distinct_keys(entries),
        0 <= i < entries.len(),
    ensures
        entries_map(entries).contains_key(entries[i].key),
        entries_map(entries)[entries[i].key] == entries[i].value,
    decreases entries.len(),
{
    let front = entries.drop_last();
    if i < entries.len() - 1 {
        assert(distinct_keys(front)) by {
            assert forall|a: int, b: int| 0 <= a < b < front.len() implies (#[trigger] front[a]).key
                != (#[trigger] front[b]).key by {
                assert(entries[a].key != entries[b].key);
            }
        }
        lemma_entries_map_value(front, i);
        assert(front[i] == entries[i]);
        assert(entries[i].key != entries[entries.len() - 1].key);
    }
}

impl<T> View for Store<T> {
    type V = Map<DataKey, T>;

    closed spec fn view(&self) -> Map<DataKey, T> {
        entries_map(self.entries@)
    }
}

impl<T: Copy> Store<T> {
    /// The list holds no key twice.
    pub closed spec fn wf(&self) -> bool {
        distinct_keys(self.entries@)
    }

    /// The store without entries.
    pub fn new() -> (store: Store<T>)
        ensures
            store.wf(),
            store@ == Map::<DataKey, T>::empty(),
    {
        Store { entries: Vec::new() }
    }

    /// Position of the entry under `key`, if there is one.
    fn find(&self, key: &DataKey) -> (position: Option<usize>)
        requires
            self.wf(),
        ensures
            match position {
                Some(i) => i < self.entries@.len() && self.entries@[i as int].key == *key
                    && self@.contains_key(*key) && self@[*key] == self.entries@[i as int].value,
                None => !self@.contains_key(*key) && forall|j: int|
                    0 <= j < self.entries@.len() ==> (#[trigger] self.entries@[j]).key != *key,
            },
    {
        let mut i: usize = 0;
        while i < self.entries.len()
            invariant
                i <= self.entries@.len(),
                self.wf(),
                forall|j: int| 0 <= j < i ==> (#[trigger] self.entries@[j]).key != *key,
            decreases self.entries@.len() - i,
        {
            if self.entries[i].key == *key {
                proof {
                    lemma_entries_map_value(self.entries@, i as int);
                }
                return Some(i);
            }
            i += 1;
        }
        proof {
            lemma_entries_map_keys(self.entries@);
        }
        None
    }

    /// Whether a value is stored under `key`.
    pub fn has(&self, key: &DataKey) -> (present: bool)
        requires
            self.wf(),
        ensures
            present == self@.contains_key(*key),
    {
        self.find(key).is_some()
    }

    /// The value stored under `key`, if there is one.
    pub fn get(&self, key: &DataKey) -> (value: Option<T>)
        requires
            self.wf(),
        ensures
            value == (if self@.contains_key(*key) {
                Some(self@[*key])
            } else {
                None
            }),
    {
        match self.find(key) {
            Some(i) => Some(self.entries[i].value),
            None => None,
        }
    }

    /// Stores `value` under `key`, in place of what was stored there.
    pub fn set(&mut self, key: DataKey, value: T)
        requires
            old(self).wf(),
        ensures
            final(self).wf(),
            final(self)@ == old(self)@.insert(key, value),
    {
        match self.find(&key) {
            Some(i) => {
                let ghost before = self.entries@;
                self.entries.set(i, Entry { key, value });
                proof {
                    lemma_set_at(before, i as int, value);
                }
            },
            None => {
                self.entries.push(Entry { key, value });
                proof {
                    let after = self.entries@;
                    assert(after.drop_last() == old(self).entries@);
                }
            },
        }
    }

    /// Removes the entry under `key`; does nothing where there is none.
    pub fn remove(&mut self, key: &DataKey)
        requires
            old(self).wf(),
        ensures
            final(self).wf(),
            final(self)@ == old(self)@.remove(*key),
    {
        match self.find(key) {
            Some(i) => {
                let ghost before = self.entries@;
                self.entries.remove(i);
                proof {
                    lemma_remove_at(before, i as int);
                }
            },
            None => {
                assert(self@.remove(*key) =~= self@);
            },
        }
    }
}

/// Replacing the value of the entry at `i` is an insertion under that entry's key.
pub proof fn lemma_set_at<T>(entries: Seq<Entry<T>>, i: int, value: T)
    requires
        distinct_keys(entries),
        0 <= i < entries.len(),
    ensures
        distinct_keys(entries.update(i, Entry { key: entries[i].key, value })),
        entries_map(entries.update(i, Entry { key: entries[i].key, value })) == entries_map(
            entries,
        ).insert(entries[i].key, value),
{
    let key = entries[i].key;
    let after = entries.update(i, Entry { key, value });
    assert(distinct_keys(after)) by {
        assert forall|a: int, b: int| 0 <= a < b < after.len() implies (#[trigger] after[a]).key != (
        #[trigger] after[b]).key by {
            assert(entries[a].key != entries[b].key);
        }
    }
    lemma_entries_map_keys(entries);
    lemma_entries_map_keys(after);
    let target = entries_map(entries).insert(key, value);
    assert forall|k: DataKey| entries_map(after).contains_key(k) <==> target.contains_key(k) by {
        if entries_map(after).contains_key(k) {
            let j = choose|j: int| 0 <= j < after.len() && (#[trigger] after[j]).key == k;
            assert(entries[j].key == k);
        }
        if target.contains_key(k) && k != key {
            let j = choose|j: int| 0 <= j < entries.len() && (#[trigger] entries[j]).key == k;
            assert(after[j].key == k);
        }
        if k == key {
            assert(after[i].key == k);
        }
    }
    assert forall|k: DataKey| entries_map(after).contains_key(k) implies entries_map(after)[k]
        == target[k] by {
        let j = choose|j: int| 0 <= j < after.len() && (#[trigger] after[j]).key == k;
        lemma_entries_map_value(after, j);
        if j != i {
            assert(entries[j] == after[j]);
            lemma_entries_map_value(entries, j);
            assert(entries[j].key != entries[i].key);
        }
    }
    assert(entries_map(after) =~= target);
}

/// Taking the entry at `i` out of the list removes that entry's key from the map.
pub proof fn lemma_remove_at<T>(entries: Seq<Entry<T>>, i: int)
    requires
        distinct_keys(entries),
        0 <= i < entries.len(),
    ensures
        distinct_keys(entries.remove(i)),
        entries_map(entries.remove(i)) == entries_map(entries).remove(entries[i].key),
{
    let key = entries[i].key;
    let after = entries.remove(i);
    assert(distinct_keys(after)) by {
        assert forall|a: int, b: int| 0 <= a < b < after.len() implies (#[trigger] after[a]).key != (
        #[trigger] after[b]).key by {
            let a0 = if a < i { a } else { a + 1 };
            let b0 = if b < i { b } else { b + 1 };
            assert(after[a] == entries[a0]);
            assert(after[b] == entries[b0]);
            assert(entries[a0].key != entries[b0].key);
        }
    }
    lemma_entries_map_keys(entries);
    lemma_entries_map_keys(after);
    let target = entries_map(entries).remove(key);
    assert forall|k: DataKey| entries_map(after).contains_key(k) <==> target.contains_key(k) by {
        if entries_map(after).contains_key(k) {
            let j = choose|j: int| 0 <= j < after.len() && (#[trigger] after[j]).key == k;
            let j0 = if j < i { j } else { j + 1 };
            assert(after[j] == entries[j0]);
            assert(entries[j0].key == k);
            if j0 < i {
                assert(entries[j0].key != entries[i].key);
            } else {
                assert(entries[i].key != entries[j0].key);
            }
        }
        if target.contains_key(k) {
            let j = choose|j: int| 0 <= j < entries.len() && (#[trigger] entries[j]).key == k;
            let j1 = if j < i { j } else { j - 1 };
            assert(after[j1] == entries[j]);
            assert(after[j1].key == k);
        }
    }
    assert forall|k: DataKey| entries_map(after).contains_key(k) implies entries_map(after)[k]
        == target[k] by {
        let j = choose|j: int| 0 <= j < after.len() && (#[trigger] after[j]).key == k;
        let j0 = if j < i { j } else { j + 1 };
        assert(after[j] == entries[j0]);
        lemma_entries_map_value(after, j);
        lemma_entries_map_value(entries, j0);
    }
    assert(entries_map(after) =~= target);
}

} // verus!
