//! A key-value relation with a default: every key has a value, and all but
//! finitely many keys have the default.

use vstd::prelude::*;

verus! {

/// A key that can be compared at run time.
pub trait Key: Copy {
    /// Whether the two keys are the same.
    fn same(&self, other: &Self) -> (same: bool)
        ensures
            same == (*self == *other),
    ;
}

/// A relation from `K` to `V`, held as the entries that were ever set.
pub struct Table<K, V> {
    entries: Vec<(K, V)>,
    default: V,
}

impl<K: Key, V: Copy> Table<K, V> {
    /// No key has two entries.
    pub closed spec fn wf(&self) -> bool {
        forall|i: int, j: int|
            0 <= i < j < self.entries@.len() ==> (#[trigger] self.entries@[i]).0 != (
            #[trigger] self.entries@[j]).0
    }

    spec fn has(&self, key: K) -> bool {
        exists|i: int| 0 <= i < self.entries@.len() && (#[trigger] self.entries@[i]).0 == key
    }

    spec fn index_of(&self, key: K) -> int {
        choose|i: int| 0 <= i < self.entries@.len() && (#[trigger] self.entries@[i]).0 == key
    }

    /// The value of every key.
    pub closed spec fn view(&self) -> Map<K, V> {
        Map::total(
            |key: K|
                if self.has(key) {
                    self.entries@[self.index_of(key)].1
                } else {
                    self.default
                },
        )
    }

    /// The value of a key that was never set.
    pub closed spec fn default_value(&self) -> V {
        self.default
    }

    /// The keys whose value is not the default.
    pub open spec fn support(&self) -> Set<K> {
        Set::new(|key: K| self@[key] != self.default_value())
    }

    /// The relation in which every key has the value `default`.
    pub fn new(default: V) -> (table: Self)
        ensures
            table.wf(),
            table.default_value() == default,
            table@ == Map::total(|key: K| default),
    {
        let table = Table { entries: Vec::new(), default };
        assert(table@ =~= Map::total(|key: K| default));
        table
    }

    /// The value of `key`.
    pub fn get(&self, key: K) -> (value: V)
        requires
            self.wf(),
        ensures
            value == self@[key],
    {
        let mut i: usize = 0;
        while i < self.entries.len()
            invariant
                self.wf(),
                i <= self.entries@.len(),
                forall|j: int| 0 <= j < i ==> (#[trigger] self.entries@[j]).0 != key,
            decreases self.entries@.len() - i,
        {
            if self.entries[i].0.same(&key) {
                proof {
                    self.lemma_entry_is_value(i as int);
                }
                return self.entries[i].1;
            }
            i += 1;
        }
        self.default
    }

    /// Gives `key` the value `value` and leaves every other key as it was.
    pub fn set(&mut self, key: K, value: V)
        requires
            old(self).wf(),
        ensures
            final(self).wf(),
            final(self).default_value() == old(self).default_value(),
            final(self)@ == old(self)@.insert(key, value),
    {
        let mut i: usize = 0;
        while i < self.entries.len()
            invariant
                *self == *old(self),
                self.wf(),
                i <= self.entries@.len(),
                forall|j: int| 0 <= j < i ==> (#[trigger] self.entries@[j]).0 != key,
            decreases self.entries@.len() - i,
        {
            if self.entries[i].0.same(&key) {
                self.entries.set(i, (key, value));
                proof {
                    self.lemma_view_after_update(*old(self), i as int, key, value);
                }
                return ;
            }
            i += 1;
        }
        self.entries.push((key, value));
        proof {
            self.lemma_view_after_push(*old(self), key, value);
        }
    }

    proof fn lemma_entry_is_value(&self, at: int)
        requires
            self.wf(),
            0 <= at < self.entries@.len(),
        ensures
            self@[self.entries@[at].0] == self.entries@[at].1,
    {
        let key = self.entries@[at].0;
        assert(self.has(key));
        let i = self.index_of(key);
        assert(self.entries@[i].0 == self.entries@[at].0);
    }

    proof fn lemma_view_after_update(&self, before: Self, at: int, key: K, value: V)
        requires
            before.wf(),
            0 <= at < before.entries@.len(),
            before.entries@[at].0 == key,
            self.entries@ == before.entries@.update(at, (key, value)),
            self.default == before.default,
        ensures
            self.wf(),
            self@ == before@.insert(key, value),
    {
        assert forall|i: int, j: int| 0 <= i < j < self.entries@.len() implies (
        #[trigger] self.entries@[i]).0 != (#[trigger] self.entries@[j]).0 by {
            assert(self.entries@[i].0 == before.entries@[i].0);
            assert(self.entries@[j].0 == before.entries@[j].0);
        }
        assert forall|k: K| #[trigger] self@[k] == before@.insert(key, value)[k] by {
            if k == key {
                assert(self.entries@[at].0 == key);
                assert(self.has(k));
            } else if before.has(k) {
                let i = before.index_of(k);
                assert(self.entries@[i] == before.entries@[i]);
                assert(self.has(k));
                let j = self.index_of(k);
                assert(before.entries@[j].0 == self.entries@[j].0);
            } else {
                if self.has(k) {
                    let j = self.index_of(k);
                    assert(before.entries@[j].0 == self.entries@[j].0);
                }
            }
        }
        assert(self@ =~= before@.insert(key, value));
    }

    proof fn lemma_view_after_push(&self, before: Self, key: K, value: V)
        requires
            before.wf(),
            forall|j: int| 0 <= j < before.entries@.len() ==> (#[trigger] before.entries@[j]).0 != key,
            self.entries@ == before.entries@.push((key, value)),
            self.default == before.default,
        ensures
            self.wf(),
            self@ == before@.insert(key, value),
    {
        let n = before.entries@.len() as int;
        assert forall|i: int, j: int| 0 <= i < j < self.entries@.len() implies (
        #[trigger] self.entries@[i]).0 != (#[trigger] self.entries@[j]).0 by {
            assert(self.entries@[i] == before.entries@[i]);
            if j < n {
                assert(self.entries@[j] == before.entries@[j]);
            }
        }
        assert forall|k: K| #[trigger] self@[k] == before@.insert(key, value)[k] by {
            if k == key {
                assert(self.entries@[n].0 == key);
                assert(self.has(k));
                let j = self.index_of(k);
                if j < n {
                    assert(self.entries@[j] == before.entries@[j]);
                }
            } else if before.has(k) {
                let i = before.index_of(k);
                assert(self.entries@[i] == before.entries@[i]);
                assert(self.has(k));
                let j = self.index_of(k);
                assert(self.entries@[j] == before.entries@[j]);
            } else {
                if self.has(k) {
                    let j = self.index_of(k);
                    assert(self.entries@[j] == before.entries@[j]);
                }
            }
        }
        assert(self@ =~= before@.insert(key, value));
    }

    /// Only finitely many keys were ever set: as many as fit in memory.
    pub proof fn lemma_support_is_bounded(&self)
        ensures
            self.support().finite(),
            self.support().len() <= usize::MAX,
    {
        let keys = self.entries@.map_values(|entry: (K, V)| entry.0);
        assert forall|key: K| self.support().contains(key) implies keys.to_set().contains(key) by {
            assert(self.has(key));
            let i = self.index_of(key);
            assert(keys[i] == key);
        }
        keys.lemma_cardinality_of_set();
        vstd::seq_lib::seq_to_set_is_finite(keys);
        assert(self.entries.len() == self.entries@.len());
        vstd::set_lib::lemma_len_subset(self.support(), keys.to_set());
    }
}

} // verus!
