//! The memory tier of the image cache: what is ready to be drawn.
//!
//! The memory tier is a disposable projection of the disk tier. It can be
//! emptied at any time; whatever it held is found on disk, or fetched, the
//! next time it is asked for.

use vstd::prelude::*;

verus! {

/// One key and what is kept under it.
pub struct Slot<V> {
    key: String,
    value: V,
}

/// A map from string keys to values, with at most one value to a key.
pub struct KeyedStore<V> {
    slots: Vec<Slot<V>>,
}

impl<V> KeyedStore<V> {
    /// No key occurs twice.
    pub closed spec fn wf(self) -> bool {
        forall|i: int, j: int|
            0 <= i < j < self.slots@.len() ==> (#[trigger] self.slots@[i]).key@ != (
            #[trigger] self.slots@[j]).key@
    }

    /// Whether the slot at `i` holds `key`.
    spec fn holds(self, i: int, key: Seq<char>) -> bool {
        0 <= i < self.slots@.len() && self.slots@[i].key@ == key
    }

    /// The map that the store stands for.
    pub closed spec fn view(self) -> Map<Seq<char>, V> {
        Map::new(
            |key: Seq<char>| exists|i: int| self.holds(i, key),
            |key: Seq<char>| self.slots@[choose|i: int| self.holds(i, key)].value,
        )
    }

    /// The number of keys in the store.
    pub closed spec fn count(self) -> nat {
        self.slots@.len()
    }

    /// An empty store.
    pub fn new() -> (store: KeyedStore<V>)
        ensures
            store.wf(),
            store@ == Map::<Seq<char>, V>::empty(),
            store.count() == 0,
    {
        let store = KeyedStore { slots: Vec::new() };
        assert(store@ =~= Map::<Seq<char>, V>::empty());
        store
    }

    /// The slot that holds `key`, if there is one.
    fn position(&self, key: &str) -> (at: Option<usize>)
        ensures
            match at {
                Some(i) => self.holds(i as int, key@),
                None => forall|i: int| !self.holds(i, key@),
            },
    {
        let wanted = key.to_owned();
        let mut i: usize = 0;
        while i < self.slots.len()
            invariant
                i <= self.slots.len(),
                wanted@ == key@,
                forall|j: int| 0 <= j < i ==> self.slots@[j].key@ != key@,
            decreases self.slots.len() - i,
        {
            if self.slots[i].key == wanted {
                return Some(i);
            }
            i += 1;
        }
        None
    }

    /// Whether there is a value under `key`.
    pub fn contains(&self, key: &str) -> (found: bool)
        ensures
            found == self@.dom().contains(key@),
    {
        self.position(key).is_some()
    }

    /// The value under `key`, if there is one.
    pub fn get(&self, key: &str) -> (found: Option<&V>)
        requires
            self.wf(),
        ensures
            match found {
                Some(value) => self@.dom().contains(key@) && *value == self@[key@],
                None => !self@.dom().contains(key@),
            },
    {
        match self.position(key) {
            Some(i) => {
                proof {
                    let chosen = choose|j: int| self.holds(j, key@);
                    assert(self.holds(i as int, key@));
                    assert(chosen == i);
                }
                Some(&self.slots[i].value)
            },
            None => None,
        }
    }

    /// The value under `key`, to be changed in place, if there is one.
    pub fn get_mut(&mut self, key: &str) -> (found: Option<&mut V>)
        requires
            old(self).wf(),
        ensures
            match found {
                Some(value) => {
                    &&& old(self)@.dom().contains(key@)
                    &&& *value == old(self)@[key@]
                    &&& final(self)@ == old(self)@.insert(key@, *final(value))
                    &&& final(self).wf()
                },
                None => !old(self)@.dom().contains(key@) && *final(self) == *old(self),
            },
    {
        let at = self.position(key);
        match at {
            Some(i) => {
                let ghost before = *self;
                let ghost after = *final(self);
                proof {
                    let chosen = choose|j: int| before.holds(j, key@);
                    assert(before.holds(i as int, key@));
                    assert(chosen == i);
                }
                let slot = &mut self.slots[i];
                let value = &mut slot.value;
                proof {
                    before.lemma_value_replaced(after, i as int);
                }
                Some(value)
            },
            None => None,
        }
    }

    /// Replacing the value of one slot replaces the value under its key and
    /// nothing else.
    proof fn lemma_value_replaced(self, after: KeyedStore<V>, i: int)
        requires
            self.wf(),
            0 <= i < self.slots@.len(),
            after.slots@.len() == self.slots@.len(),
            after.slots@[i].key == self.slots@[i].key,
            forall|j: int| 0 <= j < self.slots@.len() && j != i ==> after.slots@[j] == self.slots@[j],
        ensures
            after.wf(),
            after@ == self@.insert(self.slots@[i].key@, after.slots@[i].value),
    {
        let key = self.slots@[i].key@;
        let value = after.slots@[i].value;
        assert forall|j: int| 0 <= j < after.slots@.len() implies (#[trigger] after.slots@[j]).key@
            == self.slots@[j].key@ by {}
        assert(after.wf()) by {
            assert forall|a: int, b: int| 0 <= a < b < after.slots@.len() implies (
            #[trigger] after.slots@[a]).key@ != (#[trigger] after.slots@[b]).key@ by {
                assert(self.slots@[a].key@ != self.slots@[b].key@);
            }
        }
        assert forall|k: Seq<char>, j: int| after.holds(j, k) == self.holds(j, k) by {}
        assert forall|k: Seq<char>| #[trigger] after@.dom().contains(k) implies after@[k]
            == self@.insert(key, value)[k] by {
            let ja = choose|j: int| after.holds(j, k);
            let jb = choose|j: int| self.holds(j, k);
            assert(after.holds(ja, k));
            assert(self.holds(ja, k));
            assert(self.holds(jb, k));
            assert(ja == jb);
            if k == key {
                assert(self.holds(i, k));
                assert(ja == i);
            }
        }
        assert(self.holds(i, key));
        assert(after@ =~= self@.insert(key, value));
    }

    /// Puts `value` under `key`, in place of what was there.
    pub fn insert(&mut self, key: &str, value: V)
        requires
            old(self).wf(),
        ensures
            final(self).wf(),
            final(self)@ == old(self)@.insert(key@, value),
    {
        let at = self.position(key);
        let ghost before = *self;
        match at {
            Some(i) => {
                self.slots.set(i, Slot { key: key.to_owned(), value });
                proof {
                    let after = *self;
                    assert forall|j: int| 0 <= j < after.slots@.len() implies (
                    #[trigger] after.slots@[j]).key@ == before.slots@[j].key@ by {}
                    assert(after.wf()) by {
                        assert forall|a: int, b: int| 0 <= a < b < after.slots@.len() implies (
                        #[trigger] after.slots@[a]).key@ != (#[trigger] after.slots@[b]).key@ by {
                            assert(before.slots@[a].key@ != before.slots@[b].key@);
                        }
                    }
                    assert forall|k: Seq<char>, j: int| after.holds(j, k) == before.holds(j, k) by {}
                    assert forall|k: Seq<char>| #[trigger]
                        after@.dom().contains(k) implies after@[k] == before@.insert(key@, value)[k] by {
                        let ja = choose|j: int| after.holds(j, k);
                        let jb = choose|j: int| before.holds(j, k);
                        assert(after.holds(ja, k));
                        assert(before.holds(ja, k));
                        assert(before.holds(jb, k));
                        assert(ja == jb);
                        if k == key@ {
                            assert(before.holds(i as int, k));
                            assert(ja == i);
                        }
                    }
                    assert(after@ =~= before@.insert(key@, value));
                }
            },
            None => {
                self.slots.push(Slot { key: key.to_owned(), value });
                proof {
                    let after = *self;
                    let n = before.slots@.len() as int;
                    assert(after.wf()) by {
                        assert forall|a: int, b: int| 0 <= a < b < after.slots@.len() implies (
                        #[trigger] after.slots@[a]).key@ != (#[trigger] after.slots@[b]).key@ by {
                            assert(after.slots@[a] == before.slots@[a]);
                            if b < n {
                                assert(after.slots@[b] == before.slots@[b]);
                            } else {
                                assert(!before.holds(a, key@));
                            }
                        }
                    }
                    assert forall|k: Seq<char>, j: int| after.holds(j, k) == (before.holds(j, k) || (j
                        == n && k == key@)) by {}
                    assert forall|k: Seq<char>| #[trigger]
                        after@.dom().contains(k) implies after@[k] == before@.insert(key@, value)[k] by {
                        let ja = choose|j: int| after.holds(j, k);
                        assert(after.holds(ja, k));
                        if k == key@ {
                            assert(!before.holds(ja, k));
                            assert(ja == n);
                        } else {
                            let jb = choose|j: int| before.holds(j, k);
                            assert(before.holds(ja, k));
                            assert(before.holds(jb, k));
                            assert(ja == jb);
                        }
                    }
                    assert forall|k: Seq<char>|
                        before@.insert(key@, value).dom().contains(k) implies #[trigger] after@.dom().contains(
                        k,
                    ) by {
                        if k == key@ {
                            assert(after.holds(n, k));
                        } else {
                            let jb = choose|j: int| before.holds(j, k);
                            assert(after.holds(jb, k));
                        }
                    }
                    assert(after@ =~= before@.insert(key@, value));
                }
            },
        }
    }

    /// Takes out what is under `key`, if anything is.
    pub fn remove(&mut self, key: &str) -> (taken: Option<V>)
        requires
            old(self).wf(),
        ensures
            final(self).wf(),
            final(self)@ == old(self)@.remove(key@),
            match taken {
                Some(value) => old(self)@.dom().contains(key@) && value == old(self)@[key@],
                None => !old(self)@.dom().contains(key@),
            },
    {
        let at = self.position(key);
        let ghost before = *self;
        match at {
            Some(i) => {
                let slot = self.slots.remove(i);
                proof {
                    let after = *self;
                    let n = after.slots@.len() as int;
                    assert(before.holds(i as int, key@));
                    assert((choose|j: int| before.holds(j, key@)) == i);
                    assert forall|j: int| 0 <= j < n implies #[trigger] after.slots@[j] == before.slots@[if j
                        < i {
                        j
                    } else {
                        j + 1
                    }] by {}
                    assert(after.wf()) by {
                        assert forall|a: int, b: int| 0 <= a < b < n implies (
                        #[trigger] after.slots@[a]).key@ != (#[trigger] after.slots@[b]).key@ by {
                            let a0 = if a < i {
                                a
                            } else {
                                a + 1
                            };
                            let b0 = if b < i {
                                b
                            } else {
                                b + 1
                            };
                            assert(before.slots@[a0].key@ != before.slots@[b0].key@);
                        }
                    }
                    assert forall|k: Seq<char>| #[trigger]
                        after@.dom().contains(k) implies before@.remove(key@).dom().contains(k)
                        && after@[k] == before@[k] by {
                        let ja = choose|j: int| after.holds(j, k);
                        assert(after.holds(ja, k));
                        let j0 = if ja < i {
                            ja
                        } else {
                            ja + 1
                        };
                        assert(before.holds(j0, k));
                        let jb = choose|j: int| before.holds(j, k);
                        assert(before.holds(jb, k));
                        assert(jb == j0);
                        if k == key@ {
                            assert(before.slots@[j0].key@ != before.slots@[i as int].key@);
                        }
                    }
                    assert forall|k: Seq<char>|
                        before@.remove(key@).dom().contains(k) implies #[trigger] after@.dom().contains(
                        k,
                    ) by {
                        let jb = choose|j: int| before.holds(j, k);
                        assert(before.holds(jb, k));
                        assert(jb != i);
                        let ja = if jb < i {
                            jb
                        } else {
                            jb - 1
                        };
                        assert(after.holds(ja, k));
                    }
                    assert(after@ =~= before@.remove(key@));
                }
                Some(slot.value)
            },
            None => {
                assert(self@ =~= before@.remove(key@));
                None
            },
        }
    }

    /// Empties the store.
    pub fn clear(&mut self)
        ensures
            final(self).wf(),
            final(self)@ == Map::<Seq<char>, V>::empty(),
            final(self).count() == 0,
    {
        self.slots.clear();
        assert(self@ =~= Map::<Seq<char>, V>::empty());
    }

    /// The keys of the store, in the order in which they were first put in.
    pub closed spec fn keys(self) -> Seq<Seq<char>> {
        self.slots@.map_values(|slot: Slot<V>| slot.key@)
    }

    /// The keys are the keys of the map, each once.
    pub proof fn lemma_keys(self)
        requires
            self.wf(),
        ensures
            self.keys().len() == self.count(),
            forall|i: int| 0 <= i < self.keys().len() ==> self@.dom().contains(#[trigger] self.keys()[i]),
            forall|key: Seq<char>| #[trigger]
                self@.dom().contains(key) ==> self.keys().contains(key),
            forall|i: int, j: int|
                0 <= i < j < self.keys().len() ==> #[trigger] self.keys()[i] != #[trigger] self.keys()[j],
    {
        assert forall|i: int| 0 <= i < self.keys().len() implies self@.dom().contains(
            #[trigger] self.keys()[i],
        ) by {
            assert(self.holds(i, self.keys()[i]));
        }
        assert forall|key: Seq<char>| #[trigger] self@.dom().contains(key) implies self.keys().contains(
            key,
        ) by {
            let i = choose|i: int| self.holds(i, key);
            assert(self.keys()[i] == key);
        }
    }

    /// The key at place `i`, with the value under it.
    pub fn entry_at(&self, i: usize) -> (entry: (&str, &V))
        requires
            self.wf(),
            i < self.count(),
        ensures
            entry.0@ == self.keys()[i as int],
            self@.dom().contains(entry.0@),
            *entry.1 == self@[entry.0@],
    {
        proof {
            let key = self.slots@[i as int].key@;
            assert(self.holds(i as int, key));
            let chosen = choose|j: int| self.holds(j, key);
            assert(self.holds(chosen, key));
            assert(chosen == i);
        }
        (self.slots[i].key.as_str(), &self.slots[i].value)
    }

    /// The number of keys in the store.
    pub fn len(&self) -> (n: usize)
        ensures
            n == self.count(),
    {
        self.slots.len()
    }
}

} // verus!
