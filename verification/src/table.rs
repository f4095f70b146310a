//! A small map keyed by text, kept as two parallel vectors in which no key
//! occurs twice. It backs the peer table and the connection table, whose
//! entries are few and short-lived.

use vstd::prelude::*;
use vstd::string::*;

verus! {

/// A map from text keys to values with at most one entry per key.
pub struct Table<V> {
    keys: Vec<String>,
    values: Vec<V>,
}

impl<V> Table<V> {
    /// The keys are pairwise different and each has its value.
    pub closed spec fn wf(&self) -> bool {
        &&& self.keys.len() == self.values.len()
        &&& forall|i: int, j: int|
            0 <= i < j < self.keys.len() ==> self.keys[i]@ != self.keys[j]@
    }

    /// The keys in the order in which they were first inserted.
    pub closed spec fn key_seq(&self) -> Seq<Seq<char>> {
        Seq::new(self.keys.len() as nat, |i: int| self.keys[i]@)
    }

    /// The values, each at the position of its key in [`Self::key_seq`].
    pub closed spec fn value_seq(&self) -> Seq<V> {
        self.values@
    }

    /// The table as a map.
    pub open spec fn view(&self) -> Map<Seq<char>, V> {
        Map::new(
            |k: Seq<char>| self.key_seq().contains(k),
            |k: Seq<char>| self.value_seq()[self.key_seq().index_of(k)],
        )
    }

    /// In a well-formed table the two sequences have one length, the keys
    /// are pairwise different, and the map has exactly these entries.
    pub proof fn lemma_entries(&self)
        requires
            self.wf(),
        ensures
            self.key_seq().len() == self.value_seq().len(),
            self.key_seq().no_duplicates(),
            forall|i: int|
                0 <= i < self.key_seq().len() ==> {
                    &&& #[trigger] self@.contains_key(self.key_seq()[i])
                    &&& self@[self.key_seq()[i]] == self.value_seq()[i]
                },
            forall|k: Seq<char>| #[trigger]
                self@.contains_key(k) ==> {
                    &&& 0 <= self.key_seq().index_of(k) < self.key_seq().len()
                    &&& self.key_seq()[self.key_seq().index_of(k)] == k
                },
    {
        let ks = self.key_seq();
        assert(ks.no_duplicates()) by {
            assert forall|i: int, j: int| 0 <= i < ks.len() && 0 <= j < ks.len() && i != j implies ks[i]
                != ks[j] by {
                if i < j {
                    assert(self.keys[i]@ != self.keys[j]@);
                } else {
                    assert(self.keys[j]@ != self.keys[i]@);
                }
            }
        }
        assert forall|i: int| 0 <= i < ks.len() implies {
            &&& #[trigger] self@.contains_key(ks[i])
            &&& self@[ks[i]] == self.value_seq()[i]
        } by {
            assert(ks.contains(ks[i]));
            let j = ks.index_of(ks[i]);
            assert(0 <= j < ks.len() && ks[j] == ks[i]);
            assert(j == i);
        }
    }

    /// An empty table.
    pub fn new() -> (t: Self)
        ensures
            t.wf(),
            t@ == Map::<Seq<char>, V>::empty(),
            t.key_seq() == Seq::<Seq<char>>::empty(),
    {
        let t = Table { keys: Vec::new(), values: Vec::new() };
        assert(t.key_seq() =~= Seq::<Seq<char>>::empty());
        assert(t@ =~= Map::<Seq<char>, V>::empty());
        t
    }

    /// The number of entries.
    pub fn len(&self) -> (n: usize)
        requires
            self.wf(),
        ensures
            n == self.key_seq().len(),
            n == self@.dom().len(),
            self@.dom().finite(),
    {
        proof {
            self.lemma_entries();
            let ks = self.key_seq();
            ks.unique_seq_to_set();
            assert(ks.to_set() =~= self@.dom());
        }
        self.keys.len()
    }

    /// The position of `key` among the keys, if it is there.
    fn position(&self, key: &String) -> (r: Option<usize>)
        requires
            self.wf(),
        ensures
            match r {
                Some(i) => i < self.key_seq().len() && self.key_seq()[i as int] == key@,
                None => !self.key_seq().contains(key@),
            },
    {
        let mut i: usize = 0;
        while i < self.keys.len()
            invariant
                i <= self.keys.len(),
                forall|k: int| 0 <= k < i ==> self.keys[k]@ != key@,
            decreases self.keys.len() - i,
        {
            if self.keys[i] == *key {
                return Some(i);
            }
            i += 1;
        }
        None
    }

    /// Whether `key` has an entry.
    pub fn contains_key(&self, key: &str) -> (b: bool)
        requires
            self.wf(),
        ensures
            b == self@.contains_key(key@),
    {
        let k = String::from_str(key);
        self.position(&k).is_some()
    }

    /// The value stored under `key`.
    pub fn get(&self, key: &str) -> (r: Option<&V>)
        requires
            self.wf(),
        ensures
            match r {
                Some(v) => self@.contains_key(key@) && *v == self@[key@],
                None => !self@.contains_key(key@),
            },
    {
        let k = String::from_str(key);
        proof {
            self.lemma_entries();
        }
        match self.position(&k) {
            Some(i) => Some(&self.values[i]),
            None => None,
        }
    }

    /// Stores `value` under `key`, in place of the value that was there,
    /// which is returned. A new key goes behind the others.
    pub fn insert(&mut self, key: String, value: V) -> (previous: Option<V>)
        requires
            old(self).wf(),
        ensures
            final(self).wf(),
            final(self)@ == old(self)@.insert(key@, value),
            previous == (if old(self)@.contains_key(key@) {
                Some(old(self)@[key@])
            } else {
                None
            }),
            final(self).key_seq() == (if old(self)@.contains_key(key@) {
                old(self).key_seq()
            } else {
                old(self).key_seq().push(key@)
            }),
    {
        proof {
            self.lemma_entries();
        }
        let ghost before = *self;
        match self.position(&key) {
            Some(i) => {
                self.values.push(value);
                let old_value = self.values.swap_remove(i);
                proof {
                    assert(self.key_seq() =~= before.key_seq());
                    assert(self.value_seq() =~= before.value_seq().update(i as int, value));
                    assert(self.wf());
                    self.lemma_entries();
                    assert(self@ =~= before@.insert(key@, value)) by {
                        assert forall|k: Seq<char>| self@.contains_key(k) implies #[trigger] self@[k]
                            == before@.insert(key@, value)[k] by {
                            let j = self.key_seq().index_of(k);
                            assert(before@.contains_key(k));
                        }
                    }
                }
                Some(old_value)
            },
            None => {
                self.keys.push(key);
                self.values.push(value);
                proof {
                    assert(self.key_seq() =~= before.key_seq().push(key@));
                    assert(self.value_seq() =~= before.value_seq().push(value));
                    assert(self.wf()) by {
                        assert forall|i: int, j: int| 0 <= i < j < self.keys.len() implies self.keys[i]@
                            != self.keys[j]@ by {
                            if j == self.keys.len() - 1 {
                                assert(before.key_seq()[i] == before.keys[i]@);
                                assert(before.key_seq().contains(before.keys[i]@));
                            } else {
                                assert(before.keys[i]@ != before.keys[j]@);
                            }
                        }
                    }
                    self.lemma_entries();
                    assert(self@ =~= before@.insert(key@, value)) by {
                        assert forall|k: Seq<char>| #[trigger]
                            before@.insert(key@, value).contains_key(k) implies self@.contains_key(
                            k,
                        ) by {
                            if k == key@ {
                                assert(self.key_seq()[self.keys.len() - 1] == k);
                            } else {
                                let j = before.key_seq().index_of(k);
                                assert(self.key_seq()[j] == k);
                            }
                        }
                        assert forall|k: Seq<char>| self@.contains_key(k) implies #[trigger] self@[k]
                            == before@.insert(key@, value)[k] by {
                            let j = self.key_seq().index_of(k);
                            if j < before.key_seq().len() {
                                assert(before.key_seq()[j] == k);
                                assert(before@.contains_key(k));
                            }
                        }
                    }
                }
                None
            },
        }
    }

    /// Takes the entry of `key` out and returns its value. The other keys
    /// keep their order.
    pub fn remove(&mut self, key: &str) -> (previous: Option<V>)
        requires
            old(self).wf(),
        ensures
            final(self).wf(),
            final(self)@ == old(self)@.remove(key@),
            previous == (if old(self)@.contains_key(key@) {
                Some(old(self)@[key@])
            } else {
                None
            }),
            final(self).key_seq() == (if old(self)@.contains_key(key@) {
                old(self).key_seq().remove(old(self).key_seq().index_of(key@))
            } else {
                old(self).key_seq()
            }),
    {
        let k = String::from_str(key);
        proof {
            self.lemma_entries();
        }
        let ghost before = *self;
        match self.position(&k) {
            Some(i) => {
                self.keys.remove(i);
                let old_value = self.values.remove(i);
                proof {
                    let bk = before.key_seq();
                    assert(self.key_seq() =~= bk.remove(i as int));
                    assert(self.value_seq() =~= before.value_seq().remove(i as int));
                    assert(self.wf()) by {
                        assert forall|a: int, b: int| 0 <= a < b < self.keys.len() implies self.keys[a]@
                            != self.keys[b]@ by {
                            let a0 = if a < i { a } else { a + 1 };
                            let b0 = if b < i { b } else { b + 1 };
                            assert(before.keys[a0]@ != before.keys[b0]@);
                        }
                    }
                    self.lemma_entries();
                    assert(self@ =~= before@.remove(key@)) by {
                        assert forall|x: Seq<char>| #[trigger]
                            before@.remove(key@).contains_key(x) implies self@.contains_key(x) by {
                            let j = bk.index_of(x);
                            assert(j != i);
                            let j1 = if j < i { j } else { j - 1 };
                            assert(self.key_seq()[j1] == x);
                        }
                        assert forall|x: Seq<char>| self@.contains_key(x) implies x != key@
                            && before@.contains_key(x) && #[trigger] self@[x] == before@[x] by {
                            let j = self.key_seq().index_of(x);
                            let j0 = if j < i { j } else { j + 1 };
                            assert(bk[j0] == x);
                            assert(before@.contains_key(bk[j0]));
                            assert(j0 != i);
                        }
                    }
                    assert(bk.index_of(key@) == i);
                }
                Some(old_value)
            },
            None => {
                proof {
                    assert(self@ =~= before@.remove(key@));
                }
                None
            },
        }
    }

    /// The key at position `i`.
    pub fn key_at(&self, i: usize) -> (k: &String)
        requires
            self.wf(),
            i < self.key_seq().len(),
        ensures
            k@ == self.key_seq()[i as int],
    {
        &self.keys[i]
    }

    /// The value at position `i`.
    pub fn value_at(&self, i: usize) -> (v: &V)
        requires
            self.wf(),
            i < self.key_seq().len(),
        ensures
            *v == self.value_seq()[i as int],
            self@.contains_key(self.key_seq()[i as int]),
            *v == self@[self.key_seq()[i as int]],
    {
        proof {
            self.lemma_entries();
        }
        &self.values[i]
    }
}

} // verus!
