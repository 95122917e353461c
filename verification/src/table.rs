use vstd::prelude::*;

verus! {

/// A map from text keys to values that remembers the order in which its keys
/// came in. No key occurs twice.
pub struct Table<V> {
    keys: Vec<String>,
    values: Vec<V>,
}

/// Whether no text occurs twice in `keys`.
pub open spec fn distinct(keys: Seq<Seq<char>>) -> bool {
    forall|i: int, j: int| 0 <= i < j < keys.len() ==> keys[i] != keys[j]
}

/// Whether `key` occurs in `keys`.
pub open spec fn listed(keys: Seq<Seq<char>>, key: Seq<char>) -> bool {
    exists|i: int| 0 <= i < keys.len() && keys[i] == key
}

/// A position of `key` in `keys`.
pub open spec fn position(keys: Seq<Seq<char>>, key: Seq<char>) -> int {
    choose|i: int| 0 <= i < keys.len() && keys[i] == key
}

impl<V> Table<V> {
    #[verifier::type_invariant]
    spec fn valid(&self) -> bool {
        &&& self.keys.len() == self.values.len()
        &&& distinct(self.key_seq())
    }

    /// The keys, in the order in which they came in.
    pub closed spec fn key_seq(&self) -> Seq<Seq<char>> {
        self.keys@.map_values(|k: String| k@)
    }

    /// The values, each at the position of its key.
    pub closed spec fn value_seq(&self) -> Seq<V> {
        self.values@
    }

    /// The value that stands under `key`.
    pub open spec fn value_of(&self, key: Seq<char>) -> V {
        self.value_seq()[position(self.key_seq(), key)]
    }

    /// Whether the table is what this module keeps it to be.
    pub open spec fn wf(&self) -> bool {
        &&& self.key_seq().len() == self.value_seq().len()
        &&& distinct(self.key_seq())
    }

    /// A table without keys.
    pub fn new() -> (table: Self)
        ensures
            table@ == Map::<Seq<char>, V>::empty(),
            table.key_seq() == Seq::<Seq<char>>::empty(),
    {
        let table = Table { keys: Vec::new(), values: Vec::new() };
        assert(table.key_seq() =~= Seq::<Seq<char>>::empty());
        assert(table@ =~= Map::<Seq<char>, V>::empty());
        table
    }

    /// How many keys the table holds.
    pub fn len(&self) -> (n: usize)
        ensures
            n == self.key_seq().len(),
            n == self.value_seq().len(),
            self.wf(),
    {
        proof {
            use_type_invariant(self);
        }
        self.keys.len()
    }

    /// The position of `key`, if the table holds it.
    pub fn index_of(&self, key: &str) -> (found: Option<usize>)
        ensures
            self.wf(),
            match found {
                Some(i) => i < self.key_seq().len() && self.key_seq()[i as int] == key@
                    && self@.dom().contains(key@) && self@[key@] == self.value_seq()[i as int],
                None => !self@.dom().contains(key@),
            },
    {
        proof {
            use_type_invariant(self);
        }
        let mut i: usize = 0;
        while i < self.keys.len()
            invariant
                i <= self.keys.len(),
                self.wf(),
                forall|j: int| 0 <= j < i ==> self.key_seq()[j] != key@,
            decreases self.keys.len() - i,
        {
            if *self.keys[i].as_str() == *key {
                assert(self.key_seq()[i as int] == key@);
                proof {
                    self.lemma_at(i as int);
                }
                return Some(i);
            }
            i += 1;
        }
        None
    }

    /// Under distinct keys, the value of the key at `i` is the value at `i`.
    pub proof fn lemma_at(&self, i: int)
        requires
            self.wf(),
            0 <= i < self.key_seq().len(),
        ensures
            self@.dom().contains(self.key_seq()[i]),
            self@[self.key_seq()[i]] == self.value_seq()[i],
    {
        let key = self.key_seq()[i];
        let p = position(self.key_seq(), key);
        assert(p == i);
    }

    /// Whether the table holds `key`.
    pub fn contains_key(&self, key: &str) -> (found: bool)
        ensures
            found == self@.dom().contains(key@),
    {
        self.index_of(key).is_some()
    }

    /// The value that stands under `key`.
    pub fn get(&self, key: &str) -> (found: Option<&V>)
        ensures
            match found {
                Some(value) => self@.dom().contains(key@) && *value == self@[key@],
                None => !self@.dom().contains(key@),
            },
    {
        match self.index_of(key) {
            Some(i) => Some(&self.values[i]),
            None => None,
        }
    }

    /// The key at position `i`.
    pub fn key_at(&self, i: usize) -> (key: &String)
        requires
            i < self.key_seq().len(),
        ensures
            key@ == self.key_seq()[i as int],
            self@.dom().contains(key@),
    {
        proof {
            use_type_invariant(self);
            self.lemma_at(i as int);
        }
        &self.keys[i]
    }

    /// The value at position `i`.
    pub fn value_at(&self, i: usize) -> (value: &V)
        requires
            i < self.value_seq().len(),
        ensures
            *value == self.value_seq()[i as int],
            i < self.key_seq().len(),
            *value == self@[self.key_seq()[i as int]],
    {
        proof {
            use_type_invariant(self);
            self.lemma_at(i as int);
        }
        &self.values[i]
    }

    /// Puts `value` under `key`; what stood there before is handed back. A
    /// new key comes last, a known one keeps its place.
    pub fn insert(&mut self, key: String, value: V) -> (before: Option<V>)
        ensures
            final(self)@ == old(self)@.insert(key@, value),
            before == (if old(self)@.dom().contains(key@) {
                Some(old(self)@[key@])
            } else {
                None::<V>
            }),
            final(self).key_seq() == (if old(self)@.dom().contains(key@) {
                old(self).key_seq()
            } else {
                old(self).key_seq().push(key@)
            }),
    {
        proof {
            use_type_invariant(&*self);
        }
        let ghost old_keys = self.key_seq();
        let ghost old_values = self.value_seq();
        let ghost old_map = self@;
        match self.index_of(key.as_str()) {
            Some(i) => {
                let mut taken = Table { keys: Vec::new(), values: Vec::new() };
                assert(taken.key_seq() =~= Seq::<Seq<char>>::empty());
                std::mem::swap(self, &mut taken);
                let Table { keys, mut values } = taken;
                values.push(value);
                let before = values.swap_remove(i);
                assert(keys@.map_values(|k: String| k@) == old_keys);
                *self = Table { keys, values };
                proof {
                    assert(self.key_seq() == old_keys);
                    assert(self.value_seq() =~= old_values.update(i as int, value));
                    assert forall|k: Seq<char>| #[trigger] self@.dom().contains(k) implies self@[k]
                        == old_map.insert(key@, value)[k] by {
                        let p = position(old_keys, k);
                        if p == i {
                        } else {
                        }
                    }
                    assert(self@ =~= old_map.insert(key@, value));
                }
                Some(before)
            },
            None => {
                let mut taken = Table { keys: Vec::new(), values: Vec::new() };
                assert(taken.key_seq() =~= Seq::<Seq<char>>::empty());
                std::mem::swap(self, &mut taken);
                let Table { mut keys, mut values } = taken;
                keys.push(key);
                values.push(value);
                let ghost new_keys = keys@.map_values(|k: String| k@);
                proof {
                    assert(new_keys =~= old_keys.push(key@));
                    assert(distinct(new_keys)) by {
                        assert forall|a: int, b: int| 0 <= a < b < new_keys.len() implies new_keys[a]
                            != new_keys[b] by {
                            if b == old_keys.len() {
                                assert(old_keys[a] != key@);
                            }
                        }
                    }
                }
                *self = Table { keys, values };
                proof {
                    assert(self.key_seq() == new_keys);
                    assert forall|k: Seq<char>| self@.dom().contains(k) == old_map.insert(
                        key@,
                        value,
                    ).dom().contains(k) by {
                        if listed(new_keys, k) {
                            let p = position(new_keys, k);
                            if p < old_keys.len() {
                                assert(old_keys[p] == k);
                            }
                        }
                        if listed(old_keys, k) {
                            let p = position(old_keys, k);
                            assert(new_keys[p] == k);
                        }
                        if k == key@ {
                            assert(new_keys[old_keys.len() as int] == k);
                        }
                    }
                    assert forall|k: Seq<char>| #[trigger] self@.dom().contains(k) implies self@[k]
                        == old_map.insert(key@, value)[k] by {
                        let p = position(new_keys, k);
                        if k != key@ {
                            assert(p < old_keys.len());
                            assert(old_keys[p] == k);
                            let q = position(old_keys, k);
                            assert(p == q);
                        } else {
                            assert(new_keys[old_keys.len() as int] == k);
                            assert(p == old_keys.len());
                        }
                    }
                    assert(self@ =~= old_map.insert(key@, value));
                }
                None
            },
        }
    }

    /// Takes `key` and its value out; the value is handed back.
    pub fn remove(&mut self, key: &str) -> (before: Option<V>)
        ensures
            final(self)@ == old(self)@.remove(key@),
            before == (if old(self)@.dom().contains(key@) {
                Some(old(self)@[key@])
            } else {
                None::<V>
            }),
            final(self).key_seq() == (if old(self)@.dom().contains(key@) {
                old(self).key_seq().remove(position(old(self).key_seq(), key@))
            } else {
                old(self).key_seq()
            }),
    {
        proof {
            use_type_invariant(&*self);
        }
        let ghost old_keys = self.key_seq();
        let ghost old_values = self.value_seq();
        let ghost old_map = self@;
        match self.index_of(key) {
            Some(i) => {
                let mut taken = Table { keys: Vec::new(), values: Vec::new() };
                assert(taken.key_seq() =~= Seq::<Seq<char>>::empty());
                std::mem::swap(self, &mut taken);
                let Table { mut keys, mut values } = taken;
                let _ = keys.remove(i);
                let before = values.remove(i);
                let ghost new_keys = keys@.map_values(|k: String| k@);
                proof {
                    assert(position(old_keys, key@) == i);
                    assert(new_keys =~= old_keys.remove(i as int));
                    assert(distinct(new_keys)) by {
                        assert forall|a: int, b: int| 0 <= a < b < new_keys.len() implies new_keys[a]
                            != new_keys[b] by {
                            let a_before = if a < i { a } else { a + 1 };
                            let b_before = if b < i { b } else { b + 1 };
                            assert(new_keys[a] == old_keys[a_before]);
                            assert(new_keys[b] == old_keys[b_before]);
                        }
                    }
                }
                *self = Table { keys, values };
                proof {
                    assert(self.key_seq() == new_keys);
                    assert(self.value_seq() =~= old_values.remove(i as int));
                    assert forall|k: Seq<char>| self@.dom().contains(k) == old_map.remove(
                        key@,
                    ).dom().contains(k) by {
                        if listed(new_keys, k) {
                            let p = position(new_keys, k);
                            let shifted = if p < i { p } else { p + 1 };
                            assert(old_keys[shifted] == k);
                        }
                        if listed(old_keys, k) && k != key@ {
                            let p = position(old_keys, k);
                            let shifted = if p < i { p } else { p - 1 };
                            assert(new_keys[shifted] == k);
                        }
                    }
                    assert forall|k: Seq<char>| #[trigger] self@.dom().contains(k) implies self@[k]
                        == old_map.remove(key@)[k] by {
                        let p = position(new_keys, k);
                        let shifted = if p < i { p } else { p + 1 };
                        assert(old_keys[shifted] == k);
                        let q = position(old_keys, k);
                        assert(q == shifted);
                    }
                    assert(self@ =~= old_map.remove(key@));
                }
                Some(before)
            },
            None => None,
        }
    }
}

impl<V> View for Table<V> {
    type V = Map<Seq<char>, V>;

    /// The value of each key.
    open spec fn view(&self) -> Map<Seq<char>, V> {
        Map::new(|key: Seq<char>| listed(self.key_seq(), key), |key: Seq<char>| self.value_of(key))
    }
}

} // verus!
