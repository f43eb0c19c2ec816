use vstd::prelude::*;

verus! {

/// A key type that can be compared by its abstract value.
pub trait CacheKey: View + Sized {
    /// Tells whether two keys denote the same abstract key.
    fn same_key(&self, other: &Self) -> (r: bool)
        ensures
            r == (self@ == other@),
    ;
}

/// A map from keys to values kept as two parallel vectors with unique keys.
pub struct KeyedStore<K: CacheKey, V> {
    keys: Vec<K>,
    values: Vec<V>,
    map: Ghost<Map<<K as View>::V, V>>,
}

impl<K: CacheKey, V> View for KeyedStore<K, V> {
    type V = Map<<K as View>::V, V>;

    closed spec fn view(&self) -> Map<<K as View>::V, V> {
        self.map@
    }
}

impl<K: CacheKey, V> KeyedStore<K, V> {
    #[verifier::type_invariant]
    closed spec fn inv(&self) -> bool {
        &&& self.keys@.len() == self.values@.len()
        &&& forall|i: int|
            0 <= i < self.keys@.len() ==> #[trigger] self.map@.contains_key(self.keys@[i]@)
                && self.map@[self.keys@[i]@] == self.values@[i]
        &&& forall|k: <K as View>::V|
            #[trigger] self.map@.contains_key(k) ==> exists|i: int|
                0 <= i < self.keys@.len() && #[trigger] self.keys@[i]@ == k
        &&& forall|i: int, j: int|
            0 <= i < self.keys@.len() && 0 <= j < self.keys@.len() && i != j
                ==> #[trigger] self.keys@[i]@ != #[trigger] self.keys@[j]@
    }

    /// An empty store.
    pub fn new() -> (r: Self)
        ensures
            r@ == Map::<<K as View>::V, V>::empty(),
    {
        KeyedStore { keys: Vec::new(), values: Vec::new(), map: Ghost(Map::empty()) }
    }

    /// The number of distinct keys held.
    pub fn len(&self) -> (r: usize)
        ensures
            r == self@.dom().len(),
    {
        proof {
            use_type_invariant(self);
            self.lemma_dom_is_keys();
        }
        self.keys.len()
    }

    proof fn lemma_dom_is_keys(&self)
        requires
            self.inv(),
        ensures
            self.map@.dom() == self.keys@.map_values(|k: K| k@).to_set(),
            self.keys@.map_values(|k: K| k@).no_duplicates(),
            self.map@.dom().len() == self.keys@.len(),
    {
        let ks = self.keys@.map_values(|k: K| k@);
        assert forall|i: int, j: int| 0 <= i < ks.len() && 0 <= j < ks.len() && i != j
            implies ks[i] != ks[j] by {
            assert(self.keys@[i]@ != self.keys@[j]@);
        }
        assert forall|k| self.map@.dom().contains(k) <==> ks.to_set().contains(k) by {
            if self.map@.dom().contains(k) {
                let i = choose|i: int| 0 <= i < self.keys@.len() && #[trigger] self.keys@[i]@ == k;
                assert(ks[i] == k);
            }
            if ks.to_set().contains(k) {
                let i = choose|i: int| 0 <= i < ks.len() && ks[i] == k;
                assert(self.map@.contains_key(self.keys@[i]@));
            }
        }
        assert(self.map@.dom() =~= ks.to_set());
        ks.unique_seq_to_set();
    }

    /// The position of the key, if it is held.
    fn find(&self, k: &K) -> (r: Option<usize>)
        ensures
            match r {
                Some(i) => i < self.keys@.len() && self.keys@[i as int]@ == k@,
                None => !self@.contains_key(k@),
            },
    {
        proof {
            use_type_invariant(self);
        }
        let n = self.keys.len();
        let mut i: usize = 0;
        while i < n
            invariant
                n == self.keys@.len(),
                i <= n,
                forall|j: int| 0 <= j < i ==> self.keys@[j]@ != k@,
            decreases n - i,
        {
            if self.keys[i].same_key(k) {
                return Some(i);
            }
            i = i + 1;
        }
        proof {
            if self.map@.contains_key(k@) {
                let j = choose|j: int| 0 <= j < self.keys@.len() && #[trigger] self.keys@[j]@ == k@;
                assert(self.keys@[j]@ != k@);
            }
        }
        None
    }

    /// The value stored under the key, if any.
    pub fn get(&self, k: &K) -> (r: Option<&V>)
        ensures
            match r {
                Some(v) => self@.contains_key(k@) && *v == self@[k@],
                None => !self@.contains_key(k@),
            },
    {
        proof {
            use_type_invariant(self);
        }
        match self.find(k) {
            Some(i) => {
                proof {
                    assert(self.map@.contains_key(self.keys@[i as int]@));
                }
                Some(&self.values[i])
            },
            None => None,
        }
    }

    /// Stores the value under the key, replacing any value held there.
    pub fn insert(&mut self, k: K, v: V)
        ensures
            final(self)@ == old(self)@.insert(k@, v),
    {
        proof {
            use_type_invariant(&*self);
        }
        let found = self.find(&k);
        let mut old_store = KeyedStore::new();
        std::mem::swap(self, &mut old_store);
        proof {
            use_type_invariant(&old_store);
        }
        let KeyedStore { mut keys, mut values, map } = old_store;
        let ghost new_map = map@.insert(k@, v);
        match found {
            Some(i) => {
                keys.set(i, k);
                values.set(i, v);
                proof {
                    assert forall|a: int, b: int|
                        0 <= a < keys@.len() && 0 <= b < keys@.len() && a != b
                            implies #[trigger] keys@[a]@ != #[trigger] keys@[b]@ by {
                        if a != i && b != i {
                            assert(old_store.keys@[a]@ != old_store.keys@[b]@);
                        } else if a == i {
                            assert(old_store.keys@[i as int]@ != old_store.keys@[b]@);
                        } else {
                            assert(old_store.keys@[a]@ != old_store.keys@[i as int]@);
                        }
                    }
                    assert forall|a: int| 0 <= a < keys@.len() implies #[trigger] new_map.contains_key(keys@[a]@)
                        && new_map[keys@[a]@] == values@[a] by {
                        if a != i {
                            assert(old_store.keys@[a]@ != old_store.keys@[i as int]@);
                            assert(old_store.map@.contains_key(old_store.keys@[a]@));
                        }
                    }
                    assert forall|q: <K as View>::V| #[trigger] new_map.contains_key(q) implies exists|a: int|
                        0 <= a < keys@.len() && #[trigger] keys@[a]@ == q by {
                        if q != k@ {
                            let a = choose|a: int| 0 <= a < old_store.keys@.len() && #[trigger] old_store.keys@[a]@ == q;
                            assert(keys@[a]@ == q);
                        } else {
                            assert(keys@[i as int]@ == q);
                        }
                    }
                }
            },
            None => {
                keys.push(k);
                values.push(v);
                proof {
                    let last = keys@.len() - 1;
                    assert forall|a: int, b: int|
                        0 <= a < keys@.len() && 0 <= b < keys@.len() && a != b
                            implies #[trigger] keys@[a]@ != #[trigger] keys@[b]@ by {
                        if a != last && b != last {
                            assert(old_store.keys@[a]@ != old_store.keys@[b]@);
                        } else if a == last {
                            assert(old_store.map@.contains_key(old_store.keys@[b]@));
                        } else {
                            assert(old_store.map@.contains_key(old_store.keys@[a]@));
                        }
                    }
                    assert forall|a: int| 0 <= a < keys@.len() implies #[trigger] new_map.contains_key(keys@[a]@)
                        && new_map[keys@[a]@] == values@[a] by {
                        if a != last {
                            assert(old_store.map@.contains_key(old_store.keys@[a]@));
                        }
                    }
                    assert forall|q: <K as View>::V| #[trigger] new_map.contains_key(q) implies exists|a: int|
                        0 <= a < keys@.len() && #[trigger] keys@[a]@ == q by {
                        if q != k@ {
                            let a = choose|a: int| 0 <= a < old_store.keys@.len() && #[trigger] old_store.keys@[a]@ == q;
                            assert(keys@[a]@ == q);
                        } else {
                            assert(keys@[last]@ == q);
                        }
                    }
                }
            },
        }
        *self = KeyedStore { keys, values, map: Ghost(new_map) };
    }
}

} // verus!
