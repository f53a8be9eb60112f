//! The store-level primitive: an in-memory key-value namespace with string
//! keys and unique-key insertion, the single-process stand-in for one named
//! tree of the embedded database. Each mutating operation happens under
//! `&mut` exclusive access, so it is atomic with respect to any interleaving
//! of store operations.

use vstd::prelude::*;

verus! {

/// Does the sequence of stored keys contain a key whose characters are `k`?
pub(crate) open spec fn keys_contain(keys: Seq<String>, k: Seq<char>) -> bool {
    exists|i: int| 0 <= i < keys.len() && keys[i]@ == k
}

/// The index at which `k` is stored; meaningful only when the keys are
/// unique and `k` occurs among them.
pub(crate) open spec fn key_index(keys: Seq<String>, k: Seq<char>) -> int {
    choose|i: int| 0 <= i < keys.len() && keys[i]@ == k
}

/// One key-value namespace. Keys are unique, so the contents abstract to a
/// map from key characters to values.
pub struct Tree<V> {
    keys: Vec<String>,
    vals: Vec<V>,
}

impl<V: View> View for Tree<V> {
    type V = Map<Seq<char>, V::V>;

    closed spec fn view(&self) -> Map<Seq<char>, V::V> {
        Map::new(
            |k: Seq<char>| keys_contain(self.keys@, k),
            |k: Seq<char>| self.vals@[key_index(self.keys@, k)]@,
        )
    }
}

impl<V: View> Tree<V> {
    /// Well-formed: one value per key, and no key stored twice.
    pub closed spec fn wf(&self) -> bool {
        &&& self.keys@.len() == self.vals@.len()
        &&& forall|i: int, j: int|
            0 <= i < j < self.keys@.len() ==> self.keys@[i]@ != self.keys@[j]@
    }

    proof fn lemma_key_index(&self, k: Seq<char>, i: int)
        requires
            self.wf(),
            0 <= i < self.keys@.len(),
            self.keys@[i]@ == k,
        ensures
            key_index(self.keys@, k) == i,
            self@.contains_key(k),
            self@[k] == self.vals@[i]@,
    {
        assert(keys_contain(self.keys@, k));
        let j = key_index(self.keys@, k);
        assert(0 <= j < self.keys@.len() && self.keys@[j]@ == k);
        if i != j {
            assert(self.keys@[i]@ != self.keys@[j]@);
        }
    }

    /// An empty namespace.
    pub fn new() -> (t: Tree<V>)
        ensures
            t.wf(),
            t@ == Map::<Seq<char>, V::V>::empty(),
    {
        let t = Tree { keys: Vec::new(), vals: Vec::new() };
        proof {
            assert(t@ =~= Map::<Seq<char>, V::V>::empty());
        }
        t
    }

    /// The index holding `id`, if any.
    fn find(&self, id: &str) -> (r: Option<usize>)
        requires
            self.wf(),
        ensures
            match r {
                Some(i) => i < self.keys@.len() && self.keys@[i as int]@ == id@
                    && self@.contains_key(id@) && self@[id@] == self.vals@[i as int]@,
                None => !self@.contains_key(id@),
            },
    {
        let key = id.to_owned();
        let n = self.keys.len();
        let mut i: usize = 0;
        while i < n
            invariant
                self.wf(),
                n == self.keys@.len(),
                i <= n,
                key@ == id@,
                forall|j: int| 0 <= j < i ==> self.keys@[j]@ != id@,
            decreases n - i,
        {
            if self.keys[i] == key {
                proof {
                    self.lemma_key_index(id@, i as int);
                }
                return Some(i);
            }
            i += 1;
        }
        proof {
            assert(!keys_contain(self.keys@, id@));
        }
        None
    }

    /// Whether the namespace currently holds `id`.
    pub fn contains_key(&self, id: &str) -> (r: bool)
        requires
            self.wf(),
        ensures
            r == self@.contains_key(id@),
    {
        self.find(id).is_some()
    }

    /// A borrow of the value stored under `id`, if any.
    pub fn get<'a>(&'a self, id: &str) -> (r: Option<&'a V>)
        requires
            self.wf(),
        ensures
            match r {
                Some(v) => self@.contains_key(id@) && v@ == self@[id@],
                None => !self@.contains_key(id@),
            },
    {
        match self.find(id) {
            Some(i) => Some(&self.vals[i]),
            None => None,
        }
    }

    /// Insert-if-absent: stores `v` under `id` only when `id` is free, and
    /// reports whether it did. A single operation, so two concurrent inserts
    /// of one key can never both succeed.
    pub fn insert_new(&mut self, id: &str, v: V) -> (r: bool)
        requires
            old(self).wf(),
        ensures
            final(self).wf(),
            r == !old(self)@.contains_key(id@),
            r ==> final(self)@ == old(self)@.insert(id@, v@),
            !r ==> *final(self) == *old(self),
    {
        match self.find(id) {
            Some(_) => false,
            None => {
                let ghost old_self = *self;
                self.keys.push(id.to_owned());
                self.vals.push(v);
                proof {
                    let n = old_self.keys@.len();
                    assert(self.keys@[n as int]@ == id@);
                    assert forall|i: int, j: int|
                        0 <= i < j < self.keys@.len() implies self.keys@[i]@ != self.keys@[j]@ by {
                        if j < n {
                            assert(old_self.keys@[i]@ != old_self.keys@[j]@);
                        } else {
                            assert(keys_contain(old_self.keys@, old_self.keys@[i]@));
                        }
                    }
                    assert forall|k: Seq<char>| #[trigger] self@.contains_key(k)
                        || old_self@.insert(id@, v@).contains_key(k) implies
                        self@.contains_key(k) && old_self@.insert(id@, v@).contains_key(k)
                        && self@[k] == old_self@.insert(id@, v@)[k] by {
                        if k == id@ {
                            self.lemma_key_index(k, n as int);
                        } else {
                            if keys_contain(self.keys@, k) {
                                let i = choose|i: int|
                                    0 <= i < self.keys@.len() && self.keys@[i]@ == k;
                                assert(i < n);
                                assert(old_self.keys@[i]@ == k);
                                old_self.lemma_key_index(k, i);
                                self.lemma_key_index(k, i);
                            }
                            if keys_contain(old_self.keys@, k) {
                                let i = choose|i: int|
                                    0 <= i < old_self.keys@.len() && old_self.keys@[i]@ == k;
                                assert(self.keys@[i]@ == k);
                            }
                        }
                    }
                    assert(self@ =~= old_self@.insert(id@, v@));
                }
                true
            }
        }
    }

    /// Remove the value stored under `id` and return it, if any.
    pub fn remove(&mut self, id: &str) -> (r: Option<V>)
        requires
            old(self).wf(),
        ensures
            final(self).wf(),
            match r {
                Some(v) => old(self)@.contains_key(id@) && v@ == old(self)@[id@]
                    && final(self)@ == old(self)@.remove(id@),
                None => !old(self)@.contains_key(id@) && *final(self) == *old(self),
            },
    {
        match self.find(id) {
            Some(i) => {
                let ghost old_self = *self;
                let _key = self.keys.remove(i);
                let v = self.vals.remove(i);
                proof {
                    let n = old_self.keys@.len();
                    assert forall|a: int, b: int|
                        0 <= a < b < self.keys@.len() implies self.keys@[a]@ != self.keys@[b]@ by {
                        let oa = if a < i { a } else { a + 1 };
                        let ob = if b < i { b } else { b + 1 };
                        assert(self.keys@[a] == old_self.keys@[oa]);
                        assert(self.keys@[b] == old_self.keys@[ob]);
                        assert(old_self.keys@[oa]@ != old_self.keys@[ob]@);
                    }
                    assert forall|k: Seq<char>| #[trigger] self@.contains_key(k)
                        || old_self@.remove(id@).contains_key(k) implies
                        self@.contains_key(k) && old_self@.remove(id@).contains_key(k)
                        && self@[k] == old_self@.remove(id@)[k] by {
                        if keys_contain(self.keys@, k) {
                            let a = choose|a: int|
                                0 <= a < self.keys@.len() && self.keys@[a]@ == k;
                            let oa = if a < i { a } else { a + 1 };
                            assert(self.keys@[a] == old_self.keys@[oa]);
                            old_self.lemma_key_index(k, oa);
                            self.lemma_key_index(k, a);
                            if k == id@ {
                                old_self.lemma_key_index(k, i as int);
                            }
                        }
                        if old_self@.remove(id@).contains_key(k) {
                            let oa = choose|oa: int|
                                0 <= oa < old_self.keys@.len() && old_self.keys@[oa]@ == k;
                            if oa != i {
                                let a = if oa < i { oa } else { oa - 1 };
                                assert(self.keys@[a] == old_self.keys@[oa]);
                                assert(keys_contain(self.keys@, k));
                            } else {
                                old_self.lemma_key_index(k, i as int);
                            }
                        }
                    }
                    assert(self@ =~= old_self@.remove(id@));
                }
                Some(v)
            }
            None => None,
        }
    }
}

} // verus!
