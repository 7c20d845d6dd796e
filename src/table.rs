use vstd::prelude::*;

use crate::types::{bytes_equal, copy_bytes};

verus! {

/// A map from byte strings to values, kept as two parallel vectors with
/// pairwise distinct keys.
pub struct ByteTable<V> {
    keys: Vec<Vec<u8>>,
    vals: Vec<V>,
}

impl<V> ByteTable<V> {
    /// The keys are pairwise distinct and every key has one value.
    pub closed spec fn wf(&self) -> bool {
        &&& self.keys@.len() == self.vals@.len()
        &&& forall|i: int, j: int|
            0 <= i < self.keys@.len() && 0 <= j < self.keys@.len() && i != j
                ==> #[trigger] self.keys@[i]@ != #[trigger] self.keys@[j]@
    }

    pub closed spec fn has_key_at(&self, k: Seq<u8>, i: int) -> bool {
        0 <= i < self.keys@.len() && self.keys@[i]@ == k
    }

    pub closed spec fn index_of(&self, k: Seq<u8>) -> int {
        choose|i: int| self.has_key_at(k, i)
    }

    /// The table as a map from key bytes to values.
    pub closed spec fn view(&self) -> Map<Seq<u8>, V> {
        Map::new(
            |k: Seq<u8>| exists|i: int| self.has_key_at(k, i),
            |k: Seq<u8>| self.vals@[self.index_of(k)],
        )
    }

    proof fn lemma_index_unique(&self, k: Seq<u8>, i: int)
        requires
            self.wf(),
            self.has_key_at(k, i),
        ensures
            self.view().contains_key(k),
            self.index_of(k) == i,
            self.view()[k] == self.vals@[i],
    {
        assert(self.has_key_at(k, i));
        let j = self.index_of(k);
        assert(self.has_key_at(k, j));
        if i != j {
            assert(self.keys@[i]@ != self.keys@[j]@);
        }
    }

    /// An empty table.
    pub fn new() -> (r: ByteTable<V>)
        ensures
            r.wf(),
            r.view() == Map::<Seq<u8>, V>::empty(),
    {
        let r = ByteTable { keys: Vec::new(), vals: Vec::new() };
        assert(r.view() =~= Map::<Seq<u8>, V>::empty());
        r
    }

    fn find(&self, key: &[u8]) -> (r: Option<usize>)
        requires
            self.wf(),
        ensures
            match r {
                Some(i) => self.has_key_at(key@, i as int),
                None => !self.view().contains_key(key@),
            },
    {
        let mut i: usize = 0;
        while i < self.keys.len()
            invariant
                self.wf(),
                i <= self.keys@.len(),
                forall|j: int| 0 <= j < i ==> self.keys@[j]@ != key@,
            decreases self.keys@.len() - i,
        {
            if bytes_equal(self.keys[i].as_slice(), key) {
                return Some(i);
            }
            i = i + 1;
        }
        None
    }

    /// The value stored under `key`, if any.
    pub fn get(&self, key: &[u8]) -> (r: Option<&V>)
        requires
            self.wf(),
        ensures
            match r {
                Some(v) => self.view().contains_key(key@) && *v == self.view()[key@],
                None => !self.view().contains_key(key@),
            },
    {
        match self.find(key) {
            Some(i) => {
                proof {
                    self.lemma_index_unique(key@, i as int);
                }
                Some(&self.vals[i])
            },
            None => None,
        }
    }

    /// Stores `v` under `key`, replacing what was there.
    pub fn insert(&mut self, key: Vec<u8>, v: V)
        requires
            old(self).wf(),
        ensures
            final(self).wf(),
            final(self).view() == old(self).view().insert(key@, v),
    {
        let ghost pre = *self;
        match self.find(key.as_slice()) {
            Some(i) => {
                self.vals.set(i, v);
                proof {
                    pre.lemma_index_unique(key@, i as int);
                    assert forall|k: Seq<u8>| #[trigger] self.view().contains_key(k)
                        <==> pre.view().insert(key@, v).contains_key(k) by {
                        if pre.view().contains_key(k) {
                            let j = pre.index_of(k);
                            assert(self.has_key_at(k, j));
                        }
                        if self.view().contains_key(k) {
                            let j = self.index_of(k);
                            assert(pre.has_key_at(k, j));
                        }
                    }
                    assert forall|k: Seq<u8>| #[trigger] self.view().contains_key(k)
                        implies self.view()[k] == pre.view().insert(key@, v)[k] by {
                        let j = self.index_of(k);
                        assert(self.has_key_at(k, j));
                        self.lemma_index_unique(k, j);
                        if k == key@ {
                            assert(j == i);
                        } else {
                            assert(pre.has_key_at(k, j));
                            pre.lemma_index_unique(k, j);
                        }
                    }
                    assert(self.view() =~= pre.view().insert(key@, v));
                }
            },
            None => {
                let ghost kv = key@;
                self.keys.push(key);
                self.vals.push(v);
                proof {
                    let n = pre.keys@.len() as int;
                    assert(self.has_key_at(kv, n));
                    assert forall|i: int, j: int|
                        0 <= i < self.keys@.len() && 0 <= j < self.keys@.len() && i != j
                            implies #[trigger] self.keys@[i]@ != #[trigger] self.keys@[j]@ by {
                        if i < n && j < n {
                            assert(pre.keys@[i] == self.keys@[i]);
                            assert(pre.keys@[j] == self.keys@[j]);
                        } else if i == n {
                            assert(pre.keys@[j] == self.keys@[j]);
                            if self.keys@[j]@ == kv {
                                assert(pre.has_key_at(kv, j));
                            }
                        } else {
                            assert(pre.keys@[i] == self.keys@[i]);
                            if self.keys@[i]@ == kv {
                                assert(pre.has_key_at(kv, i));
                            }
                        }
                    }
                    assert forall|k: Seq<u8>| #[trigger] self.view().contains_key(k)
                        <==> pre.view().insert(kv, v).contains_key(k) by {
                        if pre.view().contains_key(k) {
                            let j = pre.index_of(k);
                            assert(self.has_key_at(k, j));
                        }
                        if self.view().contains_key(k) && k != kv {
                            let j = self.index_of(k);
                            assert(j != n);
                            assert(pre.has_key_at(k, j));
                        }
                    }
                    assert forall|k: Seq<u8>| #[trigger] self.view().contains_key(k)
                        implies self.view()[k] == pre.view().insert(kv, v)[k] by {
                        let j = self.index_of(k);
                        assert(self.has_key_at(k, j));
                        self.lemma_index_unique(k, j);
                        if k == kv {
                            self.lemma_index_unique(k, n);
                        } else {
                            assert(j != n);
                            assert(pre.has_key_at(k, j));
                            pre.lemma_index_unique(k, j);
                        }
                    }
                    assert(self.view() =~= pre.view().insert(kv, v));
                }
            },
        }
    }
}

impl<V: Copy> ByteTable<V> {
    /// A separate table with the same contents.
    pub fn duplicate(&self) -> (r: ByteTable<V>)
        requires
            self.wf(),
        ensures
            r.wf(),
            r.view() == self.view(),
    {
        let mut keys: Vec<Vec<u8>> = Vec::new();
        let mut vals: Vec<V> = Vec::new();
        let mut i: usize = 0;
        while i < self.keys.len()
            invariant
                self.wf(),
                i <= self.keys@.len(),
                keys@.len() == i,
                vals@.len() == i,
                forall|j: int| 0 <= j < i ==> (#[trigger] keys@[j])@ == self.keys@[j]@,
                forall|j: int| 0 <= j < i ==> #[trigger] vals@[j] == self.vals@[j],
            decreases self.keys@.len() - i,
        {
            keys.push(copy_bytes(self.keys[i].as_slice()));
            vals.push(self.vals[i]);
            i = i + 1;
        }
        let r = ByteTable { keys, vals };
        proof {
            assert forall|a: int, b: int|
                0 <= a < r.keys@.len() && 0 <= b < r.keys@.len() && a != b
                    implies #[trigger] r.keys@[a]@ != #[trigger] r.keys@[b]@ by {
                assert(self.keys@[a]@ != self.keys@[b]@);
            }
            assert forall|k: Seq<u8>| #[trigger] r.view().contains_key(k)
                <==> self.view().contains_key(k) by {
                if self.view().contains_key(k) {
                    let j = self.index_of(k);
                    assert(r.has_key_at(k, j));
                }
                if r.view().contains_key(k) {
                    let j = r.index_of(k);
                    assert(self.has_key_at(k, j));
                }
            }
            assert forall|k: Seq<u8>| #[trigger] r.view().contains_key(k)
                implies r.view()[k] == self.view()[k] by {
                let j = r.index_of(k);
                assert(r.has_key_at(k, j));
                r.lemma_index_unique(k, j);
                assert(self.has_key_at(k, j));
                self.lemma_index_unique(k, j);
            }
            assert(r.view() =~= self.view());
        }
        r
    }
}

} // verus!
