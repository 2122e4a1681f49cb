//! A string-keyed table with at most one entry per key, kept in insertion
//! order; writing an existing key replaces its value in place.
use vstd::prelude::*;

verus! {

pub struct Table<V> {
    entries: Vec<(String, V)>,
}

impl<V> Table<V> {
    /// No two entries share a key.
    pub closed spec fn wf(&self) -> bool {
        forall|i: int, j: int|
            0 <= i < self.entries@.len() && 0 <= j < self.entries@.len() && i != j
                ==> #[trigger] self.entries@[i].0@ != #[trigger] self.entries@[j].0@
    }

    pub closed spec fn has_key_at(&self, k: Seq<char>, i: int) -> bool {
        0 <= i < self.entries@.len() && self.entries@[i].0@ == k
    }

    closed spec fn index_of(&self, k: Seq<char>) -> int {
        choose|i: int| self.has_key_at(k, i)
    }

    /// The table as a map from key to value.
    pub closed spec fn view(&self) -> Map<Seq<char>, V> {
        Map::new(
            |k: Seq<char>| exists|i: int| self.has_key_at(k, i),
            |k: Seq<char>| self.entries@[self.index_of(k)].1,
        )
    }

    /// Entries at distinct positions hold distinct keys.
    pub proof fn lemma_distinct(&self, a: Seq<char>, i: int, b: Seq<char>, j: int)
        requires
            self.wf(),
            self.has_key_at(a, i),
            self.has_key_at(b, j),
            i != j,
        ensures
            a != b,
    {
    }

    proof fn lemma_lookup(&self, k: Seq<char>, i: int)
        requires
            self.wf(),
            self.has_key_at(k, i),
        ensures
            self@.contains_key(k),
            self@[k] == self.entries@[i].1,
    {
        assert(self@.dom().contains(k));
        let j = self.index_of(k);
        assert(self.has_key_at(k, j));
        assert(self.entries@[i].0@ == self.entries@[j].0@);
    }

    pub fn new() -> (r: Table<V>)
        ensures
            r.wf(),
            r@ == Map::<Seq<char>, V>::empty(),
    {
        let r = Table { entries: Vec::new() };
        assert(r@ =~= Map::<Seq<char>, V>::empty());
        r
    }

    pub fn len(&self) -> (r: usize)
        requires
            self.wf(),
        ensures
            r == self@.dom().len(),
            self@.dom().finite(),
    {
        proof {
            self.lemma_len();
        }
        self.entries.len()
    }

    /// The table holds finitely many keys.
    pub proof fn lemma_finite(&self)
        requires
            self.wf(),
        ensures
            self@.dom().finite(),
    {
        self.lemma_len();
    }

    /// Every key the table holds sits at a position below its size.
    pub proof fn lemma_covers(&self, k: Seq<char>)
        requires
            self.wf(),
            self@.contains_key(k),
        ensures
            exists|j: int| 0 <= j < self@.dom().len() && self.has_key_at(k, j),
    {
        self.lemma_len();
        let j = choose|j: int| self.has_key_at(k, j);
        assert(0 <= j < self@.dom().len() && self.has_key_at(k, j));
    }

    /// One position holds one key.
    pub proof fn lemma_one_key_per_position(&self, a: Seq<char>, b: Seq<char>, j: int)
        requires
            self.has_key_at(a, j),
            self.has_key_at(b, j),
        ensures
            a == b,
    {
    }

    proof fn lemma_len(&self)
        requires
            self.wf(),
        ensures
            self@.dom().len() == self.entries@.len(),
            self@.dom().finite(),
    {
        let keys = Seq::new(self.entries@.len(), |i: int| self.entries@[i].0@);
        assert forall|i: int, j: int| 0 <= i < keys.len() && 0 <= j < keys.len() && i != j implies keys[i] != keys[j] by {
            assert(self.entries@[i].0@ != self.entries@[j].0@);
        }
        keys.unique_seq_to_set();
        assert forall|k: Seq<char>| self@.dom().contains(k) <==> keys.to_set().contains(k) by {
            if self@.dom().contains(k) {
                let i = choose|i: int| self.has_key_at(k, i);
                assert(keys[i] == k);
            }
            if keys.to_set().contains(k) {
                let i = choose|i: int| 0 <= i < keys.len() && keys[i] == k;
                assert(self.has_key_at(k, i));
            }
        }
        assert(self@.dom() =~= keys.to_set());
    }

    /// The position of `key`, if the table holds it.
    fn find(&self, key: &String) -> (r: Option<usize>)
        requires
            self.wf(),
        ensures
            r.is_none() == !self@.contains_key(key@),
            r matches Some(i) ==> self.has_key_at(key@, i as int) && self@[key@] == self.entries@[i as int].1,
    {
        let mut i: usize = 0;
        while i < self.entries.len()
            invariant
                self.wf(),
                0 <= i <= self.entries@.len(),
                forall|j: int| 0 <= j < i ==> self.entries@[j].0@ != key@,
            decreases self.entries@.len() - i,
        {
            if self.entries[i].0 == *key {
                proof {
                    self.lemma_lookup(key@, i as int);
                }
                return Some(i);
            }
            i = i + 1;
        }
        proof {
            if self@.contains_key(key@) {
                let j = choose|j: int| self.has_key_at(key@, j);
            }
        }
        None
    }

    pub fn get(&self, key: &String) -> (r: Option<&V>)
        requires
            self.wf(),
        ensures
            r.is_none() == !self@.contains_key(key@),
            r matches Some(v) ==> self@[key@] == *v,
    {
        match self.find(key) {
            Some(i) => Some(&self.entries[i].1),
            None => None,
        }
    }

    /// The key and value at position `i`.
    pub fn entry(&self, i: usize) -> (r: (&String, &V))
        requires
            self.wf(),
            i < self@.dom().len(),
        ensures
            self@.contains_key(r.0@),
            self@[r.0@] == *r.1,
            self.has_key_at(r.0@, i as int),
    {
        proof {
            self.lemma_len();
            self.lemma_lookup(self.entries@[i as int].0@, i as int);
        }
        (&self.entries[i].0, &self.entries[i].1)
    }

    /// Stores `value` under `key`, replacing what was there.
    pub fn insert(&mut self, key: String, value: V)
        requires
            old(self).wf(),
        ensures
            final(self).wf(),
            final(self)@ == old(self)@.insert(key@, value),
    {
        let ghost k = key@;
        let ghost before = *self;
        match self.find(&key) {
            Some(i) => {
                self.entries.set(i, (key, value));
                proof {
                    assert forall|a: int, b: int|
                        0 <= a < self.entries@.len() && 0 <= b < self.entries@.len() && a != b
                        implies #[trigger] self.entries@[a].0@ != #[trigger] self.entries@[b].0@ by {
                        assert(before.entries@[a].0@ != before.entries@[b].0@);
                    }
                    self.lemma_after_update(before, k, value, i as int);
                }
            },
            None => {
                self.entries.push((key, value));
                proof {
                    let n = before.entries@.len() as int;
                    assert forall|a: int, b: int|
                        0 <= a < self.entries@.len() && 0 <= b < self.entries@.len() && a != b
                        implies #[trigger] self.entries@[a].0@ != #[trigger] self.entries@[b].0@ by {
                        if a < n && b < n {
                            assert(before.entries@[a].0@ != before.entries@[b].0@);
                        } else if a < n {
                            assert(before.has_key_at(before.entries@[a].0@, a));
                        } else if b < n {
                            assert(before.has_key_at(before.entries@[b].0@, b));
                        }
                    }
                    self.lemma_after_update(before, k, value, n);
                }
            },
        }
    }

    /// After the entry at `i` was written (or appended, `i` the old length),
    /// the map is the old one with `k` bound to `value`.
    proof fn lemma_after_update(&self, before: Table<V>, k: Seq<char>, value: V, i: int)
        requires
            before.wf(),
            self.wf(),
            0 <= i <= before.entries@.len(),
            i < before.entries@.len() ==> before.entries@[i].0@ == k,
            i == before.entries@.len() ==> !before@.contains_key(k),
            self.entries@.len() == if i < before.entries@.len() { before.entries@.len() } else { before.entries@.len() + 1 },
            self.entries@[i].0@ == k,
            self.entries@[i].1 == value,
            forall|j: int| 0 <= j < before.entries@.len() && j != i ==> self.entries@[j] == before.entries@[j],
        ensures
            self@ == before@.insert(k, value),
    {
        self.lemma_lookup(k, i);
        assert forall|c: Seq<char>| c != k implies (#[trigger] self@.contains_key(c) == before@.contains_key(c)) && (self@.contains_key(c) ==> self@[c] == before@[c]) by {
            if self@.contains_key(c) {
                let j = choose|j: int| self.has_key_at(c, j);
                assert(j != i);
                assert(before.has_key_at(c, j));
                self.lemma_lookup(c, j);
                before.lemma_lookup(c, j);
            }
            if before@.contains_key(c) {
                let j = choose|j: int| before.has_key_at(c, j);
                assert(j != i);
                assert(self.has_key_at(c, j));
            }
        }
        assert(self@ =~= before@.insert(k, value));
    }
}

} // verus!
