//! A small keyed table: a vector of (key, value) entries with distinct
//! keys, viewed as a finite map from key views to values.

use vstd::prelude::*;
use crate::text::str_eq;

verus! {

/// Keys whose equality is decided by their views.
pub trait KeyEq: View + Sized {
    fn key_eq(&self, other: &Self) -> (r: bool)
        ensures
            r == (self@ == other@);

    fn key_copy(&self) -> (r: Self)
        ensures
            r@ == self@;
}

impl KeyEq for u128 {
    fn key_eq(&self, other: &Self) -> (r: bool) {
        *self == *other
    }

    fn key_copy(&self) -> (r: Self) {
        *self
    }
}

impl KeyEq for String {
    fn key_eq(&self, other: &Self) -> (r: bool) {
        str_eq(self.as_str(), other.as_str())
    }

    fn key_copy(&self) -> (r: Self) {
        self.clone()
    }
}

impl KeyEq for (u128, u128) {
    fn key_eq(&self, other: &Self) -> (r: bool) {
        self.0 == other.0 && self.1 == other.1
    }

    fn key_copy(&self) -> (r: Self) {
        (self.0, self.1)
    }
}

pub struct Table<K: KeyEq, V> {
    entries: Vec<(K, V)>,
}

impl<K: KeyEq, V> Table<K, V> {
    /// The entries, in insertion order.
    pub closed spec fn entries(&self) -> Seq<(K, V)> {
        self.entries@
    }

    /// Keys are pairwise distinct.
    pub closed spec fn wf(&self) -> bool {
        forall|i: int, j: int|
            0 <= i < j < self.entries@.len() ==> (#[trigger] self.entries@[i]).0@ != (
            #[trigger] self.entries@[j]).0@
    }

    pub closed spec fn has(&self, k: K::V) -> bool {
        exists|i: int| 0 <= i < self.entries@.len() && (#[trigger] self.entries@[i]).0@ == k
    }

    pub closed spec fn index_of(&self, k: K::V) -> int {
        choose|i: int| 0 <= i < self.entries@.len() && (#[trigger] self.entries@[i]).0@ == k
    }

    /// The table as a map from key views to values.
    pub closed spec fn view(&self) -> Map<K::V, V> {
        Map::new(|k: K::V| self.has(k), |k: K::V| self.entries@[self.index_of(k)].1)
    }

    proof fn lemma_index(&self, i: int)
        requires
            self.wf(),
            0 <= i < self.entries@.len(),
        ensures
            self.view().contains_key(self.entries@[i].0@),
            self.index_of(self.entries@[i].0@) == i,
            self.view()[self.entries@[i].0@] == self.entries@[i].1,
    {
        let k = self.entries@[i].0@;
        assert(self.has(k));
        let j = self.index_of(k);
        if j != i {
            if j < i {
                assert(self.entries@[j].0@ != self.entries@[i].0@);
            } else {
                assert(self.entries@[i].0@ != self.entries@[j].0@);
            }
        }
    }

    pub fn new() -> (r: Self)
        ensures
            r.wf(),
            r.view().dom() == Set::<K::V>::empty(),
            r.entries().len() == 0,
    {
        let r = Table { entries: Vec::new() };
        assert(r.view().dom() =~= Set::<K::V>::empty());
        r
    }

    pub fn len(&self) -> (r: usize)
        ensures
            r == self.entries().len(),
    {
        self.entries.len()
    }

    /// The entry at position `i`.
    pub fn entry(&self, i: usize) -> (r: &(K, V))
        requires
            i < self.entries().len(),
        ensures
            *r == self.entries()[i as int],
    {
        &self.entries[i]
    }

    pub proof fn lemma_entry_in_view(&self, i: int)
        requires
            self.wf(),
            0 <= i < self.entries().len(),
        ensures
            self.view().contains_key(self.entries()[i].0@),
            self.view()[self.entries()[i].0@] == self.entries()[i].1,
    {
        self.lemma_index(i);
    }

    /// The keys of the entries, in order.
    pub closed spec fn key_seq(&self) -> Seq<K::V> {
        self.entries@.map_values(|e: (K, V)| e.0@)
    }

    /// A well-formed table holds as many entries as its map has keys.
    pub proof fn lemma_len(&self)
        requires
            self.wf(),
        ensures
            self.view().dom().finite(),
            self.view().dom().len() == self.entries().len(),
    {
        let ks = self.key_seq();
        assert(ks.no_duplicates()) by {
            assert forall|i: int, j: int| 0 <= i < ks.len() && 0 <= j < ks.len() && i != j implies ks[i]
                != ks[j] by {
                if i < j {
                    assert(self.entries@[i].0@ != self.entries@[j].0@);
                } else {
                    assert(self.entries@[j].0@ != self.entries@[i].0@);
                }
            }
        }
        ks.unique_seq_to_set();
        assert forall|k: K::V| #[trigger] self.view().dom().contains(k) == ks.to_set().contains(k) by {
            if self.has(k) {
                let i = self.index_of(k);
                assert(ks[i] == k);
            }
            if ks.to_set().contains(k) {
                let i = choose|i: int| 0 <= i < ks.len() && ks[i] == k;
                assert(self.entries@[i].0@ == k);
            }
        }
        assert(self.view().dom() =~= ks.to_set());
    }

    /// The keys of the first `i` entries, as a set.
    pub closed spec fn key_prefix_set(&self, i: int) -> Set<K::V> {
        self.key_seq().take(i).to_set()
    }

    pub proof fn lemma_key_prefix_empty(&self)
        ensures
            self.key_prefix_set(0) == Set::<K::V>::empty(),
    {
        assert(self.key_prefix_set(0) =~= Set::<K::V>::empty());
    }

    /// Adding entry `i` adds a key that was not there yet.
    pub proof fn lemma_key_prefix_step(&self, i: int)
        requires
            self.wf(),
            0 <= i < self.entries().len(),
        ensures
            self.key_prefix_set(i).finite(),
            !self.key_prefix_set(i).contains(self.entries()[i].0@),
            self.key_prefix_set(i + 1) == self.key_prefix_set(i).insert(self.entries()[i].0@),
    {
        let ks = self.key_seq();
        let k = self.entries@[i].0@;
        assert(ks.take(i + 1) =~= ks.take(i) + seq![k]);
        Seq::lemma_to_set_insert_commutes(ks.take(i), k);
        ks.take(i).lemma_cardinality_of_set();
        if ks.take(i).to_set().contains(k) {
            let j = choose|j: int| 0 <= j < ks.take(i).len() && ks.take(i)[j] == k;
            assert(self.entries@[j].0@ != self.entries@[i].0@);
        }
        vstd::seq_lib::seq_to_set_is_finite(ks.take(i));
    }

    /// All entries together hold exactly the keys of the map.
    pub proof fn lemma_key_prefix_full(&self)
        requires
            self.wf(),
        ensures
            self.key_prefix_set(self.entries().len() as int) == self.view().dom(),
    {
        self.lemma_len();
        let ks = self.key_seq();
        assert(ks.take(ks.len() as int) =~= ks);
        assert forall|k: K::V| #[trigger] self.view().dom().contains(k) == ks.to_set().contains(k) by {
            if self.has(k) {
                let i = self.index_of(k);
                assert(ks[i] == k);
            }
            if ks.to_set().contains(k) {
                let i = choose|i: int| 0 <= i < ks.len() && ks[i] == k;
                assert(self.entries@[i].0@ == k);
            }
        }
        assert(self.view().dom() =~= ks.to_set());
    }

    pub proof fn lemma_view_has_entry(&self, k: K::V)
        requires
            self.wf(),
            self.view().contains_key(k),
        ensures
            exists|i: int|
                0 <= i < self.entries().len() && #[trigger] self.entries()[i].0@ == k
                    && self.entries()[i].1 == self.view()[k],
    {
        let i = self.index_of(k);
        assert(self.entries()[i].0@ == k);
    }

    /// Position of the entry with key `k`, if any.
    pub fn find(&self, k: &K) -> (r: Option<usize>)
        requires
            self.wf(),
        ensures
            match r {
                Some(i) => i < self.entries().len() && self.entries()[i as int].0@ == k@,
                None => !self.view().contains_key(k@),
            },
            r is Some <==> self.view().contains_key(k@),
    {
        let mut i: usize = 0;
        while i < self.entries.len()
            invariant
                self.wf(),
                i <= self.entries@.len(),
                forall|j: int| 0 <= j < i ==> (#[trigger] self.entries@[j]).0@ != k@,
            decreases self.entries@.len() - i,
        {
            if self.entries[i].0.key_eq(k) {
                proof {
                    self.lemma_index(i as int);
                }
                return Some(i);
            }
            i = i + 1;
        }
        None
    }

    pub fn get(&self, k: &K) -> (r: Option<&V>)
        requires
            self.wf(),
        ensures
            match r {
                Some(v) => self.view().contains_key(k@) && *v == self.view()[k@],
                None => !self.view().contains_key(k@),
            },
    {
        match self.find(k) {
            Some(i) => {
                proof {
                    self.lemma_index(i as int);
                }
                Some(&self.entries[i].1)
            },
            None => None,
        }
    }

    pub fn contains_key(&self, k: &K) -> (r: bool)
        requires
            self.wf(),
        ensures
            r == self.view().contains_key(k@),
    {
        self.find(k).is_some()
    }

    /// Set the value of key `k`.
    pub fn insert(&mut self, k: K, v: V)
        requires
            old(self).wf(),
        ensures
            final(self).wf(),
            final(self).view() == old(self).view().insert(k@, v),
    {
        match self.find(&k) {
            Some(i) => {
                let ghost old_entries = self.entries@;
                let ghost kv = k@;
                let _ = self.entries.remove(i);
                self.entries.insert(i, (k, v));
                proof {
                    assert(self.entries@ =~= old_entries.update(i as int, self.entries@[i as int]));
                    assert forall|a: int, b: int|
                        0 <= a < b < self.entries@.len() implies (#[trigger] self.entries@[a]).0@
                        != (#[trigger] self.entries@[b]).0@ by {
                        assert(old_entries[a].0@ != old_entries[b].0@);
                    }
                    assert forall|key: K::V| #[trigger]
                        self.view().contains_key(key) == old(self).view().insert(
                            kv,
                            v,
                        ).contains_key(key) by {
                        if self.has(key) {
                            let j = self.index_of(key);
                            if j != i {
                                assert(old(self).entries@[j].0@ == key);
                            }
                        }
                        if old(self).has(key) {
                            let j = old(self).index_of(key);
                            assert(self.entries@[j].0@ == key);
                        }
                    }
                    assert forall|key: K::V| #[trigger] self.view().contains_key(key) implies self.view()[key]
                        == old(self).view().insert(kv, v)[key] by {
                        let j = self.index_of(key);
                        self.lemma_index(j);
                        if j != i {
                            old(self).lemma_index(j);
                        }
                    }
                    assert(self.view() =~= old(self).view().insert(kv, v));
                }
            },
            None => {
                let ghost kv = k@;
                self.entries.push((k, v));
                proof {
                    let n = old(self).entries@.len();
                    assert forall|a: int, b: int|
                        0 <= a < b < self.entries@.len() implies (#[trigger] self.entries@[a]).0@
                        != (#[trigger] self.entries@[b]).0@ by {
                        if b == n {
                            assert(old(self).entries@[a].0@ != kv) by {
                                if old(self).entries@[a].0@ == kv {
                                    assert(old(self).has(kv));
                                }
                            }
                        }
                    }
                    assert forall|key: K::V| #[trigger]
                        self.view().contains_key(key) == old(self).view().insert(
                            kv,
                            v,
                        ).contains_key(key) by {
                        if self.has(key) {
                            let j = self.index_of(key);
                            if j != n {
                                assert(old(self).entries@[j].0@ == key);
                            }
                        }
                        if old(self).has(key) {
                            let j = old(self).index_of(key);
                            assert(self.entries@[j].0@ == key);
                        }
                        if key == kv {
                            assert(self.entries@[n as int].0@ == key);
                        }
                    }
                    assert forall|key: K::V| #[trigger] self.view().contains_key(key) implies self.view()[key]
                        == old(self).view().insert(kv, v)[key] by {
                        let j = self.index_of(key);
                        self.lemma_index(j);
                        if j != n {
                            old(self).lemma_index(j);
                        }
                    }
                    assert(self.view() =~= old(self).view().insert(kv, v));
                }
            },
        }
    }

    /// Remove key `k`, returning its value if it was present.
    pub fn remove(&mut self, k: &K) -> (r: Option<V>)
        requires
            old(self).wf(),
        ensures
            final(self).wf(),
            final(self).view() == old(self).view().remove(k@),
            match r {
                Some(v) => old(self).view().contains_key(k@) && v == old(self).view()[k@],
                None => !old(self).view().contains_key(k@),
            },
    {
        match self.find(k) {
            Some(i) => {
                proof {
                    self.lemma_index(i as int);
                }
                let ghost old_entries = self.entries@;
                let (_, v) = self.entries.remove(i);
                proof {
                    assert(self.entries@ =~= old_entries.remove(i as int));
                    assert forall|a: int, b: int|
                        0 <= a < b < self.entries@.len() implies (#[trigger] self.entries@[a]).0@
                        != (#[trigger] self.entries@[b]).0@ by {
                        let a2 = if a < i { a } else { a + 1 };
                        let b2 = if b < i { b } else { b + 1 };
                        assert(old_entries[a2].0@ != old_entries[b2].0@);
                    }
                    assert forall|key: K::V| #[trigger]
                        self.view().contains_key(key) == old(self).view().remove(k@).contains_key(key) by {
                        if self.has(key) {
                            let j = self.index_of(key);
                            let j2 = if j < i { j } else { j + 1 };
                            assert(old_entries[j2].0@ == key);
                            assert(old(self).has(key));
                            if key == k@ {
                                assert(old_entries[j2].0@ == old_entries[i as int].0@);
                                if j2 < i {
                                    assert(old_entries[j2].0@ != old_entries[i as int].0@);
                                } else {
                                    assert(old_entries[i as int].0@ != old_entries[j2].0@);
                                }
                            }
                        }
                        if old(self).has(key) && key != k@ {
                            let j = old(self).index_of(key);
                            assert(j != i);
                            let j2 = if j < i { j } else { j - 1 };
                            assert(self.entries@[j2].0@ == key);
                        }
                    }
                    assert forall|key: K::V| #[trigger] self.view().contains_key(key) implies self.view()[key]
                        == old(self).view().remove(k@)[key] by {
                        let j = self.index_of(key);
                        self.lemma_index(j);
                        let j2 = if j < i { j } else { j + 1 };
                        old(self).lemma_index(j2);
                    }
                    assert(self.view() =~= old(self).view().remove(k@));
                }
                Some(v)
            },
            None => {
                assert(self.view() =~= old(self).view().remove(k@));
                None
            },
        }
    }
}

} // verus!
