use vstd::prelude::*;

use crate::ids::{AccountId, Digest};

verus! {

/// A 32-byte key whose equality is decided on its bytes.
pub trait Key: Copy + View<V = Seq<u8>> {
    fn same(&self, o: &Self) -> (r: bool)
        ensures
            r == (self@ == o@),
    ;
}

impl Key for AccountId {
    fn same(&self, o: &AccountId) -> (r: bool) {
        crate::ids::bytes_eq(&self.bytes, &o.bytes)
    }
}

impl Key for Digest {
    fn same(&self, o: &Digest) -> (r: bool) {
        crate::ids::bytes_eq(&self.bytes, &o.bytes)
    }
}

/// A keyed store: at most one entry per key, viewed as a map from the key's
/// bytes to the value.
#[derive(Clone, Debug)]
pub struct Table<K, V> {
    pub entries: Vec<(K, V)>,
}

impl<K: Key, V> Table<K, V> {
    /// Keys are unique.
    pub open spec fn wf(&self) -> bool {
        forall|i: int, j: int|
            0 <= i < j < self.entries@.len() ==> (#[trigger] self.entries@[i]).0@ != (
            #[trigger] self.entries@[j]).0@
    }

    pub open spec fn has(&self, k: Seq<u8>) -> bool {
        exists|i: int| 0 <= i < self.entries@.len() && (#[trigger] self.entries@[i]).0@ == k
    }

    pub open spec fn index_of(&self, k: Seq<u8>) -> int {
        choose|i: int| 0 <= i < self.entries@.len() && (#[trigger] self.entries@[i]).0@ == k
    }

    pub open spec fn view(&self) -> Map<Seq<u8>, V> {
        Map::new(|k: Seq<u8>| self.has(k), |k: Seq<u8>| self.entries@[self.index_of(k)].1)
    }

    pub proof fn lemma_index(&self, i: int)
        requires
            self.wf(),
            0 <= i < self.entries@.len(),
        ensures
            self.has(self.entries@[i].0@),
            self.index_of(self.entries@[i].0@) == i,
            self.view().contains_key(self.entries@[i].0@),
            self.view()[self.entries@[i].0@] == self.entries@[i].1,
    {
        let k = self.entries@[i].0@;
        assert(self.has(k));
        let j = self.index_of(k);
        if j != i {
            if j < i {
                assert(self.entries@[j].0@ != self.entries@[i].0@);
            } else {
                assert(self.entries@[i].0@ != self.entries@[j].0@);
            }
        }
    }

    pub fn new() -> (r: Self)
        ensures
            r.wf(),
            r.view() == Map::<Seq<u8>, V>::empty(),
    {
        let r = Table { entries: Vec::new() };
        assert(r.view() =~= Map::<Seq<u8>, V>::empty());
        r
    }

    /// Position of the entry for `k`, if there is one.
    pub fn find(&self, k: &K) -> (r: Option<usize>)
        requires
            self.wf(),
        ensures
            r.is_none() == !self.view().contains_key(k@),
            r.is_some() ==> r.unwrap() < self.entries@.len() && self.entries@[r.unwrap() as int].0@
                == k@ && self.index_of(k@) == r.unwrap() as int,
    {
        let mut i: usize = 0;
        while i < self.entries.len()
            invariant
                self.wf(),
                0 <= i <= self.entries@.len(),
                forall|j: int| 0 <= j < i ==> (#[trigger] self.entries@[j]).0@ != k@,
            decreases self.entries@.len() - i,
        {
            if self.entries[i].0.same(k) {
                proof {
                    self.lemma_index(i as int);
                }
                return Some(i);
            }
            i = i + 1;
        }
        None
    }

    pub fn contains(&self, k: &K) -> (r: bool)
        requires
            self.wf(),
        ensures
            r == self.view().contains_key(k@),
    {
        self.find(k).is_some()
    }

    /// Takes the entry for `k` out of the table.
    pub fn take(&mut self, k: &K) -> (r: Option<V>)
        requires
            old(self).wf(),
        ensures
            final(self).wf(),
            final(self).view() == old(self).view().remove(k@),
            r.is_some() == old(self).view().contains_key(k@),
            r.is_some() ==> r.unwrap() == old(self).view()[k@],
    {
        match self.find(k) {
            None => {
                assert(self.view() =~= old(self).view().remove(k@));
                None
            },
            Some(i) => {
                let ghost prev = self.entries@;
                let e = self.entries.remove(i);
                proof {
                    assert(self.entries@ == prev.remove(i as int));
                    assert(self.wf()) by {
                        assert forall|a: int, b: int|
                            0 <= a < b < self.entries@.len() implies (
                            #[trigger] self.entries@[a]).0@ != (#[trigger] self.entries@[b]).0@ by {
                            let a2 = if a < i { a } else { a + 1 };
                            let b2 = if b < i { b } else { b + 1 };
                            assert(prev[a2].0@ != prev[b2].0@);
                        }
                    }
                    assert forall|kk: Seq<u8>| #[trigger]
                        self.view().contains_key(kk) == old(self).view().remove(k@).contains_key(kk)
                        by {
                        if self.has(kk) {
                            let j = choose|j: int|
                                0 <= j < self.entries@.len() && (#[trigger] self.entries@[j]).0@
                                    == kk;
                            let j2 = if j < i { j } else { j + 1 };
                            assert(prev[j2].0@ == kk);
                            assert(old(self).has(kk));
                            assert(j2 != i);
                        }
                        if old(self).has(kk) && kk != k@ {
                            let j = old(self).index_of(kk);
                            assert(j != i);
                            let j2 = if j < i { j } else { j - 1 };
                            assert(self.entries@[j2].0@ == kk);
                        }
                    }
                    assert forall|kk: Seq<u8>| #[trigger]
                        self.view().contains_key(kk) implies self.view()[kk] == old(
                        self).view()[kk] by {
                        let j = self.index_of(kk);
                        self.lemma_index(j);
                        let j2 = if j < i { j } else { j + 1 };
                        old(self).lemma_index(j2);
                    }
                    assert(self.view() =~= old(self).view().remove(k@));
                }
                Some(e.1)
            },
        }
    }

    /// Adds an entry for a key that has none.
    pub fn put(&mut self, k: K, v: V)
        requires
            old(self).wf(),
            !old(self).view().contains_key(k@),
        ensures
            final(self).wf(),
            final(self).view() == old(self).view().insert(k@, v),
    {
        let ghost prev = self.entries@;
        self.entries.push((k, v));
        proof {
            let n = prev.len() as int;
            assert(self.wf()) by {
                assert forall|a: int, b: int|
                    0 <= a < b < self.entries@.len() implies (
                    #[trigger] self.entries@[a]).0@ != (#[trigger] self.entries@[b]).0@ by {
                    if b == n {
                        assert(prev[a].0@ != k@) by {
                            if prev[a].0@ == k@ {
                                assert(old(self).has(k@));
                            }
                        }
                    }
                }
            }
            self.lemma_index(n);
            assert forall|kk: Seq<u8>| #[trigger]
                self.view().contains_key(kk) == old(self).view().insert(k@, v).contains_key(kk) by {
                if old(self).has(kk) {
                    let j = old(self).index_of(kk);
                    assert(self.entries@[j].0@ == kk);
                }
                if self.has(kk) && kk != k@ {
                    let j = self.index_of(kk);
                    assert(j != n);
                    assert(prev[j].0@ == kk);
                }
            }
            assert forall|kk: Seq<u8>| #[trigger]
                self.view().contains_key(kk) implies self.view()[kk] == old(self).view().insert(
                k@,
                v,
            )[kk] by {
                let j = self.index_of(kk);
                self.lemma_index(j);
                if j < n {
                    old(self).lemma_index(j);
                }
            }
            assert(self.view() =~= old(self).view().insert(k@, v));
        }
    }

    /// Sets the value for `k`, adding the entry if needed.
    pub fn set(&mut self, k: K, v: V)
        requires
            old(self).wf(),
        ensures
            final(self).wf(),
            final(self).view() == old(self).view().insert(k@, v),
    {
        let _ = self.take(&k);
        self.put(k, v);
        assert(self.view() =~= old(self).view().insert(k@, v));
    }
}

} // verus!
