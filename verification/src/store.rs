//! A keyed store: an insertion-ordered association table with unique `u64`
//! keys. Every other module keeps its records in one of these, so the
//! contracts of the whole crate rest on the lookup specification here.

use vstd::prelude::*;

verus! {

/// An association table from `u64` keys to values, keeping insertion order.
pub struct Table<V> {
    pub entries: Vec<(u64, V)>,
}

impl<V> Table<V> {
    /// The keys, in insertion order.
    pub open spec fn key_seq(self) -> Seq<u64> {
        self.entries@.map_values(|p: (u64, V)| p.0)
    }

    /// Well-formed: no key occurs twice.
    pub open spec fn wf(self) -> bool {
        forall|i: int, j: int|
            0 <= i < j < self.entries@.len() ==> (#[trigger] self.entries@[i]).0 != (
            #[trigger] self.entries@[j]).0
    }

    pub open spec fn spec_len(self) -> nat {
        self.entries@.len()
    }

    pub open spec fn has_key(self, k: u64) -> bool {
        exists|i: int| 0 <= i < self.entries@.len() && (#[trigger] self.entries@[i]).0 == k
    }

    /// The index at which `k` is stored (meaningful only when `has_key`).
    pub open spec fn key_index(self, k: u64) -> int {
        choose|i: int| 0 <= i < self.entries@.len() && (#[trigger] self.entries@[i]).0 == k
    }

    /// The value stored under `k`, if any.
    pub open spec fn spec_get(self, k: u64) -> Option<V> {
        if self.has_key(k) {
            Some(self.entries@[self.key_index(k)].1)
        } else {
            None
        }
    }

    /// In a well-formed table an entry's index is determined by its key.
    pub proof fn lemma_key_index(self, k: u64, i: int)
        requires
            self.wf(),
            0 <= i < self.entries@.len(),
            self.entries@[i].0 == k,
        ensures
            self.has_key(k),
            self.key_index(k) == i,
            self.spec_get(k) == Some(self.entries@[i].1),
    {
        assert(self.has_key(k));
        let j = self.key_index(k);
        if i < j {
            assert(self.entries@[i].0 != self.entries@[j].0);
        } else if j < i {
            assert(self.entries@[j].0 != self.entries@[i].0);
        }
    }

    pub fn new() -> (r: Self)
        ensures
            r.wf(),
            r.entries@ =~= Seq::<(u64, V)>::empty(),
            r.spec_len() == 0,
            forall|k: u64| !r.has_key(k),
    {
        Table { entries: Vec::new() }
    }

    pub fn len(&self) -> (r: usize)
        ensures
            r == self.spec_len(),
    {
        self.entries.len()
    }

    /// Looks a key up; the result agrees with `spec_get`.
    pub fn get(&self, k: u64) -> (r: Option<&V>)
        requires
            self.wf(),
        ensures
            match r {
                Some(v) => self.spec_get(k) == Some(*v) && self.has_key(k),
                None => !self.has_key(k) && self.spec_get(k) is None,
            },
    {
        let n = self.entries.len();
        let mut i: usize = 0;
        while i < n
            invariant
                n == self.entries@.len(),
                0 <= i <= n,
                self.wf(),
                forall|j: int| 0 <= j < i ==> (#[trigger] self.entries@[j]).0 != k,
            decreases n - i,
        {
            if self.entries[i].0 == k {
                proof {
                    self.lemma_key_index(k, i as int);
                }
                return Some(&self.entries[i].1);
            }
            i = i + 1;
        }
        None
    }

    pub fn contains(&self, k: u64) -> (r: bool)
        requires
            self.wf(),
        ensures
            r == self.has_key(k),
    {
        self.get(k).is_some()
    }

    /// The index at which `k` is stored, if present.
    pub fn find_index(&self, k: u64) -> (r: Option<usize>)
        requires
            self.wf(),
        ensures
            match r {
                Some(i) => self.has_key(k) && i == self.key_index(k) && i < self.spec_len(),
                None => !self.has_key(k),
            },
    {
        let n = self.entries.len();
        let mut i: usize = 0;
        while i < n
            invariant
                n == self.entries@.len(),
                0 <= i <= n,
                self.wf(),
                forall|j: int| 0 <= j < i ==> (#[trigger] self.entries@[j]).0 != k,
            decreases n - i,
        {
            if self.entries[i].0 == k {
                proof {
                    self.lemma_key_index(k, i as int);
                }
                return Some(i);
            }
            i = i + 1;
        }
        None
    }

    /// Inserts or overwrites the value under `k`. A new key goes to the end;
    /// an existing key keeps its position.
    pub fn insert(&mut self, k: u64, v: V)
        requires
            old(self).wf(),
        ensures
            final(self).wf(),
            final(self).has_key(k),
            final(self).spec_get(k) == Some(v),
            forall|k2: u64|
                k2 != k ==> #[trigger] final(self).spec_get(k2) == old(self).spec_get(k2),
            forall|k2: u64|
                k2 != k ==> (#[trigger] final(self).has_key(k2) == old(self).has_key(k2)),
            old(self).has_key(k) ==> final(self).entries@ =~= old(self).entries@.update(
                old(self).key_index(k),
                (k, v),
            ) && final(self).spec_len() == old(self).spec_len(),
            !old(self).has_key(k) ==> final(self).entries@ =~= old(self).entries@.push((k, v))
                && final(self).spec_len() == old(self).spec_len() + 1,
    {
        let idx = self.find_index(k);
        match idx {
            Some(i) => {
                self.entries[i] = (k, v);
                proof {
                    let ghost oldt = *old(self);
                    assert forall|i2: int, j2: int|
                        0 <= i2 < j2 < self.entries@.len() implies (#[trigger] self.entries@[i2]).0
                        != (#[trigger] self.entries@[j2]).0 by {
                        assert(oldt.entries@[i2].0 != oldt.entries@[j2].0);
                    }
                    self.lemma_key_index(k, oldt.key_index(k));
                    assert forall|k2: u64| k2 != k implies #[trigger] self.spec_get(k2)
                        == oldt.spec_get(k2) by {
                        if oldt.has_key(k2) {
                            let j = oldt.key_index(k2);
                            assert(oldt.entries@[j].0 == k2);
                            assert(j != oldt.key_index(k));
                            assert(self.entries@[j].0 == k2);
                            self.lemma_key_index(k2, j);
                        } else {
                            assert(!self.has_key(k2)) by {
                                if self.has_key(k2) {
                                    let j = self.key_index(k2);
                                    assert(self.entries@[j].0 == k2);
                                    assert(j != oldt.key_index(k));
                                    assert(oldt.entries@[j].0 == k2);
                                }
                            }
                        }
                    }
                    assert forall|k2: u64| k2 != k implies (#[trigger] self.has_key(k2)
                        == oldt.has_key(k2)) by {
                        assert(self.spec_get(k2) == oldt.spec_get(k2));
                    }
                }
            },
            None => {
                self.entries.push((k, v));
                proof {
                    let ghost oldt = *old(self);
                    let ghost n = oldt.entries@.len() as int;
                    assert forall|i2: int, j2: int|
                        0 <= i2 < j2 < self.entries@.len() implies (#[trigger] self.entries@[i2]).0
                        != (#[trigger] self.entries@[j2]).0 by {
                        if j2 < n {
                            assert(oldt.entries@[i2].0 != oldt.entries@[j2].0);
                        } else {
                            assert(self.entries@[j2].0 == k);
                            assert(oldt.entries@[i2].0 != k);
                        }
                    }
                    self.lemma_key_index(k, n);
                    assert forall|k2: u64| k2 != k implies #[trigger] self.spec_get(k2)
                        == oldt.spec_get(k2) by {
                        if oldt.has_key(k2) {
                            let j = oldt.key_index(k2);
                            assert(oldt.entries@[j].0 == k2);
                            assert(self.entries@[j].0 == k2);
                            self.lemma_key_index(k2, j);
                        } else {
                            assert(!self.has_key(k2)) by {
                                if self.has_key(k2) {
                                    let j = self.key_index(k2);
                                    assert(self.entries@[j].0 == k2);
                                    assert(j != n);
                                    assert(oldt.entries@[j].0 == k2);
                                }
                            }
                        }
                    }
                    assert forall|k2: u64| k2 != k implies (#[trigger] self.has_key(k2)
                        == oldt.has_key(k2)) by {
                        assert(self.spec_get(k2) == oldt.spec_get(k2));
                    }
                }
            },
        }
    }

    /// Removes and returns the entry under `k`, if present; later entries
    /// shift left.
    pub fn take(&mut self, k: u64) -> (r: Option<V>)
        requires
            old(self).wf(),
        ensures
            final(self).wf(),
            match r {
                Some(v) => old(self).spec_get(k) == Some(v) && old(self).has_key(k),
                None => !old(self).has_key(k),
            },
            !final(self).has_key(k),
            final(self).spec_get(k) is None,
            forall|k2: u64|
                k2 != k ==> #[trigger] final(self).spec_get(k2) == old(self).spec_get(k2),
            forall|k2: u64|
                k2 != k ==> (#[trigger] final(self).has_key(k2) == old(self).has_key(k2)),
            old(self).has_key(k) ==> final(self).entries@ =~= old(self).entries@.remove(
                old(self).key_index(k),
            ) && final(self).spec_len() == old(self).spec_len() - 1,
            !old(self).has_key(k) ==> final(self).entries@ =~= old(self).entries@ && final(self).spec_len() == old(self).spec_len(),
    {
        let idx = self.find_index(k);
        match idx {
            Some(i) => {
                let pair = self.entries.remove(i);
                proof {
                    let ghost oldt = *old(self);
                    let ghost n = oldt.entries@.len() as int;
                    let ghost pos = oldt.key_index(k);
                    assert(self.entries@ =~= oldt.entries@.remove(pos));
                    // each surviving entry comes from a distinct old index
                    assert forall|i2: int, j2: int|
                        0 <= i2 < j2 < self.entries@.len() implies (#[trigger] self.entries@[i2]).0
                        != (#[trigger] self.entries@[j2]).0 by {
                        let oi = if i2 < pos { i2 } else { i2 + 1 };
                        let oj = if j2 < pos { j2 } else { j2 + 1 };
                        assert(self.entries@[i2] == oldt.entries@[oi]);
                        assert(self.entries@[j2] == oldt.entries@[oj]);
                        assert(oldt.entries@[oi].0 != oldt.entries@[oj].0);
                    }
                    assert(!self.has_key(k)) by {
                        if self.has_key(k) {
                            let j = self.key_index(k);
                            assert(self.entries@[j].0 == k);
                            let oj = if j < pos { j } else { j + 1 };
                            assert(oldt.entries@[oj].0 == k);
                            oldt.lemma_key_index(k, oj);
                        }
                    }
                    assert forall|k2: u64| k2 != k implies #[trigger] self.spec_get(k2)
                        == oldt.spec_get(k2) by {
                        if oldt.has_key(k2) {
                            let j = oldt.key_index(k2);
                            assert(oldt.entries@[j].0 == k2);
                            assert(j != pos);
                            let nj = if j < pos { j } else { j - 1 };
                            assert(self.entries@[nj] == oldt.entries@[j]);
                            self.lemma_key_index(k2, nj);
                        } else {
                            assert(!self.has_key(k2)) by {
                                if self.has_key(k2) {
                                    let j = self.key_index(k2);
                                    assert(self.entries@[j].0 == k2);
                                    let oj = if j < pos { j } else { j + 1 };
                                    assert(oldt.entries@[oj].0 == k2);
                                }
                            }
                        }
                    }
                    assert forall|k2: u64| k2 != k implies (#[trigger] self.has_key(k2)
                        == oldt.has_key(k2)) by {
                        assert(self.spec_get(k2) == oldt.spec_get(k2));
                    }
                }
                Some(pair.1)
            },
            None => None,
        }
    }

    /// Removes the entry under `k`, if present.
    pub fn remove(&mut self, k: u64) -> (r: bool)
        requires
            old(self).wf(),
        ensures
            final(self).wf(),
            r == old(self).has_key(k),
            !final(self).has_key(k),
            final(self).spec_get(k) is None,
            forall|k2: u64|
                k2 != k ==> #[trigger] final(self).spec_get(k2) == old(self).spec_get(k2),
            forall|k2: u64|
                k2 != k ==> (#[trigger] final(self).has_key(k2) == old(self).has_key(k2)),
            old(self).has_key(k) ==> final(self).entries@ =~= old(self).entries@.remove(
                old(self).key_index(k),
            ) && final(self).spec_len() == old(self).spec_len() - 1,
            !old(self).has_key(k) ==> final(self).entries@ =~= old(self).entries@
                && final(self).spec_len() == old(self).spec_len(),
    {
        self.take(k).is_some()
    }

    /// The entry at position `i`, in insertion order.
    pub fn entry_at(&self, i: usize) -> (r: &(u64, V))
        requires
            i < self.spec_len(),
        ensures
            *r == self.entries@[i as int],
    {
        &self.entries[i]
    }
}

} // verus!
