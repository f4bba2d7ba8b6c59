//! A keyed record store: at most one record per 32-byte key, modelled as a
//! finite map from key to record.

use vstd::prelude::*;
use crate::keys::keys_equal;

verus! {

/// A record that is filed under a 32-byte key of its own.
pub trait Keyed {
    spec fn key(&self) -> [u8; 32];

    fn key_of(&self) -> (r: [u8; 32])
        ensures
            r == self.key(),
    ;
}

/// Records held in insertion order, no two under the same key.
pub struct Store<V> {
    items: Vec<V>,
}

impl<V: Keyed> Store<V> {
    pub closed spec fn holds(&self, k: [u8; 32]) -> bool {
        exists|i: int| 0 <= i < self.items@.len() && #[trigger] self.items@[i].key() == k
    }

    pub closed spec fn position(&self, k: [u8; 32]) -> int {
        choose|i: int| 0 <= i < self.items@.len() && #[trigger] self.items@[i].key() == k
    }

    /// The records by key.
    pub closed spec fn view(&self) -> Map<[u8; 32], V> {
        Map::new(|k: [u8; 32]| self.holds(k), |k: [u8; 32]| self.items@[self.position(k)])
    }

    /// No two records share a key.
    pub closed spec fn wf(&self) -> bool {
        forall|i: int, j: int|
            0 <= i < self.items@.len() && 0 <= j < self.items@.len() && i != j
                ==> #[trigger] self.items@[i].key() != #[trigger] self.items@[j].key()
    }

    proof fn lemma_position(&self, i: int)
        requires
            self.wf(),
            0 <= i < self.items@.len(),
        ensures
            self.holds(self.items@[i].key()),
            self.position(self.items@[i].key()) == i,
            self@.contains_key(self.items@[i].key()),
            self@[self.items@[i].key()] == self.items@[i],
    {
        let k = self.items@[i].key();
        assert(self.holds(k));
        let p = self.position(k);
        assert(0 <= p < self.items@.len() && self.items@[p].key() == k);
    }

    /// Each record is found under its own key.
    pub proof fn lemma_filed_under_key(&self)
        requires
            self.wf(),
        ensures
            forall|k: [u8; 32]| #[trigger] self@.contains_key(k) ==> self@[k].key() == k,
    {
        assert forall|k: [u8; 32]| #[trigger] self@.contains_key(k) implies self@[k].key() == k by {
            let p = self.position(k);
            assert(0 <= p < self.items@.len() && self.items@[p].key() == k);
        };
    }

    /// Finitely many keys hold a record.
    pub proof fn lemma_finite(&self)
        requires
            self.wf(),
        ensures
            self@.dom().finite(),
    {
        let n = self.items@.len();
        let keys = Seq::new(n, |i: int| self.items@[i].key());
        assert(self@.dom() =~= keys.to_set()) by {
            assert forall|k: [u8; 32]| self@.dom().contains(k) implies keys.to_set().contains(k) by {
                let p = self.position(k);
                assert(keys[p] == k);
            };
            assert forall|k: [u8; 32]| keys.to_set().contains(k) implies self@.dom().contains(k) by {
                let i = choose|i: int| 0 <= i < keys.len() && keys[i] == k;
                assert(self.items@[i].key() == k);
            };
        };
        vstd::seq_lib::seq_to_set_is_finite(keys);
    }

    pub fn new() -> (r: Self)
        ensures
            r.wf(),
            r@ == Map::<[u8; 32], V>::empty(),
    {
        let r = Store { items: Vec::new() };
        assert(r@ =~= Map::<[u8; 32], V>::empty());
        r
    }

    /// Where the record filed under `k` stands, if there is one.
    fn find(&self, k: &[u8; 32]) -> (r: Option<usize>)
        requires
            self.wf(),
        ensures
            r is None ==> !self@.contains_key(*k),
            r matches Some(i) ==> i < self.items@.len() && self.items@[i as int].key() == *k
                && self@.contains_key(*k) && self@[*k] == self.items@[i as int],
    {
        let mut i: usize = 0;
        while i < self.items.len()
            invariant
                self.wf(),
                0 <= i <= self.items@.len(),
                forall|j: int| 0 <= j < i ==> #[trigger] self.items@[j].key() != *k,
            decreases self.items@.len() - i,
        {
            let ki = self.items[i].key_of();
            if keys_equal(&ki, k) {
                proof { self.lemma_position(i as int); }
                return Some(i);
            }
            i = i + 1;
        }
        None
    }

    /// The record filed under `k`.
    pub fn get(&self, k: &[u8; 32]) -> (r: Option<&V>)
        requires
            self.wf(),
        ensures
            r is None ==> !self@.contains_key(*k),
            r matches Some(v) ==> self@.contains_key(*k) && self@[*k] == *v,
    {
        match self.find(k) {
            Some(i) => Some(&self.items[i]),
            None => None,
        }
    }

    pub fn contains(&self, k: &[u8; 32]) -> (r: bool)
        requires
            self.wf(),
        ensures
            r == self@.contains_key(*k),
    {
        self.find(k).is_some()
    }

    /// Files `v` under its key, in place of the record that was there.
    pub fn insert(&mut self, v: V)
        requires
            old(self).wf(),
        ensures
            final(self).wf(),
            final(self)@ == old(self)@.insert(v.key(), v),
    {
        let k = v.key_of();
        let ghost k0 = v.key();
        let ghost pre = *self;
        match self.find(&k) {
            Some(i) => {
                self.items.set(i, v);
                proof {
                    assert forall|a: int, b: int|
                        0 <= a < self.items@.len() && 0 <= b < self.items@.len() && a != b
                        implies #[trigger] self.items@[a].key() != #[trigger] self.items@[b].key() by {
                        if a != i && b != i {
                            assert(pre.items@[a].key() != pre.items@[b].key());
                        }
                    };
                    assert forall|x: [u8; 32]| self.holds(x) == (x == k0 || pre.holds(x)) by {
                        if pre.holds(x) {
                            let p = pre.position(x);
                            if p == i { assert(x == k0); } else { assert(self.items@[p].key() == x); }
                        }
                        if self.holds(x) {
                            let p = self.position(x);
                            if p != i { assert(pre.items@[p].key() == x); }
                        }
                        if x == k0 { assert(self.items@[i as int].key() == x); }
                    };
                    assert forall|x: [u8; 32]| #[trigger] self.holds(x) implies
                        self@[x] == old(self)@.insert(k0, v)[x] by {
                        let p = self.position(x);
                        self.lemma_position(p);
                        if x != k0 {
                            pre.lemma_position(p);
                        }
                    };
                    assert(self@ =~= old(self)@.insert(k0, v));
                }
            },
            None => {
                self.items.push(v);
                proof {
                    let n = pre.items@.len() as int;
                    assert forall|a: int, b: int|
                        0 <= a < self.items@.len() && 0 <= b < self.items@.len() && a != b
                        implies #[trigger] self.items@[a].key() != #[trigger] self.items@[b].key() by {
                        if a != n && b != n {
                            assert(pre.items@[a].key() != pre.items@[b].key());
                        } else if a == n {
                            assert(!pre.holds(k0));
                            assert(pre.items@[b] == self.items@[b]);
                        } else {
                            assert(!pre.holds(k0));
                            assert(pre.items@[a] == self.items@[a]);
                        }
                    };
                    assert forall|x: [u8; 32]| self.holds(x) == (x == k0 || pre.holds(x)) by {
                        if pre.holds(x) {
                            let p = pre.position(x);
                            assert(self.items@[p] == pre.items@[p]);
                        }
                        if self.holds(x) {
                            let p = self.position(x);
                            if p != n { assert(pre.items@[p] == self.items@[p]); }
                        }
                        if x == k0 { assert(self.items@[n].key() == x); }
                    };
                    assert forall|x: [u8; 32]| #[trigger] self.holds(x) implies
                        self@[x] == old(self)@.insert(k0, v)[x] by {
                        let p = self.position(x);
                        self.lemma_position(p);
                        if x != k0 {
                            pre.lemma_position(p);
                            assert(pre.items@[p] == self.items@[p]);
                        }
                    };
                    assert(self@ =~= old(self)@.insert(k0, v));
                }
            },
        }
    }

    /// Takes out the record filed under `k`, if there is one.
    pub fn remove(&mut self, k: &[u8; 32])
        requires
            old(self).wf(),
        ensures
            final(self).wf(),
            final(self)@ == old(self)@.remove(*k),
    {
        let ghost pre = *self;
        match self.find(k) {
            Some(i) => {
                self.items.remove(i);
                proof {
                    let ix = i as int;
                    assert forall|a: int| 0 <= a < self.items@.len() implies
                        #[trigger] self.items@[a] == pre.items@[if a < ix { a } else { a + 1 }] by {};
                    assert forall|a: int, b: int|
                        0 <= a < self.items@.len() && 0 <= b < self.items@.len() && a != b
                        implies #[trigger] self.items@[a].key() != #[trigger] self.items@[b].key() by {
                        let from_a = if a < ix { a } else { a + 1 };
                        let from_b = if b < ix { b } else { b + 1 };
                        assert(self.items@[a] == pre.items@[from_a]);
                        assert(self.items@[b] == pre.items@[from_b]);
                        assert(pre.items@[from_a].key() != pre.items@[from_b].key());
                    };
                    assert forall|x: [u8; 32]| self.holds(x) == (x != *k && pre.holds(x)) by {
                        if pre.holds(x) && x != *k {
                            let p = pre.position(x);
                            if p < ix { assert(self.items@[p] == pre.items@[p]); }
                            else { assert(p != ix); assert(self.items@[p - 1] == pre.items@[p]); }
                        }
                        if self.holds(x) {
                            let p = self.position(x);
                            let from = if p < ix { p } else { p + 1 };
                            assert(self.items@[p] == pre.items@[from]);
                            assert(pre.items@[from].key() == x);
                            assert(from != ix);
                            assert(pre.items@[from].key() != pre.items@[ix].key());
                        }
                    };
                    assert forall|x: [u8; 32]| #[trigger] self.holds(x) implies
                        self@[x] == old(self)@.remove(*k)[x] by {
                        let p = self.position(x);
                        self.lemma_position(p);
                        let from = if p < ix { p } else { p + 1 };
                        assert(self.items@[p] == pre.items@[from]);
                        pre.lemma_position(from);
                    };
                    assert(self@ =~= old(self)@.remove(*k));
                }
            },
            None => {
                assert(self@ =~= old(self)@.remove(*k));
            },
        }
    }
}

} // verus!
