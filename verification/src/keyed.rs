//! A contract's keyed storage: a list of (key, value) entries, one per key, whose
//! contents are a map.
use vstd::prelude::*;

use crate::address::Address;

verus! {

/// A storage key: a value that can be compared for equality.
pub trait Key: Sized {
    /// Whether `self` and `other` are the same key.
    fn same(&self, other: &Self) -> (r: bool)
        ensures
            r == (*self == *other),
    ;
}

impl Key for Address {
    fn same(&self, other: &Self) -> (r: bool) {
        self.id == other.id
    }
}

impl Key for (Address, Address) {
    fn same(&self, other: &Self) -> (r: bool) {
        self.0.id == other.0.id && self.1.id == other.1.id
    }
}

impl Key for [u8; 32] {
    fn same(&self, other: &Self) -> (r: bool) {
        let mut i: usize = 0;
        while i < 32
            invariant
                i <= 32,
                forall|j: int| 0 <= j < i ==> self@[j] == other@[j],
            decreases 32 - i,
        {
            if self[i] != other[i] {
                return false;
            }
            i += 1;
        }
        assert(self@ =~= other@);
        proof {
            vstd::array::axiom_array_ext_equal(*self, *other);
        }
        true
    }
}

/// The list `entries` holds one entry per key, and `map` is what it holds.
spec fn entries_match<K, V>(entries: Seq<(K, V)>, map: Map<K, V>) -> bool {
    &&& forall|i: int, j: int| 0 <= i < j < entries.len() ==> entries[i].0 != entries[j].0
    &&& forall|i: int|
        0 <= i < entries.len() ==> map.contains_key(#[trigger] entries[i].0) && map[entries[i].0]
            == entries[i].1
    &&& forall|k: K| #[trigger]
        map.contains_key(k) ==> exists|i: int| 0 <= i < entries.len() && #[trigger] entries[i].0 == k
}

/// Keyed storage holding at most one value per key.
#[verifier::reject_recursive_types(K)]
pub struct KeyedList<K, V> {
    entries: Vec<(K, V)>,
    map: Ghost<Map<K, V>>,
}

impl<K: Key, V> View for KeyedList<K, V> {
    type V = Map<K, V>;

    closed spec fn view(&self) -> Map<K, V> {
        self.map@
    }
}

impl<K: Key, V> KeyedList<K, V> {
    /// Well-formedness: the entry list and the map agree, and the map is finite.
    pub closed spec fn wf(&self) -> bool {
        &&& entries_match(self.entries@, self.map@)
        &&& self.map@.dom().finite()
    }

    /// Empty storage.
    pub fn new() -> (r: Self)
        ensures
            r.wf(),
            r@ == Map::<K, V>::empty(),
    {
        KeyedList { entries: Vec::new(), map: Ghost(Map::empty()) }
    }

    /// Index of the entry of `k`, if there is one.
    fn find(&self, k: &K) -> (r: Option<usize>)
        requires
            self.wf(),
        ensures
            match r {
                Some(i) => i < self.entries@.len() && self.entries@[i as int].0 == *k,
                None => !self@.contains_key(*k),
            },
    {
        let mut i: usize = 0;
        while i < self.entries.len()
            invariant
                self.wf(),
                i <= self.entries@.len(),
                forall|j: int| 0 <= j < i ==> self.entries@[j].0 != *k,
            decreases self.entries@.len() - i,
        {
            if self.entries[i].0.same(k) {
                return Some(i);
            }
            i += 1;
        }
        None
    }

    /// The value stored under `k`, if any.
    pub fn get(&self, k: &K) -> (r: Option<&V>)
        requires
            self.wf(),
        ensures
            match r {
                Some(v) => self@.contains_key(*k) && *v == self@[*k],
                None => !self@.contains_key(*k),
            },
    {
        match self.find(k) {
            Some(i) => Some(&self.entries[i].1),
            None => None,
        }
    }

    /// Stores `v` under `k`, replacing any earlier value.
    pub fn put(&mut self, k: K, v: V)
        requires
            old(self).wf(),
        ensures
            final(self).wf(),
            final(self)@ == old(self)@.insert(k, v),
    {
        let ghost new_map = self.map@.insert(k, v);
        match self.find(&k) {
            Some(i) => {
                self.entries.set(i, (k, v));
                self.map = Ghost(new_map);
                assert forall|a: K| #[trigger]
                    self.map@.contains_key(a) implies exists|m: int|
                        0 <= m < self.entries@.len() && #[trigger] self.entries@[m].0 == a by {
                    if a != k {
                        let m: int = choose|m: int|
                            0 <= m < old(self).entries@.len() && #[trigger] old(self).entries@[m].0
                                == a;
                        assert(self.entries@[m].0 == a);
                    } else {
                        assert(self.entries@[i as int].0 == a);
                    }
                }
            },
            None => {
                self.entries.push((k, v));
                self.map = Ghost(new_map);
                let ghost n: int = self.entries@.len() - 1;
                assert forall|a: K| #[trigger]
                    self.map@.contains_key(a) implies exists|m: int|
                        0 <= m < self.entries@.len() && #[trigger] self.entries@[m].0 == a by {
                    if a != k {
                        let m: int = choose|m: int|
                            0 <= m < old(self).entries@.len() && #[trigger] old(self).entries@[m].0
                                == a;
                        assert(self.entries@[m].0 == a);
                    } else {
                        assert(self.entries@[n].0 == a);
                    }
                }
                assert forall|a: int, b: int|
                    0 <= a < b < self.entries@.len() implies self.entries@[a].0
                    != self.entries@[b].0 by {
                    if b == n {
                        assert(old(self).map@.contains_key(old(self).entries@[a].0));
                    }
                }
            },
        }
        assert(self@ =~= old(self)@.insert(k, v));
    }

    /// Removes the value stored under `k`, if any.
    pub fn remove(&mut self, k: &K)
        requires
            old(self).wf(),
        ensures
            final(self).wf(),
            final(self)@ == old(self)@.remove(*k),
    {
        let ghost new_map = self.map@.remove(*k);
        match self.find(k) {
            Some(i) => {
                let ghost old_entries = self.entries@;
                self.entries.remove(i);
                self.map = Ghost(new_map);
                assert forall|m: int| 0 <= m < self.entries@.len() implies #[trigger] self.entries@[m]
                    == old_entries[if m < i { m } else { m + 1 }] by {}
                assert forall|a: int, b: int|
                    0 <= a < b < self.entries@.len() implies self.entries@[a].0
                    != self.entries@[b].0 by {
                    let a0: int = if a < i { a } else { a + 1 };
                    let b0: int = if b < i { b } else { b + 1 };
                    assert(self.entries@[a] == old_entries[a0]);
                    assert(self.entries@[b] == old_entries[b0]);
                }
                assert forall|m: int| 0 <= m < self.entries@.len() implies self.map@.contains_key(
                    #[trigger] self.entries@[m].0,
                ) && self.map@[self.entries@[m].0] == self.entries@[m].1 by {
                    let m0: int = if m < i { m } else { m + 1 };
                    assert(self.entries@[m] == old_entries[m0]);
                    assert(old_entries[m0].0 != *k);
                }
                assert forall|a: K| #[trigger]
                    self.map@.contains_key(a) implies exists|m: int|
                        0 <= m < self.entries@.len() && #[trigger] self.entries@[m].0 == a by {
                    let m0: int = choose|m: int|
                        0 <= m < old_entries.len() && #[trigger] old_entries[m].0 == a;
                    assert(m0 != i);
                    let m: int = if m0 < i { m0 } else { m0 - 1 };
                    assert(self.entries@[m] == old_entries[m0]);
                    assert(self.entries@[m].0 == a);
                }
            },
            None => {
                assert(new_map =~= self.map@);
            },
        }
        assert(self@ =~= old(self)@.remove(*k));
    }
}

} // verus!
