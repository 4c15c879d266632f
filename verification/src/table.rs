//! A small association table: keys in insertion order, one value per key.
//!
//! The table is viewed as a `Map` from key views to values; the order in
//! which keys were first inserted is also part of its model, so that walks
//! over the table are deterministic.

use vstd::prelude::*;
use crate::account::{AccountId, Address};

verus! {

/// A key that can be compared and duplicated in executable code, with both
/// operations tied to its view.
pub trait TableKey: View + Sized {
    /// Whether two keys denote the same view.
    fn same(&self, other: &Self) -> (r: bool)
        ensures
            r == (self@ == other@),
    ;

    /// A fresh key with the same view.
    fn duplicate(&self) -> (r: Self)
        ensures
            r@ == self@,
    ;
}

impl TableKey for AccountId {
    fn same(&self, other: &Self) -> (r: bool) {
        AccountId::same(self, other)
    }

    fn duplicate(&self) -> (r: Self) {
        *self
    }
}

impl TableKey for Address {
    fn same(&self, other: &Self) -> (r: bool) {
        Address::same(self, other)
    }

    fn duplicate(&self) -> (r: Self) {
        *self
    }
}

impl TableKey for String {
    fn same(&self, other: &Self) -> (r: bool) {
        *self == *other
    }

    fn duplicate(&self) -> (r: Self) {
        self.clone()
    }
}

/// Byte-wise comparison of two byte vectors.
pub fn bytes_same(a: &Vec<u8>, b: &Vec<u8>) -> (r: bool)
    ensures
        r == (a@ == b@),
{
    if a.len() != b.len() {
        return false;
    }
    let mut i: usize = 0;
    while i < a.len()
        invariant
            i <= a.len(),
            a.len() == b.len(),
            forall|j: int| 0 <= j < i ==> a@[j] == b@[j],
        decreases a.len() - i,
    {
        if a[i] != b[i] {
            return false;
        }
        i += 1;
    }
    assert(a@ =~= b@);
    true
}

/// A copy of a byte vector.
pub fn bytes_copy(a: &Vec<u8>) -> (r: Vec<u8>)
    ensures
        r@ == a@,
{
    let mut out: Vec<u8> = Vec::new();
    let mut i: usize = 0;
    while i < a.len()
        invariant
            i <= a.len(),
            out@ == a@.take(i as int),
        decreases a.len() - i,
    {
        out.push(a[i]);
        assert(a@.take(i + 1) =~= a@.take(i as int).push(a@[i as int]));
        i += 1;
    }
    assert(a@.take(a@.len() as int) =~= a@);
    out
}

impl TableKey for Vec<u8> {
    fn same(&self, other: &Self) -> (r: bool) {
        bytes_same(self, other)
    }

    fn duplicate(&self) -> (r: Self) {
        bytes_copy(self)
    }
}

/// The views of a list of keys.
pub open spec fn key_views<K: View>(keys: Seq<K>) -> Seq<K::V> {
    Seq::new(keys.len(), |i: int| keys[i]@)
}

/// An association table with keys of type `K` and values of type `V`.
#[derive(Clone, Debug, PartialEq, Eq)]
pub struct Table<K, V> {
    keys: Vec<K>,
    vals: Vec<V>,
}

impl<K: TableKey, V> Table<K, V> {
    /// The key views, in the order of first insertion.
    pub closed spec fn keys(&self) -> Seq<K::V> {
        Seq::new(self.keys@.len(), |i: int| self.keys@[i]@)
    }

    /// The values, in the order of their keys.
    pub closed spec fn values(&self) -> Seq<V> {
        self.vals@
    }

    /// Every key has one value and no key occurs twice.
    pub open spec fn wf(&self) -> bool {
        &&& self.keys().len() == self.values().len()
        &&& self.keys().no_duplicates()
    }

    /// Whether the table holds a value for `k`.
    pub open spec fn contains(&self, k: K::V) -> bool {
        self.keys().contains(k)
    }

    /// The value stored for `k`.
    pub open spec fn get(&self, k: K::V) -> V
        recommends
            self.contains(k),
    {
        self.values()[self.keys().index_of(k)]
    }

    /// The table as a map from key views to values.
    pub open spec fn map(&self) -> Map<K::V, V> {
        Map::new(|k: K::V| self.contains(k), |k: K::V| self.get(k))
    }

    /// An empty table.
    pub fn new() -> (r: Self)
        ensures
            r.wf(),
            r.keys() == Seq::<K::V>::empty(),
            r.values() == Seq::<V>::empty(),
            r.map() == Map::<K::V, V>::empty(),
    {
        let r = Table { keys: Vec::new(), vals: Vec::new() };
        assert(r.keys() =~= Seq::<K::V>::empty());
        assert(r.map() =~= Map::<K::V, V>::empty());
        r
    }

    /// Whether no key occurs twice in `keys`.
    pub fn distinct(keys: &Vec<K>) -> (r: bool)
        ensures
            r == key_views(keys@).no_duplicates(),
    {
        let mut i: usize = 0;
        while i < keys.len()
            invariant
                i <= keys@.len(),
                forall|a: int, b: int|
                    0 <= a < b < i ==> (#[trigger] key_views(keys@)[a]) != (#[trigger] key_views(
                        keys@,
                    )[b]),
            decreases keys@.len() - i,
        {
            let mut j: usize = 0;
            while j < i
                invariant
                    j <= i < keys@.len(),
                    forall|a: int| 0 <= a < j ==> (#[trigger] key_views(keys@)[a]) != key_views(
                        keys@,
                    )[i as int],
                decreases i - j,
            {
                if keys[j].same(&keys[i]) {
                    assert(key_views(keys@)[j as int] == key_views(keys@)[i as int]);
                    return false;
                }
                j += 1;
            }
            i += 1;
        }
        true
    }

    /// The table that holds `vals[i]` for `keys[i]`, in that order, where
    /// there is one value for each key and no key occurs twice.
    pub fn from_entries(keys: Vec<K>, vals: Vec<V>) -> (r: Option<Self>)
        ensures
            match r {
                Some(table) => table.wf() && table.keys() == key_views(keys@) && table.values()
                    == vals@,
                None => keys@.len() != vals@.len() || !key_views(keys@).no_duplicates(),
            },
    {
        if keys.len() != vals.len() || !Self::distinct(&keys) {
            return None;
        }
        let table = Table { keys, vals };
        assert(table.keys() =~= key_views(keys@));
        Some(table)
    }

    /// Whether every key has one value and no key occurs twice.
    pub fn is_wf(&self) -> (r: bool)
        ensures
            r == self.wf(),
    {
        assert(self.keys() =~= key_views(self.keys@));
        self.keys.len() == self.vals.len() && Self::distinct(&self.keys)
    }

    /// The keys and the values of the table, in the order of insertion.
    pub fn into_entries(self) -> (r: (Vec<K>, Vec<V>))
        ensures
            key_views(r.0@) == self.keys(),
            r.1@ == self.values(),
    {
        assert(key_views(self.keys@) =~= self.keys());
        (self.keys, self.vals)
    }

    /// The number of keys.
    pub fn len(&self) -> (n: usize)
        requires
            self.wf(),
        ensures
            n == self.keys().len(),
    {
        self.keys.len()
    }

    /// The key at position `i` of the insertion order.
    pub fn key_at(&self, i: usize) -> (k: &K)
        requires
            self.wf(),
            i < self.keys().len(),
        ensures
            k@ == self.keys()[i as int],
    {
        &self.keys[i]
    }

    /// The value at position `i` of the insertion order.
    pub fn value_at(&self, i: usize) -> (v: &V)
        requires
            self.wf(),
            i < self.keys().len(),
        ensures
            *v == self.values()[i as int],
    {
        &self.vals[i]
    }

    /// The value at position `i` of the insertion order, to be changed in
    /// place.
    pub fn value_at_mut(&mut self, i: usize) -> (v: &mut V)
        requires
            old(self).wf(),
            i < old(self).keys().len(),
        ensures
            *v == old(self).values()[i as int],
            final(self).keys() == old(self).keys(),
            final(self).values() == old(self).values().update(i as int, *final(v)),
            final(self).wf(),
    {
        &mut self.vals[i]
    }

    /// The position of `k` in the insertion order, if the table holds it.
    pub fn position(&self, k: &K) -> (r: Option<usize>)
        requires
            self.wf(),
        ensures
            match r {
                Some(i) => i < self.keys().len() && self.keys()[i as int] == k@
                    && self.keys().index_of(k@) == i,
                None => !self.contains(k@),
            },
    {
        let mut i: usize = 0;
        while i < self.keys.len()
            invariant
                i <= self.keys@.len(),
                self.wf(),
                forall|j: int| 0 <= j < i ==> self.keys()[j] != k@,
            decreases self.keys@.len() - i,
        {
            if self.keys[i].same(k) {
                assert(self.keys()[i as int] == k@);
                assert(self.keys().contains(k@));
                return Some(i);
            }
            i += 1;
        }
        None
    }

    /// Whether the table holds a value for `k`.
    pub fn contains_key(&self, k: &K) -> (r: bool)
        requires
            self.wf(),
        ensures
            r == self.contains(k@),
    {
        self.position(k).is_some()
    }

    /// The value stored for `k`, if any.
    pub fn lookup(&self, k: &K) -> (r: Option<&V>)
        requires
            self.wf(),
        ensures
            r == (if self.contains(k@) {
                Some(&self.get(k@))
            } else {
                None
            }),
    {
        match self.position(k) {
            Some(i) => {
                assert(self.keys().contains(k@));
                Some(&self.vals[i])
            },
            None => None,
        }
    }

    /// Stores `v` for `k`, replacing the value that `k` had, if any. A new
    /// key goes to the end of the insertion order.
    pub fn insert(&mut self, k: K, v: V)
        requires
            old(self).wf(),
        ensures
            final(self).wf(),
            final(self).map() == old(self).map().insert(k@, v),
            final(self).keys() == (if old(self).contains(k@) {
                old(self).keys()
            } else {
                old(self).keys().push(k@)
            }),
            final(self).values() == (if old(self).contains(k@) {
                old(self).values().update(old(self).keys().index_of(k@), v)
            } else {
                old(self).values().push(v)
            }),
    {
        let ghost before = *self;
        match self.position(&k) {
            Some(i) => {
                self.vals.set(i, v);
                assert(self.keys() =~= before.keys());
                assert forall|q: K::V| self.map().contains_key(q) implies #[trigger] self.map()[q]
                    == before.map().insert(k@, v)[q] by {
                    let j = before.keys().index_of(q);
                    assert(before.keys()[j] == q);
                }
                assert(self.map() =~= before.map().insert(k@, v));
            },
            None => {
                self.keys.push(k);
                self.vals.push(v);
                assert(self.keys() =~= before.keys().push(k@));
                assert forall|q: K::V| self.keys().contains(q) implies (before.keys().contains(q)
                    || q == k@) by {
                    let j = self.keys().index_of(q);
                    assert(self.keys()[j] == q);
                    if j < before.keys().len() {
                        assert(before.keys()[j] == q);
                    }
                }
                assert forall|q: K::V| before.keys().contains(q) implies self.keys().contains(
                    q,
                ) by {
                    let j = before.keys().index_of(q);
                    assert(self.keys()[j] == q);
                }
                assert(self.keys()[before.keys().len() as int] == k@);
                assert forall|q: K::V| self.map().contains_key(q) implies #[trigger] self.map()[q]
                    == before.map().insert(k@, v)[q] by {
                    let j = self.keys().index_of(q);
                    assert(self.keys()[j] == q);
                    if q != k@ {
                        let j0 = before.keys().index_of(q);
                        assert(before.keys()[j0] == q);
                        assert(self.keys()[j0] == q);
                    }
                }
                assert(self.map() =~= before.map().insert(k@, v));
            },
        }
    }
}

} // verus!
