//! Persistent-storage entries kept per key.
//!
//! Each store keeps the assignments made to its keys, in order; the value of
//! a key is the latest value assigned to it, and a key that was never
//! assigned has no value.

use vstd::prelude::*;

use crate::address::Address;

verus! {

/// The latest value assigned to `key` in `log`, if any.
pub open spec fn latest<K, V>(log: Seq<(K, V)>, key: K) -> Option<V>
    decreases log.len(),
{
    if log.len() == 0 {
        None
    } else if log.last().0 == key {
        Some(log.last().1)
    } else {
        latest(log.drop_last(), key)
    }
}

/// Entries keyed by identifier.
pub struct IdStore<V> {
    pub log: Vec<(u32, V)>,
}

impl<V> IdStore<V> {
    /// The value stored under `id`, if any.
    pub open spec fn value(&self, id: u32) -> Option<V> {
        latest(self.log@, id)
    }

    /// An empty store.
    pub fn new() -> (r: Self)
        ensures
            forall|id: u32| r.value(id) is None,
    {
        IdStore { log: Vec::new() }
    }

    /// The value stored under `id`, if any.
    pub fn get(&self, id: u32) -> (r: Option<&V>)
        ensures
            match r {
                Some(v) => self.value(id) == Some(*v),
                None => self.value(id) is None,
            },
    {
        let ghost log = self.log@;
        let mut i: usize = self.log.len();
        assert(log.take(i as int) =~= log);
        while i > 0
            invariant
                i <= self.log.len(),
                log == self.log@,
                latest(log, id) == latest(log.take(i as int), id),
            decreases i,
        {
            i = i - 1;
            assert(log.take(i + 1).drop_last() =~= log.take(i as int));
            assert(log.take(i + 1).last() == log[i as int]);
            if self.log[i].0 == id {
                return Some(&self.log[i].1);
            }
        }
        None
    }

    /// Stores `v` under `id`.
    pub fn set(&mut self, id: u32, v: V)
        ensures
            final(self).log@ == old(self).log@.push((id, v)),
            final(self).value(id) == Some(v),
            forall|k: u32| k != id ==> final(self).value(k) == old(self).value(k),
    {
        let ghost pre = self.log@;
        self.log.push((id, v));
        assert(self.log@.drop_last() =~= pre);
    }
}

/// The latest identifier list assigned to address `a` in `log` (empty if
/// none).
pub open spec fn ids_of(log: Seq<(Address, Vec<u32>)>, a: Seq<char>) -> Seq<u32>
    decreases log.len(),
{
    if log.len() == 0 {
        Seq::empty()
    } else if log.last().0@ == a {
        log.last().1@
    } else {
        ids_of(log.drop_last(), a)
    }
}

/// Identifier lists keyed by address.
pub struct AddressIds {
    pub log: Vec<(Address, Vec<u32>)>,
}

impl AddressIds {
    /// The list stored under address `a` (empty if none).
    pub open spec fn list(&self, a: Seq<char>) -> Seq<u32> {
        ids_of(self.log@, a)
    }

    /// An empty store.
    pub fn new() -> (r: Self)
        ensures
            forall|a: Seq<char>| r.list(a) == Seq::<u32>::empty(),
    {
        AddressIds { log: Vec::new() }
    }

    /// The list stored under `a`, empty if none.
    pub fn get(&self, a: &Address) -> (r: Vec<u32>)
        ensures
            r@ == self.list(a@),
    {
        let ghost log = self.log@;
        let mut i: usize = self.log.len();
        assert(log.take(i as int) =~= log);
        while i > 0
            invariant
                i <= self.log.len(),
                log == self.log@,
                ids_of(log, a@) == ids_of(log.take(i as int), a@),
            decreases i,
        {
            i = i - 1;
            assert(log.take(i + 1).drop_last() =~= log.take(i as int));
            assert(log.take(i + 1).last() == log[i as int]);
            if self.log[i].0 == *a {
                let r = self.log[i].1.clone();
                assert(r@ =~= self.log[i as int].1@);
                return r;
            }
        }
        Vec::new()
    }

    /// Stores `ids` under `a`.
    pub fn set(&mut self, a: &Address, ids: Vec<u32>)
        ensures
            final(self).list(a@) == ids@,
            forall|b: Seq<char>| b != a@ ==> final(self).list(b) == old(self).list(b),
    {
        let ghost pre = self.log@;
        self.log.push((a.clone(), ids));
        assert(self.log@.drop_last() =~= pre);
    }
}

} // verus!
