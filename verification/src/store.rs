//! An in-memory key-value store with the contract of the service's store
//! adapter: `put` overwrites unconditionally, `get` treats absence as a plain
//! result, `ping` succeeds exactly when a connection is available. Its
//! contents are specified as a map from key to value; reachability can be
//! switched off to exercise the unavailability paths.

use vstd::prelude::*;
use vstd::string::StringExecFns;
use crate::errors::StoreError;

verus! {

/// The mapping a sequence of entries denotes; a later entry for the same key
/// shadows an earlier one.
spec fn entries_map(s: Seq<(String, String)>) -> Map<Seq<char>, Seq<char>>
    decreases s.len(),
{
    if s.len() == 0 {
        Map::empty()
    } else {
        entries_map(s.drop_last()).insert(s.last().0@, s.last().1@)
    }
}

proof fn lemma_absent_key(s: Seq<(String, String)>, k: Seq<char>)
    requires
        forall|j: int| 0 <= j < s.len() ==> s[j].0@ != k,
    ensures
        !entries_map(s).contains_key(k),
    decreases s.len(),
{
    if s.len() > 0 {
        lemma_absent_key(s.drop_last(), k);
    }
}

proof fn lemma_last_match(s: Seq<(String, String)>, i: int, k: Seq<char>)
    requires
        0 <= i < s.len(),
        s[i].0@ == k,
        forall|j: int| i < j < s.len() ==> s[j].0@ != k,
    ensures
        entries_map(s).contains_key(k),
        entries_map(s)[k] == s[i].1@,
    decreases s.len(),
{
    if i < s.len() - 1 {
        lemma_last_match(s.drop_last(), i, k);
    }
}

/// A key-value store holding the service's code-to-URL mappings.
pub struct MemStore {
    entries: Vec<(String, String)>,
    reachable: bool,
}

impl MemStore {
    /// The mapping the store currently holds.
    pub closed spec fn map(self) -> Map<Seq<char>, Seq<char>> {
        entries_map(self.entries@)
    }

    /// Whether a connection can currently be obtained.
    pub closed spec fn is_reachable(self) -> bool {
        self.reachable
    }

    /// A fresh, empty, reachable store.
    pub fn new() -> (r: MemStore)
        ensures
            r.map() == Map::<Seq<char>, Seq<char>>::empty(),
            r.is_reachable(),
    {
        MemStore { entries: Vec::new(), reachable: true }
    }

    /// Switches the store's availability; the stored mappings are untouched.
    /// While unreachable, every operation reports `Unavailable`.
    pub fn set_reachable(&mut self, reachable: bool)
        ensures
            final(self).map() == old(self).map(),
            final(self).is_reachable() == reachable,
    {
        self.reachable = reachable;
    }

    /// Stores `value` under `key`, unconditionally overwriting any existing
    /// value there.
    pub fn put(&mut self, key: &str, value: &str) -> (r: Result<(), StoreError>)
        ensures
            final(self).is_reachable() == old(self).is_reachable(),
            r is Ok <==> old(self).is_reachable(),
            r is Ok ==> final(self).map() == old(self).map().insert(key@, value@),
            r is Err ==> final(self).map() == old(self).map(),
            r matches Err(e) ==> e == StoreError::Unavailable,
    {
        if !self.reachable {
            return Err(StoreError::Unavailable);
        }
        let ghost prior = self.entries@;
        self.entries.push((String::from_str(key), String::from_str(value)));
        proof {
            assert(self.entries@.drop_last() =~= prior);
        }
        Ok(())
    }

    /// Fetches the value stored under `key`; an absent key is a plain empty
    /// result, not an error.
    pub fn get(&self, key: &str) -> (r: Result<Option<String>, StoreError>)
        ensures
            r is Ok <==> self.is_reachable(),
            r matches Ok(Some(v)) ==> self.map().contains_key(key@) && v@ == self.map()[key@],
            r matches Ok(None) ==> !self.map().contains_key(key@),
            r matches Err(e) ==> e == StoreError::Unavailable,
    {
        if !self.reachable {
            return Err(StoreError::Unavailable);
        }
        let k = String::from_str(key);
        let mut i = self.entries.len();
        while i > 0
            invariant
                self.is_reachable(),
                i <= self.entries@.len(),
                k@ == key@,
                forall|j: int| i <= j < self.entries@.len() ==> self.entries@[j].0@ != key@,
            decreases i,
        {
            i = i - 1;
            if self.entries[i].0 == k {
                proof {
                    lemma_last_match(self.entries@, i as int, key@);
                }
                return Ok(Some(self.entries[i].1.clone()));
            }
        }
        proof {
            lemma_absent_key(self.entries@, key@);
        }
        Ok(None)
    }

    /// Succeeds exactly when a connection can be obtained from the pool; used
    /// for health reporting only.
    pub fn ping(&self) -> (r: Result<(), StoreError>)
        ensures
            r is Ok <==> self.is_reachable(),
            r matches Err(e) ==> e == StoreError::Unavailable,
    {
        if self.reachable {
            Ok(())
        } else {
            Err(StoreError::Unavailable)
        }
    }
}

} // verus!
