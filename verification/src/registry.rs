//! The chain whitelist registry.
//!
//! The registry maps each destination-chain identifier to its deposit
//! counter; a chain is whitelisted exactly when an entry for it exists,
//! whatever the counter's value. It also issues the next deposit nonce for a
//! whitelisted chain, atomically with the counter's update.

use vstd::prelude::*;

use crate::bytes::{bytes_eq, clone_bytes};
use crate::counter::Counter;
use crate::errors::Error;
use crate::kv::{
    assoc_map, lemma_assoc_map_contains, lemma_assoc_map_push, lemma_assoc_map_update,
    lemma_assoc_map_value, unique_keys,
};
use vstd::pervasive::VecAdditionalExecFns;

verus! {

/// Maps destination-chain identifiers to their deposit counters. Presence of
/// an entry means "whitelisted"; entries are never deleted.
pub struct ChainRegistry {
    entries: Vec<(Vec<u8>, Counter)>,
}

impl View for ChainRegistry {
    type V = Map<Seq<u8>, u32>;

    closed spec fn view(&self) -> Map<Seq<u8>, u32> {
        assoc_map(self.kvs())
    }
}

impl ChainRegistry {
    /// The stored entries, as chain identifier and counter value.
    pub closed spec fn kvs(&self) -> Seq<(Seq<u8>, u32)> {
        self.entries@.map_values(|e: (Vec<u8>, Counter)| (e.0@, e.1.0))
    }

    /// No chain identifier is stored twice.
    pub closed spec fn wf(&self) -> bool {
        unique_keys(self.kvs())
    }

    /// An empty registry: no chain is whitelisted.
    pub fn new() -> (reg: ChainRegistry)
        ensures
            reg.wf(),
            reg@ == Map::<Seq<u8>, u32>::empty(),
    {
        let reg = ChainRegistry { entries: Vec::new() };
        proof {
            assert(reg.kvs() =~= Seq::<(Seq<u8>, u32)>::empty());
        }
        reg
    }

    /// The index of the entry for `id`, if one exists.
    fn find(&self, id: &Vec<u8>) -> (r: Option<usize>)
        ensures
            match r {
                Some(i) => i < self.kvs().len() && self.kvs()[i as int].0 == id@,
                None => forall|j: int| 0 <= j < self.kvs().len() ==> self.kvs()[j].0 != id@,
            },
    {
        let mut i: usize = 0;
        while i < self.entries.len()
            invariant
                i <= self.entries.len(),
                forall|j: int| 0 <= j < i ==> self.kvs()[j].0 != id@,
            decreases self.entries.len() - i,
        {
            if bytes_eq(&self.entries[i].0, id) {
                return Some(i);
            }
            i += 1;
        }
        None
    }

    /// Whether `id` is registered as a bridge destination. A pure lookup with
    /// no side effects.
    pub fn is_whitelisted(&self, id: &Vec<u8>) -> (r: bool)
        ensures
            r == self@.contains_key(id@),
    {
        proof {
            lemma_assoc_map_contains(self.kvs(), id@);
        }
        self.find(id).is_some()
    }

    /// The deposit counter stored for `id`, if the chain is whitelisted.
    pub fn counter_of(&self, id: &Vec<u8>) -> (r: Option<u32>)
        requires
            self.wf(),
        ensures
            r == if self@.contains_key(id@) {
                Some(self@[id@])
            } else {
                None::<u32>
            },
    {
        proof {
            lemma_assoc_map_contains(self.kvs(), id@);
        }
        match self.find(id) {
            Some(i) => {
                proof {
                    lemma_assoc_map_value(self.kvs(), i as int);
                }
                Some(self.entries[i].1.0)
            },
            None => None,
        }
    }

    /// Stores `counter` for `id`, replacing any earlier entry.
    pub fn insert(&mut self, id: &Vec<u8>, counter: Counter)
        requires
            old(self).wf(),
        ensures
            final(self).wf(),
            final(self)@ == old(self)@.insert(id@, counter.0),
    {
        let ghost old_kvs = self.kvs();
        match self.find(id) {
            Some(i) => {
                self.entries.set(i, (clone_bytes(id), counter));
                proof {
                    assert(self.kvs() =~= old_kvs.update(i as int, (id@, counter.0)));
                    lemma_assoc_map_update(old_kvs, i as int, counter.0);
                }
            },
            None => {
                self.entries.push((clone_bytes(id), counter));
                proof {
                    assert(self.kvs() =~= old_kvs.push((id@, counter.0)));
                    lemma_assoc_map_push(old_kvs, id@, counter.0);
                }
            },
        }
    }

    /// Registers `id` as a bridge destination with a fresh counter; an already
    /// whitelisted chain has its counter reset to zero.
    pub fn whitelist(&mut self, id: &Vec<u8>)
        requires
            old(self).wf(),
        ensures
            final(self).wf(),
            final(self)@ == old(self)@.insert(id@, 0),
    {
        self.insert(id, Counter(0));
    }

    /// Issues the next deposit nonce for `id`: reads the stored counter,
    /// increments it by exactly one, writes it back and returns the new value.
    /// An unknown chain or an exhausted counter is rejected with nothing
    /// mutated.
    pub fn issue_next(&mut self, id: &Vec<u8>) -> (r: Result<u32, Error>)
        requires
            old(self).wf(),
        ensures
            final(self).wf(),
            !old(self)@.contains_key(id@) ==> r == Err::<u32, Error>(Error::ChainNotWhitelisted)
                && final(self)@ == old(self)@,
            old(self)@.contains_key(id@) && old(self)@[id@] == u32::MAX ==> r == Err::<u32, Error>(
                Error::CounterOverflow,
            ) && final(self)@ == old(self)@,
            old(self)@.contains_key(id@) && old(self)@[id@] < u32::MAX ==> r == Ok::<u32, Error>(
                (old(self)@[id@] + 1) as u32,
            ) && final(self)@ == old(self)@.insert(id@, (old(self)@[id@] + 1) as u32),
    {
        proof {
            lemma_assoc_map_contains(self.kvs(), id@);
        }
        match self.find(id) {
            None => Err(Error::ChainNotWhitelisted),
            Some(i) => {
                proof {
                    lemma_assoc_map_value(self.kvs(), i as int);
                }
                let mut counter: Counter = self.entries[i].1;
                if counter.0 == u32::MAX {
                    Err(Error::CounterOverflow)
                } else {
                    counter.increment();
                    let nonce = counter.0;
                    self.insert(id, counter);
                    Ok(nonce)
                }
            },
        }
    }
}

} // verus!
