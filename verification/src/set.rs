//! A set of host keys that many threads use at once.
//!
//! The keys live in a `DashSet`. Every operation takes `&self`, and other
//! threads may change the set between any two calls and during one call that
//! walks all shards. So the contracts below say what holds of a result
//! whatever the other threads did: which error a call can give and with
//! which object in it, never what the set holds.

use crate::key::{
    host_hashes, key_objects, ForeignKey, HashError, HostObject, KeyError, LookupError,
};
use crate::walk::KeyWalk;
use dashmap::DashSet;
use std::collections::hash_map::RandomState;
use vstd::prelude::*;

verus! {

#[verifier::external_type_specification]
#[verifier::external_body]
#[verifier::reject_recursive_types(K)]
#[verifier::reject_recursive_types(S)]
pub struct ExDashSet<K, S>(DashSet<K, S>);

/// `DashSet::new`: an empty set.
#[verifier::external_body]
fn set_new<H: HostObject>() -> DashSet<ForeignKey<H>, RandomState> {
    DashSet::new()
}

/// `DashSet::len`: the sum of the shards' sizes, each read in its turn.
#[verifier::external_body]
fn set_len<H: HostObject>(set: &DashSet<ForeignKey<H>, RandomState>) -> usize {
    set.len()
}

/// `DashSet::is_empty`: whether `len` is zero.
#[verifier::external_body]
fn set_is_empty<H: HostObject>(set: &DashSet<ForeignKey<H>, RandomState>) -> bool {
    set.is_empty()
}

/// `DashSet::contains`: whether the set has a key equal to the given one.
#[verifier::external_body]
fn set_contains<H: HostObject>(
    set: &DashSet<ForeignKey<H>, RandomState>,
    key: &ForeignKey<H>,
) -> bool {
    set.contains(key)
}

/// `DashSet::insert`: puts the key in, unless the set has an equal key.
#[verifier::external_body]
fn set_insert<H: HostObject>(set: &DashSet<ForeignKey<H>, RandomState>, key: ForeignKey<H>) {
    set.insert(key);
}

/// `DashSet::remove`: takes an equal key out, and says whether there was
/// one.
#[verifier::external_body]
fn set_remove<H: HostObject>(
    set: &DashSet<ForeignKey<H>, RandomState>,
    key: &ForeignKey<H>,
) -> bool {
    set.remove(key).is_some()
}

/// `DashSet::clear`: empties the shards, one after the other.
#[verifier::external_body]
fn set_clear<H: HostObject>(set: &DashSet<ForeignKey<H>, RandomState>) {
    set.clear()
}

/// `DashSet::iter`, with a clone of each key, shard by shard.
#[verifier::external_body]
fn set_keys<H: HostObject>(set: &DashSet<ForeignKey<H>, RandomState>) -> Vec<ForeignKey<H>> {
    set.iter().map(|entry| entry.key().clone()).collect()
}

/// What `remove` gives for whether a key was taken out: nothing, or else
/// the error with the key.
pub fn removed_or_missing<H>(removed: bool, key: H) -> (r: Result<(), KeyError<H>>)
    ensures
        r == if removed {
            Ok::<(), KeyError<H>>(())
        } else {
            Err(KeyError { key })
        },
{
    if removed {
        Ok(())
    } else {
        Err(KeyError { key })
    }
}

/// A set of host keys.
#[verifier::reject_recursive_types(H)]
pub struct ConcurrentSet<H: HostObject> {
    inner: DashSet<ForeignKey<H>, RandomState>,
}

impl<H: HostObject> ConcurrentSet<H> {
    pub fn new() -> Self {
        ConcurrentSet { inner: set_new() }
    }

    /// The number of keys, counted shard by shard.
    pub fn len(&self) -> usize {
        set_len(&self.inner)
    }

    pub fn is_empty(&self) -> bool {
        set_is_empty(&self.inner)
    }

    /// Whether the set has a key equal to `value`.
    pub fn contains(&self, value: H) -> (r: Result<bool, HashError<H>>)
        ensures
            host_hashes(value, r is Ok),
            r matches Err(e) ==> e.value == value,
    {
        match ForeignKey::new(value) {
            Err(e) => Err(e),
            Ok(key) => Ok(set_contains(&self.inner, &key)),
        }
    }

    /// Puts `value` in, unless the set has an equal key.
    pub fn add(&self, value: H) -> (r: Result<(), HashError<H>>)
        ensures
            host_hashes(value, r is Ok),
            r matches Err(e) ==> e.value == value,
    {
        match ForeignKey::new(value) {
            Err(e) => Err(e),
            Ok(key) => {
                set_insert(&self.inner, key);
                Ok(())
            },
        }
    }

    /// Takes a key equal to `value` out, if there is one.
    pub fn discard(&self, value: H) -> (r: Result<(), HashError<H>>)
        ensures
            host_hashes(value, r is Ok),
            r matches Err(e) ==> e.value == value,
    {
        match ForeignKey::new(value) {
            Err(e) => Err(e),
            Ok(key) => {
                let _ = set_remove(&self.inner, &key);
                Ok(())
            },
        }
    }

    /// Takes a key equal to `value` out, or gives the error with `value`
    /// where there is none.
    pub fn remove(&self, value: H) -> (r: Result<(), LookupError<H>>)
        ensures
            host_hashes(value, !(r matches Err(LookupError::Hash(_)))),
            r matches Err(LookupError::Hash(e)) ==> e.value == value,
            r matches Err(LookupError::Key(e)) ==> e.key == value,
    {
        match ForeignKey::new(value) {
            Err(e) => Err(LookupError::Hash(e)),
            Ok(key) => {
                let removed = set_remove(&self.inner, &key);
                match removed_or_missing(removed, key.into_object()) {
                    Ok(()) => Ok(()),
                    Err(e) => Err(LookupError::Key(e)),
                }
            },
        }
    }

    /// Removes all keys, shard by shard.
    pub fn clear(&self) {
        set_clear(&self.inner)
    }

    /// A set of its own with the keys that a walk through the shards met,
    /// each with the hash that it was stored with.
    pub fn copy(&self) -> Self {
        let copied = ConcurrentSet { inner: set_new() };
        let keys = set_keys(&self.inner);
        for key in keys.into_iter() {
            set_insert(&copied.inner, key);
        }
        copied
    }

    /// The objects of the keys, as a walk through the shards met them.
    pub fn export_state(&self) -> Vec<H> {
        key_objects(set_keys(&self.inner))
    }

    /// The objects of the keys, as a pass through the shards met them.
    pub fn keys(&self) -> Vec<H> {
        self.export_state()
    }

    /// A walk through the keys that a pass through the shards meets now.
    /// Each call starts a walk of its own.
    pub fn iter(&self) -> KeyWalk<H> {
        KeyWalk::new(self.keys())
    }

    /// Replaces what the set holds by the values of `state`. Each value is
    /// hashed anew. At the first value that the host cannot hash the import
    /// stops with the error; the values before it are in the set.
    pub fn import_state(&mut self, state: Vec<H>) -> (r: Result<(), HashError<H>>)
        ensures
            r is Ok ==> forall|i: int|
                0 <= i < state@.len() ==> host_hashes(#[trigger] state@[i], true),
            r matches Err(e) ==> exists|i: int|
                {
                    &&& 0 <= i < state@.len()
                    &&& #[trigger] state@[i] == e.value
                    &&& host_hashes(state@[i], false)
                    &&& forall|j: int| 0 <= j < i ==> host_hashes(#[trigger] state@[j], true)
                },
    {
        set_clear(&self.inner);
        for value in it: state.into_iter()
            invariant
                it.seq() == state@,
                forall|j: int| 0 <= j < it.index() ==> host_hashes(#[trigger] state@[j], true),
        {
            match ForeignKey::new(value) {
                Err(e) => {
                    return Err(e);
                },
                Ok(key) => {
                    set_insert(&self.inner, key);
                },
            }
        }
        Ok(())
    }
}

} // verus!
