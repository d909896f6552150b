//! A map from host keys to host objects that many threads use at once.
//!
//! The entries live in a `DashMap`. Every operation takes `&self`, and other
//! threads may change the map between any two calls and during one call that
//! walks all shards. So the contracts below say what holds of a result
//! whatever the other threads did: which error a call can give and with
//! which object in it, never what the map holds.

use crate::key::{host_hashes, ForeignKey, HashError, HostObject, KeyError, LookupError};
use crate::walk::KeyWalk;
use dashmap::mapref::entry::{Entry, OccupiedEntry, VacantEntry};
use dashmap::DashMap;
use std::collections::hash_map::RandomState;
use vstd::prelude::*;

verus! {

#[verifier::external_type_specification]
#[verifier::external_body]
#[verifier::reject_recursive_types(K)]
#[verifier::reject_recursive_types(V)]
#[verifier::reject_recursive_types(S)]
pub struct ExDashMap<K, V, S>(DashMap<K, V, S>);

#[verifier::external_type_specification]
#[verifier::external_body]
#[verifier::reject_recursive_types(K)]
#[verifier::reject_recursive_types(V)]
pub struct ExOccupiedEntry<'a, K, V>(OccupiedEntry<'a, K, V>);

#[verifier::external_type_specification]
#[verifier::external_body]
#[verifier::reject_recursive_types(K)]
#[verifier::reject_recursive_types(V)]
pub struct ExVacantEntry<'a, K, V>(VacantEntry<'a, K, V>);

/// The place of a key in the map, with its shard locked: taken by an entry,
/// or free.
#[verifier::reject_recursive_types(H)]
enum Place<'a, H> {
    Taken(OccupiedEntry<'a, ForeignKey<H>, H>),
    Free(VacantEntry<'a, ForeignKey<H>, H>),
}

/// `DashMap::new`: an empty map.
#[verifier::external_body]
fn map_new<H: HostObject>() -> DashMap<ForeignKey<H>, H, RandomState> {
    DashMap::new()
}

/// `DashMap::len`: the sum of the shards' sizes, each read in its turn.
#[verifier::external_body]
fn map_len<H: HostObject>(map: &DashMap<ForeignKey<H>, H, RandomState>) -> usize {
    map.len()
}

/// `DashMap::is_empty`: whether `len` is zero.
#[verifier::external_body]
fn map_is_empty<H: HostObject>(map: &DashMap<ForeignKey<H>, H, RandomState>) -> bool {
    map.is_empty()
}

/// `DashMap::get`, with a clone of the value that was found.
#[verifier::external_body]
fn map_get<H: HostObject>(map: &DashMap<ForeignKey<H>, H, RandomState>, key: &ForeignKey<H>) -> Option<
    H,
> {
    map.get(key).map(|entry| entry.value().clone())
}

/// `DashMap::insert`: stores the value under the key, in place of a value
/// that an equal key had.
#[verifier::external_body]
fn map_insert<H: HostObject>(
    map: &DashMap<ForeignKey<H>, H, RandomState>,
    key: ForeignKey<H>,
    value: H,
) {
    map.insert(key, value);
}

/// `DashMap::remove`: takes the entry of an equal key out, and gives its
/// value.
#[verifier::external_body]
fn map_remove<H: HostObject>(
    map: &DashMap<ForeignKey<H>, H, RandomState>,
    key: &ForeignKey<H>,
) -> Option<H> {
    map.remove(key).map(|entry| entry.1)
}

/// `DashMap::clear`: empties the shards, one after the other.
#[verifier::external_body]
fn map_clear<H: HostObject>(map: &DashMap<ForeignKey<H>, H, RandomState>) {
    map.clear()
}

/// `DashMap::entry`: locks the key's shard and says whether the key has an
/// entry there.
#[verifier::external_body]
fn map_entry<'a, H: HostObject>(
    map: &'a DashMap<ForeignKey<H>, H, RandomState>,
    key: ForeignKey<H>,
) -> Place<'a, H> {
    match map.entry(key) {
        Entry::Occupied(entry) => Place::Taken(entry),
        Entry::Vacant(entry) => Place::Free(entry),
    }
}

/// `OccupiedEntry::get`, with a clone of the value.
#[verifier::external_body]
fn entry_value<'a, H: HostObject>(entry: &OccupiedEntry<'a, ForeignKey<H>, H>) -> H {
    entry.get().clone()
}

/// `VacantEntry::insert`: stores the value under the entry's key and gives
/// the shard free.
#[verifier::external_body]
fn entry_fill<'a, H: HostObject>(entry: VacantEntry<'a, ForeignKey<H>, H>, value: H) {
    entry.insert(value);
}

/// `DashMap::iter`, with a clone of each key's object, shard by shard.
#[verifier::external_body]
fn map_keys<H: HostObject>(map: &DashMap<ForeignKey<H>, H, RandomState>) -> Vec<H> {
    map.iter().map(|entry| entry.key().object().clone()).collect()
}

/// `DashMap::iter`, with clones of each key's object and of its value,
/// shard by shard.
#[verifier::external_body]
fn map_items<H: HostObject>(map: &DashMap<ForeignKey<H>, H, RandomState>) -> Vec<(H, H)> {
    map.iter().map(|entry| (entry.key().object().clone(), entry.value().clone())).collect()
}

/// What `get` gives for what the lookup found: the value, or else the
/// default.
pub fn found_or<H>(found: Option<H>, default: Option<H>) -> (r: Option<H>)
    ensures
        r == match found {
            Some(value) => Some(value),
            None => default,
        },
{
    match found {
        Some(value) => Some(value),
        None => default,
    }
}

/// What a lookup that must succeed gives for what it found: the value, or
/// else the error with the key.
pub fn found_or_missing<H>(found: Option<H>, key: H) -> (r: Result<H, KeyError<H>>)
    ensures
        r == match found {
            Some(value) => Ok::<H, KeyError<H>>(value),
            None => Err(KeyError { key }),
        },
{
    match found {
        Some(value) => Ok(value),
        None => Err(KeyError { key }),
    }
}

/// What `pop` gives for what the removal took out: the value, or else the
/// default, or else the error with the key.
pub fn removed_or<H>(removed: Option<H>, default: Option<H>, key: H) -> (r: Result<H, KeyError<H>>)
    ensures
        r == match removed {
            Some(value) => Ok::<H, KeyError<H>>(value),
            None => match default {
                Some(value) => Ok(value),
                None => Err(KeyError { key }),
            },
        },
{
    match found_or(removed, default) {
        Some(value) => Ok(value),
        None => Err(KeyError { key }),
    }
}

/// What `setdefault` gives for what the lookup found, and whether it is to be
/// stored: the value found, which stays as it is, or else the default, which
/// is stored.
pub fn present_or_default<H>(found: Option<H>, default: H) -> (r: (H, bool))
    ensures
        r == match found {
            Some(value) => (value, false),
            None => (default, true),
        },
{
    match found {
        Some(value) => (value, false),
        None => (default, true),
    }
}

/// A map from host keys to host objects.
#[verifier::reject_recursive_types(H)]
pub struct ConcurrentDict<H: HostObject> {
    inner: DashMap<ForeignKey<H>, H, RandomState>,
}

impl<H: HostObject> ConcurrentDict<H> {
    pub fn new() -> Self {
        ConcurrentDict { inner: map_new() }
    }

    /// The number of entries, counted shard by shard.
    pub fn len(&self) -> usize {
        map_len(&self.inner)
    }

    pub fn is_empty(&self) -> bool {
        map_is_empty(&self.inner)
    }

    /// Whether the map has an entry for a key equal to `key`.
    pub fn contains(&self, key: H) -> (r: Result<bool, HashError<H>>)
        ensures
            host_hashes(key, r is Ok),
            r matches Err(e) ==> e.value == key,
    {
        match ForeignKey::new(key) {
            Err(e) => Err(e),
            Ok(dict_key) => Ok(map_get(&self.inner, &dict_key).is_some()),
        }
    }

    /// The value under `key`, or the error with `key` where there is none.
    pub fn get_item(&self, key: H) -> (r: Result<H, LookupError<H>>)
        ensures
            host_hashes(key, !(r matches Err(LookupError::Hash(_)))),
            r matches Err(LookupError::Hash(e)) ==> e.value == key,
            r matches Err(LookupError::Key(e)) ==> e.key == key,
    {
        match ForeignKey::new(key) {
            Err(e) => Err(LookupError::Hash(e)),
            Ok(dict_key) => {
                let found = map_get(&self.inner, &dict_key);
                match found_or_missing(found, dict_key.into_object()) {
                    Ok(value) => Ok(value),
                    Err(e) => Err(LookupError::Key(e)),
                }
            },
        }
    }

    /// Stores `value` under `key`, in place of what an equal key had.
    pub fn set(&self, key: H, value: H) -> (r: Result<(), HashError<H>>)
        ensures
            host_hashes(key, r is Ok),
            r matches Err(e) ==> e.value == key,
    {
        match ForeignKey::new(key) {
            Err(e) => Err(e),
            Ok(dict_key) => {
                map_insert(&self.inner, dict_key, value);
                Ok(())
            },
        }
    }

    /// Removes the entry under `key`, or gives the error with `key` where
    /// there is none.
    pub fn delete(&self, key: H) -> (r: Result<(), LookupError<H>>)
        ensures
            host_hashes(key, !(r matches Err(LookupError::Hash(_)))),
            r matches Err(LookupError::Hash(e)) ==> e.value == key,
            r matches Err(LookupError::Key(e)) ==> e.key == key,
    {
        match ForeignKey::new(key) {
            Err(e) => Err(LookupError::Hash(e)),
            Ok(dict_key) => {
                let removed = map_remove(&self.inner, &dict_key);
                match found_or_missing(removed, dict_key.into_object()) {
                    Ok(_) => Ok(()),
                    Err(e) => Err(LookupError::Key(e)),
                }
            },
        }
    }

    /// The value under `key`, or `default` where there is none. A missing
    /// key is no error.
    pub fn get(&self, key: H, default: Option<H>) -> (r: Result<Option<H>, HashError<H>>)
        ensures
            host_hashes(key, r is Ok),
            r matches Err(e) ==> e.value == key,
            r matches Ok(None) ==> default is None,
    {
        match ForeignKey::new(key) {
            Err(e) => Err(e),
            Ok(dict_key) => Ok(found_or(map_get(&self.inner, &dict_key), default)),
        }
    }

    /// The value under `key`, which stays as it is; where there is none,
    /// `default` is stored under `key` and returned. The key's shard stays
    /// locked from the lookup to the store. What is returned and whether
    /// anything is stored is what `present_or_default` makes of what the
    /// lookup found.
    pub fn setdefault(&self, key: H, default: H) -> (r: Result<H, HashError<H>>)
        ensures
            host_hashes(key, r is Ok),
            r matches Err(e) ==> e.value == key,
    {
        match ForeignKey::new(key) {
            Err(e) => Err(e),
            Ok(dict_key) => {
                let place = map_entry(&self.inner, dict_key);
                let found = match &place {
                    Place::Taken(entry) => Some(entry_value(entry)),
                    Place::Free(_) => None,
                };
                let (value, store) = present_or_default(found, default);
                match place {
                    Place::Free(entry) => {
                        if store {
                            entry_fill(entry, value.clone());
                        }
                    },
                    Place::Taken(_) => {},
                }
                Ok(value)
            },
        }
    }

    /// Removes the entry under `key` and gives its value; where there is
    /// none, gives `default`, or the error with `key` where no default is
    /// given.
    pub fn pop(&self, key: H, default: Option<H>) -> (r: Result<H, LookupError<H>>)
        ensures
            host_hashes(key, !(r matches Err(LookupError::Hash(_)))),
            r matches Err(LookupError::Hash(e)) ==> e.value == key,
            r matches Err(LookupError::Key(e)) ==> e.key == key && default is None,
    {
        match ForeignKey::new(key) {
            Err(e) => Err(LookupError::Hash(e)),
            Ok(dict_key) => {
                let removed = map_remove(&self.inner, &dict_key);
                match removed_or(removed, default, dict_key.into_object()) {
                    Ok(value) => Ok(value),
                    Err(e) => Err(LookupError::Key(e)),
                }
            },
        }
    }

    /// Removes all entries, shard by shard.
    pub fn clear(&self) {
        map_clear(&self.inner)
    }

    /// The objects of the keys, as a pass through the shards met them.
    pub fn keys(&self) -> Vec<H> {
        map_keys(&self.inner)
    }

    /// A walk through the keys that a pass through the shards meets now.
    /// Each call starts a walk of its own.
    pub fn iter(&self) -> KeyWalk<H> {
        KeyWalk::new(self.keys())
    }

    /// The entries as pairs of a key's object and a value, as a walk
    /// through the shards met them.
    pub fn export_state(&self) -> Vec<(H, H)> {
        map_items(&self.inner)
    }

    /// Replaces what the map holds by the pairs of `state`, in their order.
    /// Each key is hashed anew. At the first key that the host cannot hash
    /// the import stops with the error; the pairs before it are stored.
    pub fn import_state(&mut self, state: Vec<(H, H)>) -> (r: Result<(), HashError<H>>)
        ensures
            r is Ok ==> forall|i: int|
                0 <= i < state@.len() ==> host_hashes(#[trigger] state@[i].0, true),
            r matches Err(e) ==> exists|i: int|
                {
                    &&& 0 <= i < state@.len()
                    &&& #[trigger] state@[i].0 == e.value
                    &&& host_hashes(state@[i].0, false)
                    &&& forall|j: int| 0 <= j < i ==> host_hashes(#[trigger] state@[j].0, true)
                },
    {
        map_clear(&self.inner);
        for pair in it: state.into_iter()
            invariant
                it.seq() == state@,
                forall|j: int| 0 <= j < it.index() ==> host_hashes(#[trigger] state@[j].0, true),
        {
            let (key, value) = pair;
            match ForeignKey::new(key) {
                Err(e) => {
                    return Err(e);
                },
                Ok(dict_key) => {
                    map_insert(&self.inner, dict_key, value);
                },
            }
        }
        Ok(())
    }
}

} // verus!
