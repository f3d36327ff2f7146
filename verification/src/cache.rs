//! Cache of loaded values, keyed by an ordered key, that remembers which
//! entries were used since the last sweep.
use vstd::prelude::*;
use std::collections::BTreeMap;
use std::sync::Arc;
use std::time::Instant;
use crate::clock::{elapsed_secs, instant_now};

verus! {

/// Calls `Arc::clone`, which hands out another pointer to the same
/// allocation; the pointed-to value is therefore the same.
#[verifier::external_body]
fn clone_arc<T>(value: &Arc<T>) -> (shared: Arc<T>)
    ensures
        shared == *value,
{
    Arc::clone(value)
}

/// One cached value with its usage bookkeeping.
pub struct CacheEntry<T> {
    value: Arc<T>,
    last_use: Instant,
    flag_used: bool,
}

impl<T> CacheEntry<T> {
    pub closed spec fn value(self) -> T {
        *self.value
    }

    /// Whether the entry was used since the last commit.
    pub closed spec fn used(self) -> bool {
        self.flag_used
    }

    /// When the entry was last committed as used.
    pub closed spec fn last_used_at(self) -> Instant {
        self.last_use
    }

    pub fn create(value: T) -> (entry: Self)
        ensures
            entry.value() == value,
            !entry.used(),
    {
        CacheEntry { value: Arc::new(value), last_use: instant_now(), flag_used: false }
    }

    pub fn flag_use(&mut self)
        ensures
            final(self).value() == old(self).value(),
            final(self).used(),
    {
        self.flag_used = true;
    }

    /// Commits the used flag. Returns the seconds since last use: zero when
    /// the entry was used since the last commit (which restarts the count),
    /// otherwise the clock's count since the last use.
    pub fn commit_use(&mut self) -> (idle_secs: u64)
        ensures
            final(self).value() == old(self).value(),
            !final(self).used(),
            old(self).used() ==> idle_secs == 0,
            !old(self).used() ==> final(self).last_used_at() == old(self).last_used_at(),
    {
        if self.flag_used {
            self.flag_used = false;
            self.last_use = instant_now();
            0
        } else {
            elapsed_secs(&self.last_use)
        }
    }
}

/// Lazily filled cache: a value is loaded by the loader the first time its
/// key is looked up and shared afterwards.
#[verifier::reject_recursive_types(K)]
#[verifier::reject_recursive_types(V)]
#[verifier::reject_recursive_types(E)]
pub struct EntryCache<K: Ord, V, E, F: Fn(&K) -> Result<V, E>> {
    loader: F,
    cache: BTreeMap<K, CacheEntry<V>>,
}

impl<K: Ord, V, E, F: Fn(&K) -> Result<V, E>> EntryCache<K, V, E, F> {
    /// The values cached so far, by key.
    pub closed spec fn values(self) -> Map<K, V> {
        self.cache@.map_values(|e: CacheEntry<V>| e.value())
    }

    /// Which cached entries were used since their last commit.
    pub closed spec fn used(self) -> Map<K, bool> {
        self.cache@.map_values(|e: CacheEntry<V>| e.used())
    }

    pub closed spec fn loader(self) -> F {
        self.loader
    }

    pub fn new(loader: F) -> (cache: Self)
        requires
            vstd::laws_cmp::obeys_cmp::<K>(),
            forall|k: &K| #[trigger] loader.requires((k,)),
        ensures
            cache.values() == Map::<K, V>::empty(),
            cache.loader() == loader,
    {
        EntryCache { loader, cache: BTreeMap::new() }
    }

    /// Returns the value cached for `key`, loading and caching it first when
    /// it is not cached yet. The entry is flagged as used. A loader error is
    /// handed back and leaves the cache as it was.
    pub fn lookup(&mut self, key: K) -> (result: Result<Arc<V>, E>)
        requires
            vstd::laws_cmp::obeys_cmp::<K>(),
            forall|k: &K| #[trigger] old(self).loader().requires((k,)),
        ensures
            final(self).loader() == old(self).loader(),
            spec_lookup(old(self).loader(), old(self).values(), old(self).used(), key, match result {
                Ok(v) => Ok(*v),
                Err(e) => Err(e),
            }, final(self).values(), final(self).used()),
    {
        if self.cache.contains_key(&key) {
            let entry = self.cache.get(&key).unwrap();
            let value = clone_arc(&entry.value);
            let updated = CacheEntry { value: clone_arc(&entry.value), last_use: entry.last_use, flag_used: true };
            self.cache.insert(key, updated);
            proof {
                assert(self.values() =~= old(self).values());
                assert(self.used() =~= old(self).used().insert(key, true));
            }
            return Ok(value);
        }
        proof { assert(old(self).loader().requires((&key,))); }
        let loaded = (self.loader)(&key);
        match loaded {
            Ok(v) => {
                let mut entry = CacheEntry::create(v);
                entry.flag_use();
                let value = clone_arc(&entry.value);
                self.cache.insert(key, entry);
                proof {
                    assert(self.values() =~= old(self).values().insert(key, *value));
                    assert(self.used() =~= old(self).used().insert(key, true));
                }
                Ok(value)
            },
            Err(e) => Err(e),
        }
    }

    /// Sweeps unused entries. Nothing is removed at present: the cache keeps
    /// every loaded value.
    pub fn cleanup(&self)
    {
    }
}

/// What one lookup does: a cached key yields its cached value and is
/// flagged as used; an uncached key is loaded, and a loaded value is cached
/// and flagged while a loader error leaves the cache alone.
pub open spec fn spec_lookup<K, V, E, F: Fn(&K) -> Result<V, E>>(
    loader: F,
    values: Map<K, V>,
    used: Map<K, bool>,
    key: K,
    result: Result<V, E>,
    new_values: Map<K, V>,
    new_used: Map<K, bool>,
) -> bool {
    if values.contains_key(key) {
        &&& result == Ok::<V, E>(values[key])
        &&& new_values == values
        &&& new_used == used.insert(key, true)
    } else {
        &&& loader.ensures((&key,), result)
        &&& match result {
            Ok(v) => new_values == values.insert(key, v) && new_used == used.insert(key, true),
            Err(_) => new_values == values && new_used == used,
        }
    }
}

/// Looking a key up twice gives the same value the second time, served
/// from the cache, as long as the first lookup succeeded.
pub proof fn lemma_lookup_is_memoized<K, V, E, F: Fn(&K) -> Result<V, E>>(
    loader: F,
    values0: Map<K, V>,
    used0: Map<K, bool>,
    key: K,
    first: V,
    values1: Map<K, V>,
    used1: Map<K, bool>,
    second: Result<V, E>,
    values2: Map<K, V>,
    used2: Map<K, bool>,
)
    requires
        spec_lookup(loader, values0, used0, key, Ok(first), values1, used1),
        spec_lookup(loader, values1, used1, key, second, values2, used2),
    ensures
        second == Ok::<V, E>(first),
        values2 == values1,
        values1.contains_key(key),
{
}

} // verus!
