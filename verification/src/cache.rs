//! Caches in front of the database: what was looked up once is served again
//! without a second lookup.
//!
//! The entries are held by a `moka` cache, which bounds their number and
//! throws out what has not been used. What is cached is shared and never
//! changed. On top of that every entry carries the time at which it was
//! fetched, and a cache with a time to live serves no entry that is older. A
//! lookup that failed leaves no entry behind, so the next request looks
//! again.

use crate::key_seal::Sealed;
use std::hash::Hash;
use std::sync::Arc;
use vstd::prelude::*;

verus! {

/// `moka::sync::Cache`, of which nothing is known here but what the four
/// functions below say of it.
#[verifier::external_type_specification]
#[verifier::external_body]
#[verifier::reject_recursive_types(K)]
#[verifier::reject_recursive_types(V)]
#[verifier::reject_recursive_types(S)]
pub struct ExMokaCache<K, V, S>(moka::sync::Cache<K, V, S>);

/// The longest time to live that the cache underneath takes, in
/// milliseconds: a thousand years of 365 days.
pub const LONGEST_TIME_TO_LIVE_MS: u64 = 31_536_000_000_000;

/// What can be the key of a cache: a type on which `==` holds of two values
/// exactly if they are the same to the contracts. These are the numbers and
/// the texts; no other type can be made a key.
pub trait CacheKey: View + Hash + Eq + Send + Sync + Sealed {

}

impl CacheKey for i64 {

}

impl CacheKey for String {

}

/// A cache of values that were fetched. An entry is a shared value and the
/// time at which it was fetched, in milliseconds since the epoch.
#[verifier::reject_recursive_types(K)]
#[verifier::reject_recursive_types(V)]
pub struct Memo<K: CacheKey, V> {
    inner: moka::sync::Cache<K, (Arc<V>, i64)>,
    max_capacity: Option<u64>,
    time_to_live_ms: Option<u64>,
    stored: Ghost<Map<K::V, (V, i64)>>,
}

/// An entry that was fetched at `fetched_at` may be served at `now` if
/// entries do not expire, or if no more than the time to live has passed.
pub open spec fn fresh(time_to_live_ms: Option<u64>, fetched_at: i64, now: i64) -> bool {
    match time_to_live_ms {
        None => true,
        Some(ttl) => now - fetched_at <= ttl,
    }
}

impl<K: CacheKey + 'static, V: Send + Sync + 'static> Memo<K, V> {
    /// What was stored last under each key: the value, and the time at which
    /// it was fetched. The cache underneath holds this entry for a key, or
    /// none.
    pub closed spec fn stored(&self) -> Map<K::V, (V, i64)> {
        self.stored@
    }

    /// What is stored in a cache in which nothing was stored yet.
    pub open spec fn nothing() -> Map<K::V, (V, i64)> {
        Map::empty()
    }

    /// The most entries that the cache was made to hold, if it was made with
    /// a limit.
    pub closed spec fn max_capacity(&self) -> Option<u64> {
        self.max_capacity
    }

    /// How long an entry is served, if entries expire.
    pub closed spec fn time_to_live_ms(&self) -> Option<u64> {
        self.time_to_live_ms
    }

    /// `moka::sync::Cache::new`: a cache that holds up to `max_capacity`
    /// entries, which do not expire. Nothing is stored in it yet.
    #[verifier::external_body]
    fn raw_bounded(max_capacity: u64) -> (memo: Memo<K, V>)
        ensures
            memo.stored() == Self::nothing(),
            memo.max_capacity() == Some(max_capacity),
            memo.time_to_live_ms() is None,
    {
        Memo {
            inner: moka::sync::Cache::new(max_capacity),
            max_capacity: Some(max_capacity),
            time_to_live_ms: None,
            stored: Ghost(Map::empty()),
        }
    }

    /// `moka::sync::CacheBuilder::time_to_live` and `build`: a cache without
    /// a limit on its entries, which drops an entry `moka_time_to_live_ms`
    /// after it was stored. Nothing is stored in it yet. The builder panics
    /// on more than a thousand years. The time to live by which entries are
    /// served is written down beside it.
    #[verifier::external_body]
    fn raw_expiring(moka_time_to_live_ms: u64, time_to_live_ms: u64) -> (memo: Memo<K, V>)
        requires
            moka_time_to_live_ms <= LONGEST_TIME_TO_LIVE_MS,
        ensures
            memo.stored() == Self::nothing(),
            memo.max_capacity() is None,
            memo.time_to_live_ms() == Some(time_to_live_ms),
    {
        Memo {
            inner: moka::sync::Cache::builder().time_to_live(
                std::time::Duration::from_millis(moka_time_to_live_ms),
            ).build(),
            max_capacity: None,
            time_to_live_ms: Some(time_to_live_ms),
            stored: Ghost(Map::empty()),
        }
    }

    /// `moka::sync::Cache::get`: a clone of the entry that was stored last
    /// under the key, if the cache still holds it. The clone shares its
    /// value with the entry that was stored.
    #[verifier::external_body]
    fn raw_get(&self, key: &K) -> (entry: Option<(Arc<V>, i64)>)
        ensures
            entry matches Some(stamped) ==> self.stored().contains_key(key@) && self.stored()[key@]
                == (*stamped.0, stamped.1),
    {
        self.inner.get(key)
    }

    /// `moka::sync::Cache::insert`: stores the entry under the key, in
    /// place of what was stored under it before.
    #[verifier::external_body]
    fn raw_insert(&mut self, key: K, entry: (Arc<V>, i64))
        ensures
            final(self).stored() == old(self).stored().insert(key@, (*entry.0, entry.1)),
            final(self).max_capacity() == old(self).max_capacity(),
            final(self).time_to_live_ms() == old(self).time_to_live_ms(),
    {
        self.inner.insert(key, entry)
    }

    /// An empty cache of up to `max_capacity` entries that do not expire.
    pub fn bounded(max_capacity: u64) -> (memo: Memo<K, V>)
        ensures
            memo.stored() == Map::<K::V, (V, i64)>::empty(),
            memo.max_capacity() == Some(max_capacity),
            memo.time_to_live_ms() is None,
    {
        Self::raw_bounded(max_capacity)
    }

    /// An empty cache whose entries are served for `time_to_live_ms`
    /// milliseconds after they were fetched.
    pub fn expiring(time_to_live_ms: u64) -> (memo: Memo<K, V>)
        ensures
            memo.stored() == Map::<K::V, (V, i64)>::empty(),
            memo.max_capacity() is None,
            memo.time_to_live_ms() == Some(time_to_live_ms),
    {
        let bound: u64 = if time_to_live_ms <= LONGEST_TIME_TO_LIVE_MS {
            time_to_live_ms
        } else {
            LONGEST_TIME_TO_LIVE_MS
        };
        Self::raw_expiring(bound, time_to_live_ms)
    }

    /// The value may be served for the key at `now`: it is what was stored
    /// last under the key, and it was fetched no longer ago than the time to
    /// live, if there is one.
    pub open spec fn serves(&self, key: K::V, value: V, now: i64) -> bool {
        &&& self.stored().contains_key(key)
        &&& self.stored()[key].0 == value
        &&& fresh(self.time_to_live_ms(), self.stored()[key].1, now)
    }

    /// What is served at `now` of an entry that the cache underneath still
    /// holds: its value, unless the entry is too old.
    pub fn serve(time_to_live_ms: Option<u64>, entry: Option<(Arc<V>, i64)>, now: i64) -> (value:
        Option<Arc<V>>)
        ensures
            value == match entry {
                Some(stamped) => if fresh(time_to_live_ms, stamped.1, now) {
                    Some(stamped.0)
                } else {
                    None
                },
                None => None,
            },
    {
        match entry {
            None => None,
            Some(stamped) => {
                let served = match time_to_live_ms {
                    None => true,
                    Some(ttl) => now as i128 - stamped.1 as i128 <= ttl as i128,
                };
                if served {
                    Some(stamped.0)
                } else {
                    None
                }
            },
        }
    }

    /// The value that the cache serves for the key at `now`, if it serves
    /// one. Whether the cache underneath still holds an entry is up to that
    /// cache; what it holds is what was stored last under the key. Nothing
    /// is served of a key under which nothing was stored, nor of an entry
    /// that is too old.
    pub fn lookup(&self, key: &K, now: i64) -> (value: Option<Arc<V>>)
        ensures
            value matches Some(v) ==> self.serves(key@, *v, now),
    {
        let entry = self.raw_get(key);
        Self::serve(self.time_to_live_ms, entry, now)
    }

    /// Stores a value that was fetched at `now`, in place of what was
    /// stored under the key before.
    pub fn store(&mut self, key: K, value: Arc<V>, now: i64)
        ensures
            final(self).stored() == old(self).stored().insert(key@, (*value, now)),
            final(self).max_capacity() == old(self).max_capacity(),
            final(self).time_to_live_ms() == old(self).time_to_live_ms(),
    {
        self.raw_insert(key, (value, now));
    }

    /// Takes the outcome of a fetch that ended at `now`. A value is stored.
    /// A failure is handed back and nothing is stored, so that the next
    /// request fetches again.
    pub fn complete<E>(&mut self, key: K, fetched: Result<Arc<V>, E>, now: i64) -> (result: Result<
        (),
        E,
    >)
        ensures
            final(self).max_capacity() == old(self).max_capacity(),
            final(self).time_to_live_ms() == old(self).time_to_live_ms(),
            match fetched {
                Ok(value) => result is Ok && final(self).stored() == old(self).stored().insert(
                    key@,
                    (*value, now),
                ),
                Err(error) => result == Err::<(), E>(error) && final(self).stored() == old(
                    self,
                ).stored(),
            },
    {
        match fetched {
            Ok(value) => {
                self.store(key, value, now);
                Ok(())
            },
            Err(error) => Err(error),
        }
    }
}

/// A value that is served now is still served at any earlier time that is
/// not before its fetch, and a cache without a time to live serves what it
/// holds at any time.
pub proof fn lemma_fresh_earlier(time_to_live_ms: Option<u64>, fetched_at: i64, now: i64, earlier: i64)
    requires
        fresh(time_to_live_ms, fetched_at, now),
        earlier <= now,
    ensures
        fresh(time_to_live_ms, fetched_at, earlier),
        time_to_live_ms is None ==> forall|any: i64| fresh(time_to_live_ms, fetched_at, any),
{
}

} // verus!
