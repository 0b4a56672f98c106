//! The three lookups that the delivery workers share: actors by their id,
//! activities by their place in the log, and the latest id of the log.
//!
//! Each lookup comes in two steps. The first asks the cache. If the cache
//! serves nothing, the caller fetches from the database and hands the outcome
//! to the second step, which stores what was found. A fetch that failed, or
//! that found nothing, stores nothing.

use crate::actor::{
    actor_from_lookup, ActorLookupError, ActorType, ApubActor, SiteOrMultiOrCommunityOrUser,
};
use crate::cache::Memo;
use crate::config::{
    cache_duration_latest_id, latest_activity_id, latest_id_ttl_ms, ACTIVITY_CACHE_CAPACITY,
    ACTOR_CACHE_CAPACITY,
};
use crate::targets::SentActivity;
use std::sync::Arc;
use vstd::prelude::*;

verus! {

/// The cache of actors, by the text of their id.
pub type ActorCache = Memo<String, SiteOrMultiOrCommunityOrUser>;

/// The cache of activities, by their place in the log.
pub type ActivityCache = Memo<i64, SentActivity>;

/// The cache of the latest id of the log, under the key zero.
pub type LatestIdCache = Memo<i64, i64>;

/// The key of the one entry of the cache of the latest id.
pub const LATEST_ID_KEY: i64 = 0;

/// Why a lookup gave nothing.
#[derive(Debug, PartialEq, Eq)]
pub enum LookupError<E> {
    /// No actor of the kind has the id.
    NotFound(ActorLookupError),
    /// The fetch failed.
    Failed(E),
}

/// `Arc::clone`: another pointer to the same value.
#[verifier::external_body]
fn share<V>(value: &Arc<V>) -> (other: Arc<V>)
    ensures
        other == *value,
{
    Arc::clone(value)
}

/// An empty cache of actors.
pub fn new_actor_cache() -> (cache: ActorCache)
    ensures
        cache.stored() == Map::<Seq<char>, (SiteOrMultiOrCommunityOrUser, i64)>::empty(),
        cache.max_capacity() == Some(ACTOR_CACHE_CAPACITY),
        cache.time_to_live_ms() is None,
{
    Memo::bounded(ACTOR_CACHE_CAPACITY)
}

/// An empty cache of activities.
pub fn new_activity_cache() -> (cache: ActivityCache)
    ensures
        cache.stored() == Map::<i64, (SentActivity, i64)>::empty(),
        cache.max_capacity() == Some(ACTIVITY_CACHE_CAPACITY),
        cache.time_to_live_ms() is None,
{
    Memo::bounded(ACTIVITY_CACHE_CAPACITY)
}

/// An empty cache of the latest id, for test mode or not.
pub fn new_latest_id_cache(fast: bool) -> (cache: LatestIdCache)
    ensures
        cache.stored() == Map::<i64, (i64, i64)>::empty(),
        cache.max_capacity() is None,
        cache.time_to_live_ms() == Some(latest_id_ttl_ms(fast)),
{
    Memo::expiring(cache_duration_latest_id(fast))
}

/// The actor with the id, if the cache serves it.
pub fn get_actor_cached(cache: &ActorCache, actor_apub_id: &String, now: i64) -> (actor: Option<
    Arc<SiteOrMultiOrCommunityOrUser>,
>)
    ensures
        actor matches Some(found) ==> cache.serves(actor_apub_id@, *found, now),
{
    cache.lookup(actor_apub_id, now)
}

/// Takes the outcome of fetching the actor of the given kind with the id:
/// an actor that was found is stored under its kind and handed back; an
/// actor that was not found, and a fetch that failed, give an error and
/// leave the cache as it was.
pub fn actor_fetched<E>(
    cache: &mut ActorCache,
    actor_type: ActorType,
    actor_apub_id: String,
    fetched: Result<Option<ApubActor>, E>,
    now: i64,
) -> (result: Result<Arc<SiteOrMultiOrCommunityOrUser>, LookupError<E>>)
    ensures
        final(cache).max_capacity() == old(cache).max_capacity(),
        final(cache).time_to_live_ms() == old(cache).time_to_live_ms(),
        match fetched {
            Ok(Some(actor)) => {
                &&& result is Ok
                &&& *result->Ok_0 == SiteOrMultiOrCommunityOrUser::of_type(actor_type, actor)
                &&& final(cache).stored() == old(cache).stored().insert(
                    actor_apub_id@,
                    (SiteOrMultiOrCommunityOrUser::of_type(actor_type, actor), now),
                )
            },
            Ok(None) => {
                &&& result == Err::<Arc<SiteOrMultiOrCommunityOrUser>, LookupError<E>>(
                    LookupError::NotFound(ActorLookupError::for_type(actor_type)),
                )
                &&& final(cache).stored() == old(cache).stored()
            },
            Err(error) => {
                &&& result == Err::<Arc<SiteOrMultiOrCommunityOrUser>, LookupError<E>>(
                    LookupError::Failed(error),
                )
                &&& final(cache).stored() == old(cache).stored()
            },
        },
{
    match fetched {
        Ok(found) => match actor_from_lookup(actor_type, found) {
            Ok(actor) => {
                let shared = Arc::new(actor);
                cache.store(actor_apub_id, share(&shared), now);
                Ok(shared)
            },
            Err(missing) => Err(LookupError::NotFound(missing)),
        },
        Err(error) => Err(LookupError::Failed(error)),
    }
}

/// The activity with the id, if the cache serves it.
pub fn get_activity_cached(cache: &ActivityCache, activity_id: i64, now: i64) -> (activity: Option<
    Arc<SentActivity>,
>)
    ensures
        activity matches Some(found) ==> cache.serves(activity_id, *found, now),
{
    cache.lookup(&activity_id, now)
}

/// Takes the outcome of fetching the activity with the id: an activity that
/// was read is stored and handed back; a fetch that failed gives its error
/// and leaves the cache as it was.
pub fn activity_fetched<E>(
    cache: &mut ActivityCache,
    activity_id: i64,
    fetched: Result<SentActivity, E>,
    now: i64,
) -> (result: Result<Arc<SentActivity>, E>)
    ensures
        final(cache).max_capacity() == old(cache).max_capacity(),
        final(cache).time_to_live_ms() == old(cache).time_to_live_ms(),
        match fetched {
            Ok(activity) => {
                &&& result is Ok
                &&& *result->Ok_0 == activity
                &&& final(cache).stored() == old(cache).stored().insert(
                    activity_id,
                    (activity, now),
                )
            },
            Err(error) => {
                &&& result == Err::<Arc<SentActivity>, E>(error)
                &&& final(cache).stored() == old(cache).stored()
            },
        },
{
    match fetched {
        Ok(activity) => {
            let shared = Arc::new(activity);
            cache.store(activity_id, share(&shared), now);
            Ok(shared)
        },
        Err(error) => Err(error),
    }
}

/// The latest id of the log, if the cache serves it: the id that was stored
/// last, if it was fetched no longer ago than the cache's time to live.
pub fn get_latest_activity_id(cache: &LatestIdCache, now: i64) -> (latest: Option<i64>)
    ensures
        latest matches Some(id) ==> cache.serves(LATEST_ID_KEY, id, now),
{
    match cache.lookup(&LATEST_ID_KEY, now) {
        Some(id) => Some(*id),
        None => None,
    }
}

/// Takes the outcome of reading the highest id of the log: the latest id is
/// that id, or zero while the log is empty; it is stored and handed back. A
/// read that failed gives its error and leaves the cache as it was.
pub fn latest_activity_id_fetched<E>(
    cache: &mut LatestIdCache,
    highest: Result<Option<i64>, E>,
    now: i64,
) -> (result: Result<i64, E>)
    ensures
        final(cache).max_capacity() == old(cache).max_capacity(),
        final(cache).time_to_live_ms() == old(cache).time_to_live_ms(),
        match highest {
            Ok(id) => {
                let latest = match id {
                    Some(id) => id,
                    None => 0,
                };
                &&& result == Ok::<i64, E>(latest)
                &&& final(cache).stored() == old(cache).stored().insert(
                    LATEST_ID_KEY,
                    (latest, now),
                )
            },
            Err(error) => {
                &&& result == Err::<i64, E>(error)
                &&& final(cache).stored() == old(cache).stored()
            },
        },
{
    match highest {
        Ok(id) => {
            let latest = latest_activity_id(id);
            cache.store(LATEST_ID_KEY, Arc::new(latest), now);
            Ok(latest)
        },
        Err(error) => Err(error),
    }
}

} // verus!
