//! The delays and cache settings of the delivery engine.
//!
//! A test mode makes the queue recheck for work far more often. It raises
//! the load a lot and is meant for federation tests only.

use crate::backoff::RetryPolicy;
use crate::worker::WorkerConfig;
use vstd::prelude::*;

verus! {

/// How many actors the actor cache holds.
pub const ACTOR_CACHE_CAPACITY: u64 = 10000;

/// How many activities the activity cache holds.
pub const ACTIVITY_CACHE_CAPACITY: u64 = 10000;

/// How a cache is bounded.
#[derive(Clone, Copy, Debug, PartialEq, Eq, Structural)]
pub struct CachePolicy {
    /// The most entries that the cache holds, if it is bounded by size.
    pub max_capacity: Option<u64>,
    /// How long an entry is served, in milliseconds, if entries expire.
    pub time_to_live_ms: Option<u64>,
}

/// The test mode is on if the setting is there and is not empty.
pub open spec fn fast_mode(setting: Option<String>) -> bool {
    match setting {
        Some(value) => value@.len() > 0,
        None => false,
    }
}

/// Whether the test mode is on, given the value of its setting.
pub fn fast_federation(setting: &Option<String>) -> (fast: bool)
    ensures
        fast == fast_mode(*setting),
{
    match setting {
        Some(value) => !value.as_str().is_empty(),
        None => false,
    }
}

/// The delay before a worker that found no new work looks again, in
/// milliseconds: half a minute, or a tenth of a second in test mode.
pub open spec fn recheck_delay_ms(fast: bool) -> u64 {
    if fast {
        100
    } else {
        30000
    }
}

/// How long the latest activity id is served from the cache, in
/// milliseconds: a second, or as long as the recheck delay in test mode, so
/// that a recheck finds fresh data.
pub open spec fn latest_id_ttl_ms(fast: bool) -> u64 {
    if fast {
        recheck_delay_ms(fast)
    } else {
        1000
    }
}

/// The delay before a worker that found no new work looks again.
pub fn work_finished_recheck_delay(fast: bool) -> (ms: u64)
    ensures
        ms == recheck_delay_ms(fast),
{
    if fast {
        100
    } else {
        30000
    }
}

/// How long the latest activity id is served from the cache.
pub fn cache_duration_latest_id(fast: bool) -> (ms: u64)
    ensures
        ms == latest_id_ttl_ms(fast),
{
    if fast {
        work_finished_recheck_delay(fast)
    } else {
        1000
    }
}

/// The actor cache: bounded by size, without expiry, since the ids and keys
/// of actors are taken not to change.
pub fn actor_cache_policy() -> (policy: CachePolicy)
    ensures
        policy == (CachePolicy { max_capacity: Some(ACTOR_CACHE_CAPACITY), time_to_live_ms: None }),
{
    CachePolicy { max_capacity: Some(ACTOR_CACHE_CAPACITY), time_to_live_ms: None }
}

/// The activity cache: bounded by size, without expiry, since an activity
/// never changes once it is written.
pub fn activity_cache_policy() -> (policy: CachePolicy)
    ensures
        policy == (CachePolicy {
            max_capacity: Some(ACTIVITY_CACHE_CAPACITY),
            time_to_live_ms: None,
        }),
{
    CachePolicy { max_capacity: Some(ACTIVITY_CACHE_CAPACITY), time_to_live_ms: None }
}

/// The cache of the latest activity id: one value that expires.
pub fn latest_id_cache_policy(fast: bool) -> (policy: CachePolicy)
    ensures
        policy == (CachePolicy {
            max_capacity: None,
            time_to_live_ms: Some(latest_id_ttl_ms(fast)),
        }),
{
    CachePolicy { max_capacity: None, time_to_live_ms: Some(cache_duration_latest_id(fast)) }
}

/// The latest activity id, given the highest id in the log: zero while the
/// log is empty.
pub fn latest_activity_id(highest: Option<i64>) -> (latest: i64)
    ensures
        latest == match highest {
            Some(id) => id,
            None => 0,
        },
{
    match highest {
        Some(id) => id,
        None => 0,
    }
}

/// What a worker is run with, in test mode or not.
pub fn worker_config(retry: RetryPolicy, batch_limit: u32, fast: bool) -> (config: WorkerConfig)
    ensures
        config == (WorkerConfig { retry, recheck_delay_ms: recheck_delay_ms(fast), batch_limit }),
{
    WorkerConfig { retry, recheck_delay_ms: work_finished_recheck_delay(fast), batch_limit }
}

} // verus!
