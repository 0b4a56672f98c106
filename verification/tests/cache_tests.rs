use lemmy_federate::actor::{
    ActorLookupError, ActorType, ApubActor, SiteOrMultiOrCommunityOrUser,
};
use lemmy_federate::cache::Memo;
use lemmy_federate::lookups::{
    activity_fetched, actor_fetched, get_activity_cached, get_actor_cached,
    get_latest_activity_id, latest_activity_id_fetched, new_activity_cache, new_actor_cache,
    new_latest_id_cache, LookupError,
};
use lemmy_federate::targets::{SendTargets, SentActivity};
use std::sync::Arc;

fn actor(id: i32) -> ApubActor {
    ApubActor {
        id,
        ap_id: format!("https://home.example/u/{}", id),
        inbox_url: format!("https://home.example/u/{}/inbox", id),
        public_key: "key".to_string(),
        private_key: Some("secret".to_string()),
        instance_id: 1,
    }
}

fn activity(id: i64) -> SentActivity {
    SentActivity {
        id,
        actor_url: "https://home.example/u/1".to_string(),
        payload: format!("{{\"n\":{}}}", id),
        send_targets: SendTargets { inboxes: Vec::new(), community_id: Some(3) },
        created_at: id * 1000,
    }
}

#[test]
fn an_empty_cache_serves_nothing() {
    let cache: Memo<i64, String> = Memo::bounded(10);
    assert_eq!(cache.lookup(&1, 0), None);
    let cache: Memo<String, i64> = Memo::expiring(1000);
    assert_eq!(cache.lookup(&"a".to_string(), 0), None);
}

#[test]
fn what_was_stored_is_served_under_its_key() {
    let mut cache: Memo<String, String> = Memo::bounded(10);
    cache.store("a".to_string(), Arc::new("first".to_string()), 5);
    cache.store("b".to_string(), Arc::new("second".to_string()), 6);
    assert_eq!(cache.lookup(&"a".to_string(), 7), Some(Arc::new("first".to_string())));
    assert_eq!(cache.lookup(&"b".to_string(), i64::MAX), Some(Arc::new("second".to_string())));
    assert_eq!(cache.lookup(&"c".to_string(), 7), None);
}

#[test]
fn what_is_served_is_shared() {
    let mut cache: Memo<i64, String> = Memo::bounded(10);
    let value = Arc::new("shared".to_string());
    cache.store(1, value.clone(), 0);
    let served = cache.lookup(&1, 0).unwrap();
    assert!(Arc::ptr_eq(&served, &value));
}

#[test]
fn an_old_entry_is_not_served() {
    let mut cache: Memo<i64, i64> = Memo::expiring(600_000);
    cache.store(1, Arc::new(42), 10_000);
    assert_eq!(cache.lookup(&1, 10_000), Some(Arc::new(42)));
    assert_eq!(cache.lookup(&1, 610_000), Some(Arc::new(42)));
    assert_eq!(cache.lookup(&1, 610_001), None);
    // a clock that went back serves the entry
    assert_eq!(cache.lookup(&1, 0), Some(Arc::new(42)));
    assert_eq!(cache.lookup(&1, i64::MIN), Some(Arc::new(42)));
    assert_eq!(cache.lookup(&1, i64::MAX), None);
}

#[test]
fn a_time_to_live_beyond_what_the_cache_takes() {
    let mut cache: Memo<i64, i64> = Memo::expiring(u64::MAX);
    cache.store(1, Arc::new(42), 0);
    assert_eq!(cache.lookup(&1, i64::MAX), Some(Arc::new(42)));
}

#[test]
fn a_failed_fetch_is_not_cached() {
    let mut cache: Memo<i64, i64> = Memo::bounded(10);
    let failed: Result<Arc<i64>, String> = Err("connection lost".to_string());
    assert_eq!(cache.complete(1, failed, 0), Err("connection lost".to_string()));
    assert_eq!(cache.lookup(&1, 0), None);
    let found: Result<Arc<i64>, String> = Ok(Arc::new(9));
    assert_eq!(cache.complete(1, found, 0), Ok(()));
    assert_eq!(cache.lookup(&1, 0), Some(Arc::new(9)));
}

#[test]
fn actors_are_cached_under_their_kind() {
    let mut cache = new_actor_cache();
    let id = "https://home.example/u/3".to_string();
    assert_eq!(get_actor_cached(&cache, &id, 0), None);
    let fetched: Result<Option<ApubActor>, String> = Ok(Some(actor(3)));
    let result = actor_fetched(&mut cache, ActorType::Person, id.clone(), fetched, 0);
    assert_eq!(result, Ok(Arc::new(SiteOrMultiOrCommunityOrUser::Person(actor(3)))));
    assert_eq!(
        get_actor_cached(&cache, &id, 1_000_000_000),
        Some(Arc::new(SiteOrMultiOrCommunityOrUser::Person(actor(3))))
    );
    assert_eq!(get_actor_cached(&cache, &"https://home.example/u/4".to_string(), 0), None);
}

#[test]
fn an_actor_that_is_not_found_is_an_error_and_is_not_cached() {
    let mut cache = new_actor_cache();
    let id = "https://home.example/c/main".to_string();
    let missing: Result<Option<ApubActor>, String> = Ok(None);
    assert_eq!(
        actor_fetched(&mut cache, ActorType::Community, id.clone(), missing, 0),
        Err(LookupError::NotFound(ActorLookupError::CommunityNotFound))
    );
    assert_eq!(get_actor_cached(&cache, &id, 0), None);
    let failed: Result<Option<ApubActor>, String> = Err("timeout".to_string());
    assert_eq!(
        actor_fetched(&mut cache, ActorType::Community, id.clone(), failed, 0),
        Err(LookupError::Failed("timeout".to_string()))
    );
    assert_eq!(get_actor_cached(&cache, &id, 0), None);
}

#[test]
fn activities_are_cached_by_their_id() {
    let mut cache = new_activity_cache();
    assert_eq!(get_activity_cached(&cache, 7, 0), None);
    let read: Result<SentActivity, String> = Ok(activity(7));
    assert_eq!(activity_fetched(&mut cache, 7, read, 0), Ok(Arc::new(activity(7))));
    assert_eq!(get_activity_cached(&cache, 7, i64::MAX), Some(Arc::new(activity(7))));
    assert_eq!(get_activity_cached(&cache, 8, 0), None);
    let failed: Result<SentActivity, String> = Err("gone".to_string());
    assert_eq!(activity_fetched(&mut cache, 8, failed, 0), Err("gone".to_string()));
    assert_eq!(get_activity_cached(&cache, 8, 0), None);
}

#[test]
fn the_latest_id_is_served_for_a_second() {
    let mut cache = new_latest_id_cache(false);
    assert_eq!(get_latest_activity_id(&cache, 0), None);
    let highest: Result<Option<i64>, String> = Ok(Some(17));
    assert_eq!(latest_activity_id_fetched(&mut cache, highest, 5000), Ok(17));
    assert_eq!(get_latest_activity_id(&cache, 5000), Some(17));
    assert_eq!(get_latest_activity_id(&cache, 6000), Some(17));
    assert_eq!(get_latest_activity_id(&cache, 6001), None);
    let highest: Result<Option<i64>, String> = Ok(Some(21));
    assert_eq!(latest_activity_id_fetched(&mut cache, highest, 6001), Ok(21));
    assert_eq!(get_latest_activity_id(&cache, 6500), Some(21));
}

#[test]
fn the_latest_id_of_an_empty_log_is_zero() {
    let mut cache = new_latest_id_cache(true);
    let empty: Result<Option<i64>, String> = Ok(None);
    assert_eq!(latest_activity_id_fetched(&mut cache, empty, 0), Ok(0));
    assert_eq!(get_latest_activity_id(&cache, 100), Some(0));
    assert_eq!(get_latest_activity_id(&cache, 101), None);
    let mut cache = new_latest_id_cache(true);
    let failed: Result<Option<i64>, String> = Err("no connection".to_string());
    assert_eq!(latest_activity_id_fetched(&mut cache, failed, 0), Err("no connection".to_string()));
    assert_eq!(get_latest_activity_id(&cache, 0), None);
}

fn shared_between_tasks<T: Send + Sync + 'static>() {}

#[test]
fn caches_and_workers_can_move_between_tasks() {
    shared_between_tasks::<Memo<String, i64>>();
    shared_between_tasks::<lemmy_federate::lookups::ActorCache>();
    shared_between_tasks::<lemmy_federate::lookups::ActivityCache>();
    shared_between_tasks::<lemmy_federate::worker::InstanceWorker>();
    shared_between_tasks::<lemmy_federate::supervisor::Supervisor>();
    shared_between_tasks::<lemmy_federate::local_state::LocalState>();
}

#[test]
fn one_fetch_for_those_who_ask_at_the_same_time() {
    let mut flights = lemmy_federate::flights::Flights::new();
    let a = "https://home.example/u/1".to_string();
    let b = "https://home.example/u/2".to_string();
    assert!(!flights.in_flight(&a));
    assert_eq!(flights.join(&a), lemmy_federate::flights::Flight::Lead);
    assert!(flights.in_flight(&a));
    assert_eq!(flights.join(&a), lemmy_federate::flights::Flight::Follow);
    assert_eq!(flights.join(&b), lemmy_federate::flights::Flight::Lead);
    assert_eq!(flights.join(&a), lemmy_federate::flights::Flight::Follow);
    assert!(flights.land(&a));
    assert!(!flights.in_flight(&a));
    assert!(flights.in_flight(&b));
    assert!(!flights.land(&a));
    // after the fetch has ended, the next to ask leads again
    assert_eq!(flights.join(&a), lemmy_federate::flights::Flight::Lead);
    assert!(flights.land(&b));
    assert!(flights.land(&a));
    assert!(!flights.in_flight(&b));
}

#[test]
fn what_is_served_is_what_was_stored_last() {
    let mut cache: Memo<i64, i64> = Memo::bounded(10);
    cache.store(1, Arc::new(5), 100);
    cache.store(1, Arc::new(9), 200);
    cache.store(2, Arc::new(1), 300);
    assert_eq!(cache.lookup(&1, 400), Some(Arc::new(9)));
    cache.store(1, Arc::new(7), 500);
    assert_eq!(cache.lookup(&1, 600), Some(Arc::new(7)));
    assert_eq!(cache.lookup(&2, 600), Some(Arc::new(1)));
}

#[test]
fn the_latest_id_that_is_served_is_the_one_fetched_last() {
    let mut cache = new_latest_id_cache(false);
    for (highest, now) in [(3, 1000), (8, 1200), (12, 1400)] {
        let fetched: Result<Option<i64>, String> = Ok(Some(highest));
        assert_eq!(latest_activity_id_fetched(&mut cache, fetched, now), Ok(highest));
        assert_eq!(get_latest_activity_id(&cache, now), Some(highest));
    }
    assert_eq!(get_latest_activity_id(&cache, 2400), Some(12));
    assert_eq!(get_latest_activity_id(&cache, 2401), None);
}

#[test]
fn a_cache_made_to_hold_nothing_holds_nothing() {
    let mut cache: Memo<i64, i64> = Memo::bounded(0);
    cache.store(1, Arc::new(5), 0);
    assert_eq!(cache.lookup(&1, 0), None);
}

#[test]
fn the_shared_caches_hold_what_was_fetched() {
    let mut actors = new_actor_cache();
    let mut activities = new_activity_cache();
    for n in 0..100 {
        let key = format!("https://home.example/u/{}", n);
        let found: Result<Option<ApubActor>, String> = Ok(Some(actor(n)));
        assert!(actor_fetched(&mut actors, ActorType::Person, key, found, 0).is_ok());
        let read: Result<SentActivity, String> = Ok(activity(n as i64));
        assert!(activity_fetched(&mut activities, n as i64, read, 0).is_ok());
    }
    let key = "https://home.example/u/99".to_string();
    assert!(get_actor_cached(&actors, &key, 0).is_some());
    assert!(get_activity_cached(&activities, 99, 0).is_some());
}
