use lemmy_federate::enums::CommunityVisibility;
use lemmy_federate::supervisor::Instance;
use lemmy_federate::targets::{
    addressee_domains, drop_expired, is_blocklisted, is_target, resolve_target, Audience,
    CommunityFollower, FederationBlockList, SendTargets, SentActivity,
};

fn instance(id: i32, domain: &str) -> Instance {
    Instance { id, domain: domain.to_string(), blocked: false, software: None, version: None }
}

fn activity(inboxes: &[&str], community_id: Option<i32>) -> SentActivity {
    SentActivity {
        id: 1,
        actor_url: "https://home.example/u/alice".to_string(),
        payload: "{}".to_string(),
        send_targets: SendTargets {
            inboxes: inboxes.iter().map(|s| s.to_string()).collect(),
            community_id,
        },
        created_at: 0,
    }
}

fn followers(visibility: CommunityVisibility, list: &[(i32, bool)]) -> Option<Audience> {
    Some(Audience {
        visibility,
        followers: list
            .iter()
            .map(|(instance_id, accepted)| CommunityFollower {
                instance_id: *instance_id,
                accepted: *accepted,
            })
            .collect(),
    })
}

fn block(instance_id: i32, expires_at: Option<i64>) -> FederationBlockList {
    FederationBlockList { instance_id, published_at: 0, updated_at: None, expires_at }
}

#[test]
fn followers_of_the_community_get_the_activity() {
    let x = instance(1, "x.example");
    let y = instance(2, "y.example");
    let z = instance(3, "z.example");
    let act = activity(&[], Some(10));
    let audience = followers(CommunityVisibility::Public, &[(1, true), (2, true), (1, true)]);
    let blocklist = Vec::new();
    assert!(resolve_target(&act, &audience, &blocklist, &x));
    assert!(resolve_target(&act, &audience, &blocklist, &y));
    assert!(!resolve_target(&act, &audience, &blocklist, &z));
}

#[test]
fn direct_addressees_get_the_activity() {
    let z = instance(3, "z.example");
    let other = instance(4, "other.example");
    let act = activity(&["https://z.example/u/bob/inbox"], None);
    assert!(resolve_target(&act, &None, &Vec::new(), &z));
    assert!(!resolve_target(&act, &None, &Vec::new(), &other));
}

#[test]
fn the_domain_is_taken_from_the_address() {
    let urls = vec![
        "https://z.example/u/bob/inbox".to_string(),
        "https://Z.Example:8536/inbox".to_string(),
        "not a url".to_string(),
        "https://127.0.0.1/inbox".to_string(),
        "mailto:bob@z.example".to_string(),
    ];
    let domains = addressee_domains(&urls);
    assert_eq!(
        domains,
        vec![Some("z.example".to_string()), Some("z.example".to_string()), None, None, None]
    );
}

#[test]
fn an_address_is_not_its_own_domain() {
    let act = activity(&["https://z.example/inbox"], None);
    let wrong = instance(3, "https://z.example/inbox");
    assert!(!resolve_target(&act, &None, &Vec::new(), &wrong));
}

#[test]
fn blocklisted_instances_get_nothing() {
    let x = instance(1, "x.example");
    let act = activity(&["https://x.example/inbox"], Some(10));
    let audience = followers(CommunityVisibility::Public, &[(1, true)]);
    let blocklist = vec![block(7, None), block(1, None)];
    assert!(is_blocklisted(&blocklist, 1));
    assert!(!is_blocklisted(&blocklist, 2));
    assert!(!resolve_target(&act, &audience, &blocklist, &x));
    assert!(resolve_target(&act, &audience, &vec![block(7, None)], &x));
}

#[test]
fn a_private_community_wants_an_accepted_follower() {
    let x = instance(1, "x.example");
    let y = instance(2, "y.example");
    let act = activity(&["https://y.example/inbox"], Some(10));
    let audience = followers(CommunityVisibility::Private, &[(1, true), (2, false)]);
    let domains = addressee_domains(&act.send_targets.inboxes);
    assert!(is_target(&domains, &audience, &Vec::new(), &x));
    // addressed, and followed, but by nobody who was accepted
    assert!(!is_target(&domains, &audience, &Vec::new(), &y));
    let open = followers(CommunityVisibility::Unlisted, &[(1, true), (2, false)]);
    assert!(is_target(&domains, &open, &Vec::new(), &y));
}

#[test]
fn nobody_is_addressed_by_an_activity_without_addressees() {
    let x = instance(1, "x.example");
    let act = activity(&[], None);
    assert!(!resolve_target(&act, &None, &Vec::new(), &x));
    let audience = followers(CommunityVisibility::Public, &[]);
    assert!(!resolve_target(&act, &audience, &Vec::new(), &x));
}

#[test]
fn expired_blocks_are_dropped() {
    let list = vec![block(1, None), block(2, Some(100)), block(3, Some(200)), block(4, Some(199))];
    assert!(!list[0].is_expired(i64::MAX));
    assert!(list[1].is_expired(101));
    assert!(!list[1].is_expired(100));
    let kept = drop_expired(&list, 200);
    assert_eq!(kept, vec![block(1, None), block(3, Some(200))]);
    assert_eq!(drop_expired(&list, 0), list);
}
