use lemmy_federate::activity::{
    is_moderator, names_public, receive_delete_action, receive_remove_action, verify_visibility,
    ActivityError, Delete, LockPage, UndoLockPage, PUBLIC_COLLECTION,
};
use lemmy_federate::enums::CommunityVisibility;
use lemmy_federate::inbox::{Activity, ActivityKind};
use lemmy_federate::local_state::{
    find_comment, find_community, find_post, Comment, Community, LocalState, Membership,
    ModAction, ModLogEntry, ObjectRef, Post, Report,
};
use lemmy_federate::lock_post::{generate_to, lock_post_activity, CommunityActivity};

const MODERATOR: i32 = 100;
const AUTHOR: i32 = 200;
const STRANGER: i32 = 300;
const BANNED: i32 = 400;
const ADMIN: i32 = 500;

fn public() -> Vec<String> {
    vec![PUBLIC_COLLECTION.to_string()]
}

fn site() -> LocalState {
    let mut state = LocalState::new();
    state.communities.push(Community {
        id: 1,
        local: false,
        removed: false,
        deleted: false,
        visibility: CommunityVisibility::Public,
    });
    state.communities.push(Community {
        id: 2,
        local: true,
        removed: false,
        deleted: false,
        visibility: CommunityVisibility::Private,
    });
    state.posts.push(Post {
        id: 10,
        community_id: 1,
        creator_id: AUTHOR,
        locked: false,
        removed: false,
        deleted: false,
    });
    state.posts.push(Post {
        id: 11,
        community_id: 2,
        creator_id: AUTHOR,
        locked: false,
        removed: false,
        deleted: false,
    });
    state.comments.push(Comment {
        id: 20,
        post_id: 10,
        creator_id: AUTHOR,
        parent_id: None,
        removed: false,
        deleted: false,
    });
    state.admins.push(ADMIN);
    state.moderators.push(Membership { community_id: 1, person_id: MODERATOR });
    state.moderators.push(Membership { community_id: 2, person_id: MODERATOR });
    state.bans.push(Membership { community_id: 1, person_id: BANNED });
    state.moderators.push(Membership { community_id: 1, person_id: BANNED });
    state.reports.push(Report {
        id: 1,
        object: ObjectRef::Post(10),
        resolved: false,
        resolver_id: None,
    });
    state.reports.push(Report {
        id: 2,
        object: ObjectRef::Comment(20),
        resolved: false,
        resolver_id: None,
    });
    state.reports.push(Report {
        id: 3,
        object: ObjectRef::Post(10),
        resolved: false,
        resolver_id: None,
    });
    state
}

fn lock(actor: i32, post: i32) -> LockPage {
    LockPage {
        actor,
        to: public(),
        object: post,
        cc: vec!["https://remote.example/c/main".to_string()],
        id: "https://remote.example/activities/lock/1".to_string(),
        summary: Some("off topic".to_string()),
    }
}

fn delete(actor: i32, object: ObjectRef, summary: Option<&str>) -> Delete {
    Delete::new(
        actor,
        object,
        public(),
        Some("https://remote.example/c/main".to_string()),
        summary.map(|s| s.to_string()),
        "https://remote.example/activities/delete/1".to_string(),
    )
}

#[test]
fn a_moderator_locks_a_post() {
    let mut state = site();
    let activity = lock(MODERATOR, 10);
    assert_eq!(activity.id(), "https://remote.example/activities/lock/1");
    assert_eq!(activity.actor(), MODERATOR);
    assert_eq!(activity.verify(&state), Ok(()));
    assert_eq!(activity.receive(&mut state), Ok(()));
    assert!(find_post(&state.posts, 10).unwrap().locked);
    assert!(!find_post(&state.posts, 11).unwrap().locked);
    assert_eq!(
        state.modlog,
        vec![ModLogEntry {
            activity_id: "https://remote.example/activities/lock/1".to_string(),
            mod_person_id: MODERATOR,
            action: ModAction::LockPost { post_id: 10, locked: true },
            reason: Some("off topic".to_string()),
        }]
    );
}

#[test]
fn receiving_a_lock_twice_is_receiving_it_once() {
    let mut once = site();
    let activity = lock(MODERATOR, 10);
    assert_eq!(activity.receive(&mut once), Ok(()));
    let mut twice = once.clone();
    assert_eq!(activity.receive(&mut twice), Ok(()));
    assert_eq!(once, twice);
    assert_eq!(twice.modlog.len(), 1);
}

#[test]
fn undoing_a_lock_unlocks_the_post() {
    let mut state = site();
    let locked = lock(MODERATOR, 10);
    locked.receive(&mut state).unwrap();
    let undo = UndoLockPage {
        actor: MODERATOR,
        to: public(),
        object: locked,
        cc: Vec::new(),
        id: "https://remote.example/activities/undo/1".to_string(),
        summary: None,
    };
    assert_eq!(undo.id(), "https://remote.example/activities/undo/1");
    assert_eq!(undo.actor(), MODERATOR);
    assert_eq!(undo.verify(&state), Ok(()));
    assert_eq!(undo.receive(&mut state), Ok(()));
    assert!(!find_post(&state.posts, 10).unwrap().locked);
    assert_eq!(state.modlog.len(), 2);
    assert_eq!(state.modlog[1].action, ModAction::LockPost { post_id: 10, locked: false });
    assert_eq!(state.modlog[1].reason, None);
    let again = state.clone();
    assert_eq!(undo.receive(&mut state), Ok(()));
    assert_eq!(state, again);
}

#[test]
fn lock_is_verified_step_by_step() {
    let state = site();
    assert_eq!(lock(MODERATOR, 99).verify(&state), Err(ActivityError::NotFound));
    assert_eq!(lock(STRANGER, 10).verify(&state), Err(ActivityError::NotAModerator));
    assert_eq!(lock(AUTHOR, 10).verify(&state), Err(ActivityError::NotAModerator));
    assert_eq!(lock(ADMIN, 10).verify(&state), Ok(()));
    // banned comes before the rights of a moderator
    assert_eq!(lock(BANNED, 10).verify(&state), Err(ActivityError::PersonIsBannedFromCommunity));
    let mut unaddressed = lock(MODERATOR, 10);
    unaddressed.to = Vec::new();
    assert_eq!(unaddressed.verify(&state), Err(ActivityError::ObjectIsNotPublic));
    // the post of the private community must not be addressed to everybody
    assert_eq!(lock(MODERATOR, 11).verify(&state), Err(ActivityError::ObjectIsNotPrivate));
    let mut private = lock(MODERATOR, 11);
    private.to = vec!["https://home.example/c/secret/followers".to_string()];
    assert_eq!(private.verify(&state), Ok(()));
    let mut gone = site();
    gone.communities[0].deleted = true;
    assert_eq!(lock(MODERATOR, 10).verify(&gone), Err(ActivityError::CommunityDeletedOrRemoved));
    let mut removed = site();
    removed.communities[0].removed = true;
    assert_eq!(lock(MODERATOR, 10).verify(&removed), Err(ActivityError::CommunityDeletedOrRemoved));
    let mut orphan = site();
    orphan.posts[0].community_id = 77;
    assert_eq!(lock(MODERATOR, 10).verify(&orphan), Err(ActivityError::NotFound));
}

#[test]
fn a_delete_from_somebody_who_is_no_moderator_changes_nothing() {
    let mut state = site();
    let before = state.clone();
    let activity = Activity::Delete(delete(STRANGER, ObjectRef::Post(10), Some("spam")));
    assert_eq!(activity.verify(&state), Err(ActivityError::NotAModerator));
    assert_eq!(activity.apply(&mut state), Err(ActivityError::NotAModerator));
    assert_eq!(state, before);
}

#[test]
fn a_moderator_removes_a_post() {
    let mut state = site();
    let activity = Activity::Delete(delete(MODERATOR, ObjectRef::Post(10), Some("spam")));
    assert_eq!(activity.kind(), ActivityKind::Delete);
    assert_eq!(activity.apply(&mut state), Ok(()));
    let post = find_post(&state.posts, 10).unwrap();
    assert!(post.removed);
    assert!(!post.deleted);
    assert_eq!(
        state.reports,
        vec![
            Report { id: 1, object: ObjectRef::Post(10), resolved: true, resolver_id: Some(MODERATOR) },
            Report { id: 2, object: ObjectRef::Comment(20), resolved: false, resolver_id: None },
            Report { id: 3, object: ObjectRef::Post(10), resolved: true, resolver_id: Some(MODERATOR) },
        ]
    );
    assert_eq!(state.modlog.len(), 1);
    assert_eq!(state.modlog[0].action, ModAction::RemovePost { post_id: 10 });
    assert_eq!(state.modlog[0].reason, Some("spam".to_string()));
    assert_eq!(state.modlog[0].mod_person_id, MODERATOR);
    let once = state.clone();
    assert_eq!(activity.apply(&mut state), Ok(()));
    assert_eq!(state, once);
}

#[test]
fn an_empty_summary_is_a_removal_without_a_reason() {
    let mut state = site();
    let activity = delete(MODERATOR, ObjectRef::Comment(20), Some(""));
    assert_eq!(activity.verify(&state), Ok(()));
    assert_eq!(activity.receive(&mut state), Ok(()));
    assert!(find_comment(&state.comments, 20).unwrap().removed);
    assert_eq!(state.modlog[0].action, ModAction::RemoveComment { comment_id: 20 });
    assert_eq!(state.modlog[0].reason, None);
    assert!(state.reports[1].resolved);
    assert!(!state.reports[0].resolved);
}

#[test]
fn the_author_deletes_a_post() {
    let mut state = site();
    let activity = delete(AUTHOR, ObjectRef::Post(10), None);
    assert_eq!(activity.actor(), AUTHOR);
    assert_eq!(activity.id(), "https://remote.example/activities/delete/1");
    assert_eq!(activity.cc, vec!["https://remote.example/c/main".to_string()]);
    assert_eq!(activity.remove_data, None);
    assert_eq!(activity.verify(&state), Ok(()));
    assert_eq!(activity.receive(&mut state), Ok(()));
    let post = find_post(&state.posts, 10).unwrap();
    assert!(post.deleted);
    assert!(!post.removed);
    assert!(state.modlog.is_empty());
    assert!(!state.reports[0].resolved);
    let once = state.clone();
    assert_eq!(activity.receive(&mut state), Ok(()));
    assert_eq!(state, once);
}

#[test]
fn only_the_author_deletes() {
    let state = site();
    assert_eq!(
        delete(MODERATOR, ObjectRef::Post(10), None).verify(&state),
        Err(ActivityError::NotTheCreator)
    );
    assert_eq!(
        delete(STRANGER, ObjectRef::Comment(20), None).verify(&state),
        Err(ActivityError::NotTheCreator)
    );
    assert_eq!(delete(AUTHOR, ObjectRef::Comment(20), None).verify(&state), Ok(()));
    assert_eq!(
        delete(BANNED, ObjectRef::Post(10), Some("x")).verify(&state),
        Err(ActivityError::PersonIsBannedFromCommunity)
    );
}

#[test]
fn a_community_of_this_site_is_not_removed_from_outside() {
    let mut state = site();
    let before = state.clone();
    let result = receive_remove_action(
        &mut state,
        &"https://remote.example/activities/delete/2".to_string(),
        MODERATOR,
        ObjectRef::Community(2),
        None,
    );
    assert_eq!(result, Err(ActivityError::OnlyLocalAdminCanRemoveCommunity));
    assert_eq!(state, before);
}

#[test]
fn a_remote_community_is_removed() {
    let mut state = site();
    state.reports.push(Report {
        id: 9,
        object: ObjectRef::Community(1),
        resolved: false,
        resolver_id: None,
    });
    let result = receive_remove_action(
        &mut state,
        &"https://remote.example/activities/delete/2".to_string(),
        ADMIN,
        ObjectRef::Community(1),
        Some("closed".to_string()),
    );
    assert_eq!(result, Ok(()));
    assert!(find_community(&state.communities, 1).unwrap().removed);
    assert!(!find_community(&state.communities, 2).unwrap().removed);
    assert_eq!(state.modlog[0].action, ModAction::RemoveCommunity { community_id: 1 });
    assert_eq!(state.reports[3].resolver_id, Some(ADMIN));
}

#[test]
fn deleting_a_community_marks_it() {
    let mut state = site();
    assert_eq!(delete(MODERATOR, ObjectRef::Community(1), None).verify(&state), Ok(()));
    assert_eq!(
        delete(AUTHOR, ObjectRef::Community(1), None).verify(&state),
        Err(ActivityError::NotAModerator)
    );
    assert_eq!(receive_delete_action(&mut state, ObjectRef::Community(1)), Ok(()));
    assert!(find_community(&state.communities, 1).unwrap().deleted);
    assert_eq!(receive_delete_action(&mut state, ObjectRef::Comment(20)), Ok(()));
    assert!(find_comment(&state.comments, 20).unwrap().deleted);
}

#[test]
fn what_is_not_there_cannot_be_deleted_or_removed() {
    let mut state = site();
    let before = state.clone();
    let id = "https://remote.example/activities/delete/3".to_string();
    for object in [
        ObjectRef::Community(9),
        ObjectRef::Post(9),
        ObjectRef::Comment(9),
        ObjectRef::PrivateMessage(1),
        ObjectRef::Person(AUTHOR),
    ] {
        assert_eq!(
            receive_remove_action(&mut state, &id, MODERATOR, object, None),
            Err(ActivityError::NotFound)
        );
        assert_eq!(receive_delete_action(&mut state, object), Err(ActivityError::NotFound));
        assert_eq!(delete(MODERATOR, object, None).verify(&state), Err(ActivityError::NotFound));
    }
    assert_eq!(state, before);
}

#[test]
fn every_activity_goes_through_verify_first() {
    let mut state = site();
    let before = state.clone();
    let rejected = Activity::LockPage(lock(STRANGER, 10));
    assert_eq!(rejected.kind(), ActivityKind::LockPage);
    assert_eq!(rejected.apply(&mut state), Err(ActivityError::NotAModerator));
    assert_eq!(state, before);
    // receive alone would have locked the post
    let mut unchecked = site();
    assert_eq!(rejected.receive(&mut unchecked), Ok(()));
    assert!(unchecked.posts[0].locked);
    let accepted = Activity::LockPage(lock(MODERATOR, 10));
    assert_eq!(accepted.apply(&mut state), Ok(()));
    assert!(state.posts[0].locked);
}

#[test]
fn unknown_types_are_turned_down() {
    assert_eq!(ActivityKind::from_wire("Lock"), Ok(ActivityKind::LockPage));
    assert_eq!(ActivityKind::from_wire("Undo"), Ok(ActivityKind::UndoLockPage));
    assert_eq!(ActivityKind::from_wire("Delete"), Ok(ActivityKind::Delete));
    for tag in ["", "lock", "Like", "Delete ", "Create"] {
        assert_eq!(ActivityKind::from_wire(tag), Err(ActivityError::UnknownActivityType));
    }
    for kind in [ActivityKind::LockPage, ActivityKind::UndoLockPage, ActivityKind::Delete] {
        assert_eq!(ActivityKind::from_wire(kind.wire_type()), Ok(kind));
    }
}

#[test]
fn addressing_goes_by_the_visibility() {
    let none: Vec<String> = Vec::new();
    assert!(names_public(&public()));
    assert!(!names_public(&none));
    assert!(!names_public(&vec!["https://www.w3.org/ns/activitystreams#public".to_string()]));
    let everybody = public();
    assert_eq!(verify_visibility(&everybody, &none, CommunityVisibility::Public), Ok(()));
    assert_eq!(verify_visibility(&none, &everybody, CommunityVisibility::Unlisted), Ok(()));
    assert_eq!(
        verify_visibility(&none, &none, CommunityVisibility::Public),
        Err(ActivityError::ObjectIsNotPublic)
    );
    assert_eq!(verify_visibility(&none, &none, CommunityVisibility::Private), Ok(()));
    assert_eq!(
        verify_visibility(&none, &everybody, CommunityVisibility::Private),
        Err(ActivityError::ObjectIsNotPrivate)
    );
    assert_eq!(
        verify_visibility(&everybody, &none, CommunityVisibility::LocalOnlyPublic),
        Err(ActivityError::NotFound)
    );
    assert_eq!(
        verify_visibility(&none, &none, CommunityVisibility::LocalOnlyPrivate),
        Err(ActivityError::NotFound)
    );
}

#[test]
fn moderators_and_admins_moderate() {
    let state = site();
    assert!(is_moderator(&state, 1, MODERATOR));
    assert!(is_moderator(&state, 1, ADMIN));
    assert!(is_moderator(&state, 77, ADMIN));
    assert!(!is_moderator(&state, 1, AUTHOR));
    assert!(!is_moderator(&state, 77, MODERATOR));
}

#[test]
fn a_lock_that_is_made_here_passes_the_check_there() {
    let state = site();
    let url = "https://home.example/c/main".to_string();
    let CommunityActivity { activity, send_targets: targets, is_mod_action } = lock_post_activity(
        &state.posts[0],
        MODERATOR,
        &state.communities[0],
        &url,
        true,
        Some("heated".to_string()),
        "https://home.example/activities/lock/7".to_string(),
        "https://home.example/activities/undo/8".to_string(),
    )
    .unwrap();
    assert!(is_mod_action);
    assert_eq!(targets.inboxes.len(), 0);
    assert_eq!(targets.community_id, Some(1));
    assert_eq!(
        activity,
        Activity::LockPage(LockPage {
            actor: MODERATOR,
            to: public(),
            object: 10,
            cc: vec![url.clone()],
            id: "https://home.example/activities/lock/7".to_string(),
            summary: Some("heated".to_string()),
        })
    );
    assert_eq!(activity.verify(&state), Ok(()));
}

#[test]
fn taking_a_lock_off_wraps_the_lock() {
    let state = site();
    let url = "https://home.example/c/secret".to_string();
    let CommunityActivity { activity, is_mod_action, .. } = lock_post_activity(
        &state.posts[1],
        MODERATOR,
        &state.communities[1],
        &url,
        false,
        None,
        "https://home.example/activities/lock/7".to_string(),
        "https://home.example/activities/undo/8".to_string(),
    )
    .unwrap();
    let followers = vec!["https://home.example/c/secret/followers".to_string()];
    assert_eq!(
        activity,
        Activity::UndoLockPage(UndoLockPage {
            actor: MODERATOR,
            to: followers.clone(),
            object: LockPage {
                actor: MODERATOR,
                to: followers,
                object: 11,
                cc: vec![url.clone()],
                id: "https://home.example/activities/lock/7".to_string(),
                summary: None,
            },
            cc: vec![url],
            id: "https://home.example/activities/undo/8".to_string(),
            summary: None,
        })
    );
    assert!(is_mod_action);
    assert_eq!(activity.kind(), ActivityKind::UndoLockPage);
    assert_eq!(activity.verify(&state), Ok(()));
}

#[test]
fn a_local_only_community_sends_nothing_out() {
    let url = "https://home.example/c/local".to_string();
    assert_eq!(generate_to(CommunityVisibility::LocalOnlyPublic, &url), Err(ActivityError::NotFound));
    assert_eq!(generate_to(CommunityVisibility::LocalOnlyPrivate, &url), Err(ActivityError::NotFound));
    assert_eq!(generate_to(CommunityVisibility::Unlisted, &url), Ok(public()));
    let community = Community {
        id: 3,
        local: true,
        removed: false,
        deleted: false,
        visibility: CommunityVisibility::LocalOnlyPublic,
    };
    let post =
        Post { id: 1, community_id: 3, creator_id: 1, locked: false, removed: false, deleted: false };
    let result = lock_post_activity(
        &post,
        MODERATOR,
        &community,
        &url,
        true,
        None,
        "a".to_string(),
        "b".to_string(),
    );
    assert_eq!(result, Err(ActivityError::NotFound));
}

#[test]
fn reports_are_resolved_and_opened_again() {
    let mut state = site();
    assert_eq!(state.resolve(1, MODERATOR), 1);
    assert!(state.reports[0].resolved);
    assert_eq!(state.reports[0].resolver_id, Some(MODERATOR));
    assert!(!state.reports[2].resolved);
    assert_eq!(state.unresolve(1, ADMIN), 1);
    assert!(!state.reports[0].resolved);
    assert_eq!(state.reports[0].resolver_id, Some(ADMIN));
    assert_eq!(state.resolve(42, MODERATOR), 0);
    assert_eq!(state.resolve_all_for_object(ObjectRef::Post(10), MODERATOR), 2);
    assert_eq!(state.resolve_all_for_object(ObjectRef::Post(12), MODERATOR), 0);
    state.report(Report { id: 4, object: ObjectRef::Post(12), resolved: false, resolver_id: None });
    assert_eq!(state.reports.len(), 4);
    assert_eq!(state.resolve_all_for_object(ObjectRef::Post(12), MODERATOR), 1);
}
