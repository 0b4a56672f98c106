//! An activity that is received twice leaves the records as they were after
//! the first time.

use crate::activity::{delete_received, lock_received, logged_once, remove_received, ActivityError};
use crate::inbox::Activity;
use crate::local_state::{
    comment_with, comments_deleted, comments_removed, communities_deleted, communities_removed,
    community_with, logged, post_with, posts_deleted, posts_locked, posts_removed,
    reports_resolved, Comment, Community, LocalStateView, ModLogEntryView, ObjectRef, Post,
    Report,
};
use vstd::prelude::*;

verus! {

/// Posts that differ in their flags only: the same ids at the same places.
spec fn same_post_ids(before: Seq<Post>, after: Seq<Post>) -> bool {
    &&& before.len() == after.len()
    &&& forall|i: int| 0 <= i < before.len() ==> (#[trigger] before[i]).id == after[i].id
}

spec fn same_comment_ids(before: Seq<Comment>, after: Seq<Comment>) -> bool {
    &&& before.len() == after.len()
    &&& forall|i: int| 0 <= i < before.len() ==> (#[trigger] before[i]).id == after[i].id
}

/// Communities that differ in `removed` and `deleted` only.
spec fn same_community_ids(before: Seq<Community>, after: Seq<Community>) -> bool {
    &&& before.len() == after.len()
    &&& forall|i: int|
        0 <= i < before.len() ==> (#[trigger] before[i]).id == after[i].id && before[i].local
            == after[i].local
}

proof fn lemma_post_still_found(before: Seq<Post>, after: Seq<Post>, id: i32)
    requires
        same_post_ids(before, after),
    ensures
        post_with(before, id) is Some <==> post_with(after, id) is Some,
    decreases before.len(),
{
    if before.len() > 0 {
        assert(before[0].id == after[0].id);
        assert forall|i: int| 0 <= i < before.drop_first().len() implies (
        #[trigger] before.drop_first()[i]).id == after.drop_first()[i].id by {
            assert(before[i + 1].id == after[i + 1].id);
        }
        lemma_post_still_found(before.drop_first(), after.drop_first(), id);
    }
}

proof fn lemma_comment_still_found(before: Seq<Comment>, after: Seq<Comment>, id: i32)
    requires
        same_comment_ids(before, after),
    ensures
        comment_with(before, id) is Some <==> comment_with(after, id) is Some,
    decreases before.len(),
{
    if before.len() > 0 {
        assert(before[0].id == after[0].id);
        assert forall|i: int| 0 <= i < before.drop_first().len() implies (
        #[trigger] before.drop_first()[i]).id == after.drop_first()[i].id by {
            assert(before[i + 1].id == after[i + 1].id);
        }
        lemma_comment_still_found(before.drop_first(), after.drop_first(), id);
    }
}

proof fn lemma_community_still_found(before: Seq<Community>, after: Seq<Community>, id: i32)
    requires
        same_community_ids(before, after),
    ensures
        community_with(before, id) is Some <==> community_with(after, id) is Some,
        community_with(before, id) is Some ==> community_with(before, id)->0.local
            == community_with(after, id)->0.local,
    decreases before.len(),
{
    if before.len() > 0 {
        assert(before[0].id == after[0].id);
        assert forall|i: int| 0 <= i < before.drop_first().len() implies (
        #[trigger] before.drop_first()[i]).id == after.drop_first()[i].id
            && before.drop_first()[i].local == after.drop_first()[i].local by {
            assert(before[i + 1].id == after[i + 1].id);
        }
        lemma_community_still_found(before.drop_first(), after.drop_first(), id);
    }
}

/// The log takes one entry for each activity.
pub proof fn lemma_logged_once_twice(log: Seq<ModLogEntryView>, entry: ModLogEntryView)
    ensures
        logged(logged_once(log, entry), entry.activity_id),
        logged_once(logged_once(log, entry), entry) == logged_once(log, entry),
{
    if !logged(log, entry.activity_id) {
        assert(log.push(entry)[log.len() as int].activity_id == entry.activity_id);
    }
}

/// Resolving the reports of an object again changes nothing.
pub proof fn lemma_reports_resolved_twice(reports: Seq<Report>, object: ObjectRef, resolver: i32)
    ensures
        reports_resolved(reports_resolved(reports, object, resolver), object, resolver)
            == reports_resolved(reports, object, resolver),
{
    assert(reports_resolved(reports_resolved(reports, object, resolver), object, resolver)
        =~= reports_resolved(reports, object, resolver));
}

/// Locking a post that carries the lock already, for the same activity,
/// changes nothing; and so for unlocking.
pub proof fn lemma_lock_idempotent(
    state: LocalStateView,
    activity_id: Seq<char>,
    actor: i32,
    post_id: i32,
    locked: bool,
    reason: Option<Seq<char>>,
)
    requires
        lock_received(state, activity_id, actor, post_id, locked, reason) is Ok,
    ensures
        lock_received(
            lock_received(state, activity_id, actor, post_id, locked, reason)->Ok_0,
            activity_id,
            actor,
            post_id,
            locked,
            reason,
        ) == lock_received(state, activity_id, actor, post_id, locked, reason),
{
    let once = lock_received(state, activity_id, actor, post_id, locked, reason)->Ok_0;
    lemma_post_still_found(state.posts, once.posts, post_id);
    assert(posts_locked(once.posts, post_id, locked) =~= once.posts);
    let entry = ModLogEntryView {
        activity_id,
        mod_person_id: actor,
        action: crate::local_state::ModAction::LockPost { post_id, locked },
        reason,
    };
    lemma_logged_once_twice(state.modlog, entry);
}

/// Removing an object that is removed already, for the same activity,
/// changes nothing.
pub proof fn lemma_remove_idempotent(
    state: LocalStateView,
    activity_id: Seq<char>,
    actor: i32,
    object: ObjectRef,
    reason: Option<Seq<char>>,
)
    requires
        remove_received(state, activity_id, actor, object, reason) is Ok,
    ensures
        remove_received(
            remove_received(state, activity_id, actor, object, reason)->Ok_0,
            activity_id,
            actor,
            object,
            reason,
        ) == remove_received(state, activity_id, actor, object, reason),
{
    let once = remove_received(state, activity_id, actor, object, reason)->Ok_0;
    lemma_reports_resolved_twice(state.reports, object, actor);
    match object {
        ObjectRef::Community(id) => {
            lemma_community_still_found(state.communities, once.communities, id);
            assert(communities_removed(once.communities, id) =~= once.communities);
            lemma_logged_once_twice(
                state.modlog,
                ModLogEntryView {
                    activity_id,
                    mod_person_id: actor,
                    action: crate::local_state::ModAction::RemoveCommunity { community_id: id },
                    reason,
                },
            );
        },
        ObjectRef::Post(id) => {
            lemma_post_still_found(state.posts, once.posts, id);
            assert(posts_removed(once.posts, id) =~= once.posts);
            lemma_logged_once_twice(
                state.modlog,
                ModLogEntryView {
                    activity_id,
                    mod_person_id: actor,
                    action: crate::local_state::ModAction::RemovePost { post_id: id },
                    reason,
                },
            );
        },
        ObjectRef::Comment(id) => {
            lemma_comment_still_found(state.comments, once.comments, id);
            assert(comments_removed(once.comments, id) =~= once.comments);
            lemma_logged_once_twice(
                state.modlog,
                ModLogEntryView {
                    activity_id,
                    mod_person_id: actor,
                    action: crate::local_state::ModAction::RemoveComment { comment_id: id },
                    reason,
                },
            );
        },
        _ => {},
    }
}

/// Deleting an object that is deleted already changes nothing.
pub proof fn lemma_delete_idempotent(state: LocalStateView, object: ObjectRef)
    requires
        delete_received(state, object) is Ok,
    ensures
        delete_received(delete_received(state, object)->Ok_0, object) == delete_received(
            state,
            object,
        ),
{
    let once = delete_received(state, object)->Ok_0;
    match object {
        ObjectRef::Community(id) => {
            lemma_community_still_found(state.communities, once.communities, id);
            assert(communities_deleted(once.communities, id) =~= once.communities);
        },
        ObjectRef::Post(id) => {
            lemma_post_still_found(state.posts, once.posts, id);
            assert(posts_deleted(once.posts, id) =~= once.posts);
        },
        ObjectRef::Comment(id) => {
            lemma_comment_still_found(state.comments, once.comments, id);
            assert(comments_deleted(once.comments, id) =~= once.comments);
        },
        _ => {},
    }
}

/// Whatever the activity, receiving it a second time gives the records that
/// receiving it once gave.
pub proof fn lemma_receive_idempotent(activity: Activity, state: LocalStateView)
    requires
        activity.received(state) is Ok,
    ensures
        activity.received(activity.received(state)->Ok_0) == activity.received(state),
{
    match activity {
        Activity::LockPage(lock) => {
            lemma_lock_idempotent(
                state,
                lock.id@,
                lock.actor,
                lock.object,
                true,
                crate::local_state::text_view(lock.summary),
            );
        },
        Activity::UndoLockPage(undo) => {
            lemma_lock_idempotent(
                state,
                undo.id@,
                undo.actor,
                undo.object.object,
                false,
                crate::local_state::text_view(undo.summary),
            );
        },
        Activity::Delete(delete) => {
            match delete.summary {
                Some(summary) => {
                    lemma_remove_idempotent(
                        state,
                        delete.id@,
                        delete.actor,
                        delete.object,
                        crate::activity::removal_reason(summary@),
                    );
                },
                None => {
                    lemma_delete_idempotent(state, delete.object);
                },
            }
        },
    }
}

/// An activity that does not pass `verify` changes nothing, and its sender
/// is told why.
pub proof fn lemma_rejected_changes_nothing(
    activity: Activity,
    state: LocalStateView,
    error: ActivityError,
)
    requires
        activity.verified(state) == Err::<(), ActivityError>(error),
    ensures
        activity.applied(state) == Err::<LocalStateView, ActivityError>(error),
{
}

} // verus!
