//! The activities that moderate content, and the two steps that each of them
//! goes through before it changes the local records.
//!
//! `verify` only reads: it checks that the activity is addressed as the
//! community's visibility demands, that the sender may act in the community,
//! and that the community is still there. `receive` makes the change. An
//! activity that arrives twice leaves the records as they were after the
//! first time: setting a flag again changes nothing, and the moderation log
//! takes one entry for each activity.

use crate::enums::CommunityVisibility;
use crate::local_state::{
    communities_deleted, communities_removed, comment_with, comments_deleted, comments_removed,
    community_with, find_comment, find_community, find_post, has_membership, logged, post_with,
    posts_deleted, posts_locked, posts_removed, reports_resolved, text_view, Community,
    LocalState, LocalStateView, Membership, ModAction, ModLogEntry, ModLogEntryView, ObjectRef,
};
use crate::supervisor::contains_id;
use vstd::prelude::*;

verus! {

/// The collection that stands for everybody.
pub const PUBLIC_COLLECTION: &'static str = "https://www.w3.org/ns/activitystreams#Public";

/// Why an activity was turned down.
#[derive(Clone, Copy, Debug, PartialEq, Eq, Structural)]
pub enum ActivityError {
    /// The object, or its community, is not known here.
    NotFound,
    /// The community is public, the activity is not addressed to everybody.
    ObjectIsNotPublic,
    /// The community is private, the activity is addressed to everybody.
    ObjectIsNotPrivate,
    /// The sender is banned from the community.
    PersonIsBannedFromCommunity,
    /// The community has been deleted or removed.
    CommunityDeletedOrRemoved,
    /// The sender does not moderate the community.
    NotAModerator,
    /// The sender did not write what is to be deleted.
    NotTheCreator,
    /// A community of this site can only be removed by its administrators.
    OnlyLocalAdminCanRemoveCommunity,
    /// The chain of replies is longer than allowed.
    MaxCommentDepthReached,
    /// The type of the activity is not one that is handled here.
    UnknownActivityType,
}

/// Whether the list of addressees names the public collection.
pub open spec fn lists_public(urls: Seq<String>) -> bool {
    exists|i: int| 0 <= i < urls.len() && (#[trigger] urls[i])@ == PUBLIC_COLLECTION@
}

/// Whether an activity with these addressees is addressed to everybody.
pub open spec fn addressed_publicly(to: Seq<String>, cc: Seq<String>) -> bool {
    lists_public(to) || lists_public(cc)
}

/// What the visibility of a community demands of the addressing: activities
/// of a public or unlisted community go to everybody, those of a private one
/// do not, and a community for local users only takes none.
pub open spec fn visibility_checked(visibility: CommunityVisibility, public: bool) -> Result<
    (),
    ActivityError,
> {
    match visibility {
        CommunityVisibility::Public | CommunityVisibility::Unlisted => if public {
            Ok(())
        } else {
            Err(ActivityError::ObjectIsNotPublic)
        },
        CommunityVisibility::Private => if public {
            Err(ActivityError::ObjectIsNotPrivate)
        } else {
            Ok(())
        },
        CommunityVisibility::LocalOnlyPublic | CommunityVisibility::LocalOnlyPrivate => Err(
            ActivityError::NotFound,
        ),
    }
}

/// Whether the person moderates the community: as one of its moderators, or
/// as an administrator of the site.
pub open spec fn moderates(state: LocalStateView, community_id: i32, person_id: i32) -> bool {
    state.moderators.contains(Membership { community_id, person_id }) || state.admins.contains(
        person_id,
    )
}

/// Whether the person is banned from the community.
pub open spec fn banned(state: LocalStateView, community_id: i32, person_id: i32) -> bool {
    state.bans.contains(Membership { community_id, person_id })
}

/// The checks on an act of moderation in a community, in their order: the
/// addressing, the sender's standing, the community's state, the sender's
/// rights.
pub open spec fn mod_action_checked(
    state: LocalStateView,
    actor: i32,
    community: Community,
    public: bool,
) -> Result<(), ActivityError> {
    if visibility_checked(community.visibility, public) is Err {
        visibility_checked(community.visibility, public)
    } else if banned(state, community.id, actor) {
        Err(ActivityError::PersonIsBannedFromCommunity)
    } else if community.deleted || community.removed {
        Err(ActivityError::CommunityDeletedOrRemoved)
    } else if !moderates(state, community.id, actor) {
        Err(ActivityError::NotAModerator)
    } else {
        Ok(())
    }
}

/// The checks on locking or unlocking a post.
pub open spec fn lock_verified(state: LocalStateView, actor: i32, post_id: i32, public: bool)
    -> Result<(), ActivityError> {
    match post_with(state.posts, post_id) {
        None => Err(ActivityError::NotFound),
        Some(post) => match community_with(state.communities, post.community_id) {
            None => Err(ActivityError::NotFound),
            Some(community) => mod_action_checked(state, actor, community, public),
        },
    }
}

/// The log after an entry was added, unless the activity had one already.
pub open spec fn logged_once(log: Seq<ModLogEntryView>, entry: ModLogEntryView) -> Seq<
    ModLogEntryView,
> {
    if logged(log, entry.activity_id) {
        log
    } else {
        log.push(entry)
    }
}

/// The records after a post was locked or unlocked: the post carries the
/// lock, and the moderation log tells of it.
pub open spec fn lock_received(
    state: LocalStateView,
    activity_id: Seq<char>,
    actor: i32,
    post_id: i32,
    locked: bool,
    reason: Option<Seq<char>>,
) -> Result<LocalStateView, ActivityError> {
    match post_with(state.posts, post_id) {
        None => Err(ActivityError::NotFound),
        Some(post) => Ok(
            LocalStateView {
                posts: posts_locked(state.posts, post_id, locked),
                modlog: logged_once(
                    state.modlog,
                    ModLogEntryView {
                        activity_id,
                        mod_person_id: actor,
                        action: ModAction::LockPost { post_id, locked },
                        reason,
                    },
                ),
                ..state
            },
        ),
    }
}

/// The checks on deleting or removing an object. To remove is an act of
/// moderation; to delete is up to the one who wrote the object, or, for a
/// community, to its moderators.
pub open spec fn delete_verified(
    state: LocalStateView,
    actor: i32,
    object: ObjectRef,
    is_mod_action: bool,
    public: bool,
) -> Result<(), ActivityError> {
    match object {
        ObjectRef::Community(id) => match community_with(state.communities, id) {
            None => Err(ActivityError::NotFound),
            Some(community) => content_delete_checked(
                state,
                actor,
                community,
                true,
                actor,
                public,
            ),
        },
        ObjectRef::Post(id) => match post_with(state.posts, id) {
            None => Err(ActivityError::NotFound),
            Some(post) => match community_with(state.communities, post.community_id) {
                None => Err(ActivityError::NotFound),
                Some(community) => content_delete_checked(
                    state,
                    actor,
                    community,
                    is_mod_action,
                    post.creator_id,
                    public,
                ),
            },
        },
        ObjectRef::Comment(id) => match comment_with(state.comments, id) {
            None => Err(ActivityError::NotFound),
            Some(comment) => match post_with(state.posts, comment.post_id) {
                None => Err(ActivityError::NotFound),
                Some(post) => match community_with(state.communities, post.community_id) {
                    None => Err(ActivityError::NotFound),
                    Some(community) => content_delete_checked(
                        state,
                        actor,
                        community,
                        is_mod_action,
                        comment.creator_id,
                        public,
                    ),
                },
            },
        },
        ObjectRef::PrivateMessage(_) | ObjectRef::Person(_) => Err(ActivityError::NotFound),
    }
}

/// The checks on deleting or removing something in a community, in their
/// order: the addressing, the sender's standing, the sender's rights.
pub open spec fn content_delete_checked(
    state: LocalStateView,
    actor: i32,
    community: Community,
    is_mod_action: bool,
    creator: i32,
    public: bool,
) -> Result<(), ActivityError> {
    if visibility_checked(community.visibility, public) is Err {
        visibility_checked(community.visibility, public)
    } else if banned(state, community.id, actor) {
        Err(ActivityError::PersonIsBannedFromCommunity)
    } else if is_mod_action {
        if moderates(state, community.id, actor) {
            Ok(())
        } else {
            Err(ActivityError::NotAModerator)
        }
    } else if actor == creator {
        Ok(())
    } else {
        Err(ActivityError::NotTheCreator)
    }
}

/// The records after a moderator removed an object: its reports are
/// resolved, the moderation log tells of it, and the object is marked.
pub open spec fn remove_received(
    state: LocalStateView,
    activity_id: Seq<char>,
    actor: i32,
    object: ObjectRef,
    reason: Option<Seq<char>>,
) -> Result<LocalStateView, ActivityError> {
    match object {
        ObjectRef::Community(id) => match community_with(state.communities, id) {
            None => Err(ActivityError::NotFound),
            Some(community) => if community.local {
                Err(ActivityError::OnlyLocalAdminCanRemoveCommunity)
            } else {
                Ok(
                    LocalStateView {
                        reports: reports_resolved(state.reports, object, actor),
                        modlog: logged_once(
                            state.modlog,
                            ModLogEntryView {
                                activity_id,
                                mod_person_id: actor,
                                action: ModAction::RemoveCommunity { community_id: id },
                                reason,
                            },
                        ),
                        communities: communities_removed(state.communities, id),
                        ..state
                    },
                )
            },
        },
        ObjectRef::Post(id) => match post_with(state.posts, id) {
            None => Err(ActivityError::NotFound),
            Some(post) => Ok(
                LocalStateView {
                    reports: reports_resolved(state.reports, object, actor),
                    modlog: logged_once(
                        state.modlog,
                        ModLogEntryView {
                            activity_id,
                            mod_person_id: actor,
                            action: ModAction::RemovePost { post_id: id },
                            reason,
                        },
                    ),
                    posts: posts_removed(state.posts, id),
                    ..state
                },
            ),
        },
        ObjectRef::Comment(id) => match comment_with(state.comments, id) {
            None => Err(ActivityError::NotFound),
            Some(comment) => Ok(
                LocalStateView {
                    reports: reports_resolved(state.reports, object, actor),
                    modlog: logged_once(
                        state.modlog,
                        ModLogEntryView {
                            activity_id,
                            mod_person_id: actor,
                            action: ModAction::RemoveComment { comment_id: id },
                            reason,
                        },
                    ),
                    comments: comments_removed(state.comments, id),
                    ..state
                },
            ),
        },
        ObjectRef::PrivateMessage(_) | ObjectRef::Person(_) => Err(ActivityError::NotFound),
    }
}

/// The records after an object was deleted by the one it belongs to: the
/// object is marked, and nothing else changes.
pub open spec fn delete_received(state: LocalStateView, object: ObjectRef) -> Result<
    LocalStateView,
    ActivityError,
> {
    match object {
        ObjectRef::Community(id) => match community_with(state.communities, id) {
            None => Err(ActivityError::NotFound),
            Some(community) => Ok(
                LocalStateView {
                    communities: communities_deleted(state.communities, id),
                    ..state
                },
            ),
        },
        ObjectRef::Post(id) => match post_with(state.posts, id) {
            None => Err(ActivityError::NotFound),
            Some(post) => Ok(LocalStateView { posts: posts_deleted(state.posts, id), ..state }),
        },
        ObjectRef::Comment(id) => match comment_with(state.comments, id) {
            None => Err(ActivityError::NotFound),
            Some(comment) => Ok(
                LocalStateView { comments: comments_deleted(state.comments, id), ..state },
            ),
        },
        ObjectRef::PrivateMessage(_) | ObjectRef::Person(_) => Err(ActivityError::NotFound),
    }
}

/// The reason that goes into the log: a summary without text gives none.
pub open spec fn removal_reason(summary: Seq<char>) -> Option<Seq<char>> {
    if summary.len() == 0 {
        None
    } else {
        Some(summary)
    }
}

/// Whether the list of addressees names the public collection.
pub fn names_public(urls: &Vec<String>) -> (found: bool)
    ensures
        found == lists_public(urls@),
{
    let public = PUBLIC_COLLECTION.to_owned();
    let mut i: usize = 0;
    while i < urls.len()
        invariant
            i <= urls.len(),
            public@ == PUBLIC_COLLECTION@,
            forall|j: int| 0 <= j < i ==> (#[trigger] urls@[j])@ != PUBLIC_COLLECTION@,
        decreases urls.len() - i,
    {
        if urls[i] == public {
            return true;
        }
        i = i + 1;
    }
    false
}

/// Checks the addressing of an activity against the visibility of its
/// community.
pub fn verify_visibility(to: &Vec<String>, cc: &Vec<String>, visibility: CommunityVisibility) -> (result:
    Result<(), ActivityError>)
    ensures
        result == visibility_checked(visibility, addressed_publicly(to@, cc@)),
{
    let public = names_public(to) || names_public(cc);
    match visibility {
        CommunityVisibility::Public | CommunityVisibility::Unlisted => if public {
            Ok(())
        } else {
            Err(ActivityError::ObjectIsNotPublic)
        },
        CommunityVisibility::Private => if public {
            Err(ActivityError::ObjectIsNotPrivate)
        } else {
            Ok(())
        },
        CommunityVisibility::LocalOnlyPublic | CommunityVisibility::LocalOnlyPrivate => Err(
            ActivityError::NotFound,
        ),
    }
}

/// Whether the person moderates the community.
pub fn is_moderator(state: &LocalState, community_id: i32, person_id: i32) -> (answer: bool)
    ensures
        answer == moderates(state@, community_id, person_id),
{
    has_membership(&state.moderators, community_id, person_id) || contains_id(
        &state.admins,
        person_id,
    )
}

fn verify_mod_action(
    state: &LocalState,
    actor: i32,
    community: Community,
    to: &Vec<String>,
    cc: &Vec<String>,
) -> (result: Result<(), ActivityError>)
    ensures
        result == mod_action_checked(state@, actor, community, addressed_publicly(to@, cc@)),
{
    let visible = verify_visibility(to, cc, community.visibility);
    if visible.is_err() {
        visible
    } else if has_membership(&state.bans, community.id, actor) {
        Err(ActivityError::PersonIsBannedFromCommunity)
    } else if community.deleted || community.removed {
        Err(ActivityError::CommunityDeletedOrRemoved)
    } else if !is_moderator(state, community.id, actor) {
        Err(ActivityError::NotAModerator)
    } else {
        Ok(())
    }
}

fn verify_lock(state: &LocalState, actor: i32, post_id: i32, to: &Vec<String>, cc: &Vec<String>) -> (result:
    Result<(), ActivityError>)
    ensures
        result == lock_verified(state@, actor, post_id, addressed_publicly(to@, cc@)),
{
    match find_post(&state.posts, post_id) {
        None => Err(ActivityError::NotFound),
        Some(post) => match find_community(&state.communities, post.community_id) {
            None => Err(ActivityError::NotFound),
            Some(community) => verify_mod_action(state, actor, community, to, cc),
        },
    }
}

fn copy_text(text: &Option<String>) -> (copy: Option<String>)
    ensures
        text_view(copy) == text_view(*text),
{
    match text {
        Some(t) => Some(t.clone()),
        None => None,
    }
}

fn receive_lock(
    state: &mut LocalState,
    activity_id: &String,
    actor: i32,
    post_id: i32,
    locked: bool,
    reason: &Option<String>,
) -> (result: Result<(), ActivityError>)
    ensures
        match lock_received(
            old(state)@,
            activity_id@,
            actor,
            post_id,
            locked,
            text_view(*reason),
        ) {
            Ok(after) => result is Ok && final(state)@ == after,
            Err(error) => result == Err::<(), ActivityError>(error) && final(state)@ == old(
                state,
            )@,
        },
{
    match find_post(&state.posts, post_id) {
        None => Err(ActivityError::NotFound),
        Some(_) => {
            state.set_post_locked(post_id, locked);
            state.log_once(
                ModLogEntry {
                    activity_id: activity_id.clone(),
                    mod_person_id: actor,
                    action: ModAction::LockPost { post_id, locked },
                    reason: copy_text(reason),
                },
            );
            Ok(())
        },
    }
}

/// A moderator locks a post.
#[derive(Clone, Debug, PartialEq, Eq)]
pub struct LockPage {
    pub actor: i32,
    pub to: Vec<String>,
    /// The post.
    pub object: i32,
    pub cc: Vec<String>,
    pub id: String,
    pub summary: Option<String>,
}

/// A moderator takes the lock off a post.
#[derive(Clone, Debug, PartialEq, Eq)]
pub struct UndoLockPage {
    pub actor: i32,
    pub to: Vec<String>,
    /// The lock that is undone.
    pub object: LockPage,
    pub cc: Vec<String>,
    pub id: String,
    pub summary: Option<String>,
}

/// Somebody deletes what they wrote, or a moderator removes it. It is a
/// removal if there is a summary, which then holds the reason.
#[derive(Clone, Debug, PartialEq, Eq)]
pub struct Delete {
    pub actor: i32,
    pub to: Vec<String>,
    pub object: ObjectRef,
    pub cc: Vec<String>,
    pub id: String,
    pub summary: Option<String>,
    pub remove_data: Option<bool>,
}

impl LockPage {
    /// The id of the activity.
    pub fn id(&self) -> (id: &String)
        ensures
            id@ == self.id@,
    {
        &self.id
    }

    /// The person who sent the activity.
    pub fn actor(&self) -> (actor: i32)
        ensures
            actor == self.actor,
    {
        self.actor
    }

    /// Checks that the sender may lock the post. Changes nothing.
    pub fn verify(&self, state: &LocalState) -> (result: Result<(), ActivityError>)
        ensures
            result == lock_verified(
                state@,
                self.actor,
                self.object,
                addressed_publicly(self.to@, self.cc@),
            ),
    {
        verify_lock(state, self.actor, self.object, &self.to, &self.cc)
    }

    /// Locks the post and writes the moderation log. Where this fails,
    /// nothing has changed.
    pub fn receive(&self, state: &mut LocalState) -> (result: Result<(), ActivityError>)
        ensures
            match lock_received(
                old(state)@,
                self.id@,
                self.actor,
                self.object,
                true,
                text_view(self.summary),
            ) {
                Ok(after) => result is Ok && final(state)@ == after,
                Err(error) => result == Err::<(), ActivityError>(error) && final(state)@ == old(
                    state,
                )@,
            },
    {
        receive_lock(state, &self.id, self.actor, self.object, true, &self.summary)
    }
}

impl UndoLockPage {
    /// The id of the activity.
    pub fn id(&self) -> (id: &String)
        ensures
            id@ == self.id@,
    {
        &self.id
    }

    /// The person who sent the activity.
    pub fn actor(&self) -> (actor: i32)
        ensures
            actor == self.actor,
    {
        self.actor
    }

    /// Checks that the sender may unlock the post. Changes nothing.
    pub fn verify(&self, state: &LocalState) -> (result: Result<(), ActivityError>)
        ensures
            result == lock_verified(
                state@,
                self.actor,
                self.object.object,
                addressed_publicly(self.to@, self.cc@),
            ),
    {
        verify_lock(state, self.actor, self.object.object, &self.to, &self.cc)
    }

    /// Unlocks the post and writes the moderation log. Where this fails,
    /// nothing has changed.
    pub fn receive(&self, state: &mut LocalState) -> (result: Result<(), ActivityError>)
        ensures
            match lock_received(
                old(state)@,
                self.id@,
                self.actor,
                self.object.object,
                false,
                text_view(self.summary),
            ) {
                Ok(after) => result is Ok && final(state)@ == after,
                Err(error) => result == Err::<(), ActivityError>(error) && final(state)@ == old(
                    state,
                )@,
            },
    {
        receive_lock(state, &self.id, self.actor, self.object.object, false, &self.summary)
    }
}

fn verify_content_delete(
    state: &LocalState,
    actor: i32,
    community: Community,
    is_mod_action: bool,
    creator: i32,
    to: &Vec<String>,
    cc: &Vec<String>,
) -> (result: Result<(), ActivityError>)
    ensures
        result == content_delete_checked(
            state@,
            actor,
            community,
            is_mod_action,
            creator,
            addressed_publicly(to@, cc@),
        ),
{
    let visible = verify_visibility(to, cc, community.visibility);
    if visible.is_err() {
        visible
    } else if has_membership(&state.bans, community.id, actor) {
        Err(ActivityError::PersonIsBannedFromCommunity)
    } else if is_mod_action {
        if is_moderator(state, community.id, actor) {
            Ok(())
        } else {
            Err(ActivityError::NotAModerator)
        }
    } else if actor == creator {
        Ok(())
    } else {
        Err(ActivityError::NotTheCreator)
    }
}

/// A moderator removes an object: resolves its reports, writes the
/// moderation log and marks the object. Where this fails, nothing has
/// changed.
pub fn receive_remove_action(
    state: &mut LocalState,
    activity_id: &String,
    actor: i32,
    object: ObjectRef,
    reason: Option<String>,
) -> (result: Result<(), ActivityError>)
    ensures
        match remove_received(old(state)@, activity_id@, actor, object, text_view(reason)) {
            Ok(after) => result is Ok && final(state)@ == after,
            Err(error) => result == Err::<(), ActivityError>(error) && final(state)@ == old(
                state,
            )@,
        },
{
    match object {
        ObjectRef::Community(id) => {
            match find_community(&state.communities, id) {
                None => Err(ActivityError::NotFound),
                Some(community) => {
                    if community.local {
                        return Err(ActivityError::OnlyLocalAdminCanRemoveCommunity);
                    }
                    let _ = state.resolve_all_for_object(object, actor);
                    state.log_once(
                        ModLogEntry {
                            activity_id: activity_id.clone(),
                            mod_person_id: actor,
                            action: ModAction::RemoveCommunity { community_id: id },
                            reason,
                        },
                    );
                    state.set_community_removed(id);
                    Ok(())
                },
            }
        },
        ObjectRef::Post(id) => {
            match find_post(&state.posts, id) {
                None => Err(ActivityError::NotFound),
                Some(_) => {
                    let _ = state.resolve_all_for_object(object, actor);
                    state.log_once(
                        ModLogEntry {
                            activity_id: activity_id.clone(),
                            mod_person_id: actor,
                            action: ModAction::RemovePost { post_id: id },
                            reason,
                        },
                    );
                    state.set_post_removed(id);
                    Ok(())
                },
            }
        },
        ObjectRef::Comment(id) => {
            match find_comment(&state.comments, id) {
                None => Err(ActivityError::NotFound),
                Some(_) => {
                    let _ = state.resolve_all_for_object(object, actor);
                    state.log_once(
                        ModLogEntry {
                            activity_id: activity_id.clone(),
                            mod_person_id: actor,
                            action: ModAction::RemoveComment { comment_id: id },
                            reason,
                        },
                    );
                    state.set_comment_removed(id);
                    Ok(())
                },
            }
        },
        ObjectRef::PrivateMessage(_) => Err(ActivityError::NotFound),
        ObjectRef::Person(_) => Err(ActivityError::NotFound),
    }
}

/// The one an object belongs to deletes it: the object is marked. Where this
/// fails, nothing has changed.
pub fn receive_delete_action(state: &mut LocalState, object: ObjectRef) -> (result: Result<
    (),
    ActivityError,
>)
    ensures
        match delete_received(old(state)@, object) {
            Ok(after) => result is Ok && final(state)@ == after,
            Err(error) => result == Err::<(), ActivityError>(error) && final(state)@ == old(
                state,
            )@,
        },
{
    match object {
        ObjectRef::Community(id) => {
            match find_community(&state.communities, id) {
                None => Err(ActivityError::NotFound),
                Some(_) => {
                    state.set_community_deleted(id);
                    Ok(())
                },
            }
        },
        ObjectRef::Post(id) => {
            match find_post(&state.posts, id) {
                None => Err(ActivityError::NotFound),
                Some(_) => {
                    state.set_post_deleted(id);
                    Ok(())
                },
            }
        },
        ObjectRef::Comment(id) => {
            match find_comment(&state.comments, id) {
                None => Err(ActivityError::NotFound),
                Some(_) => {
                    state.set_comment_deleted(id);
                    Ok(())
                },
            }
        },
        ObjectRef::PrivateMessage(_) => Err(ActivityError::NotFound),
        ObjectRef::Person(_) => Err(ActivityError::NotFound),
    }
}

impl Delete {
    /// A deletion, or with a summary a removal, of `object` by `actor`,
    /// under the activity id `id`. It is sent to `to`, with a copy to the
    /// community if there is one.
    pub fn new(
        actor: i32,
        object: ObjectRef,
        to: Vec<String>,
        community: Option<String>,
        summary: Option<String>,
        id: String,
    ) -> (delete: Delete)
        ensures
            delete.actor == actor,
            delete.object == object,
            delete.to == to,
            delete.id == id,
            delete.summary == summary,
            delete.remove_data is None,
            match community {
                Some(url) => delete.cc@ == seq![url],
                None => delete.cc@.len() == 0,
            },
    {
        let mut cc: Vec<String> = Vec::new();
        if let Some(url) = community {
            cc.push(url);
        }
        Delete { actor, to, object, cc, id, summary, remove_data: None }
    }

    /// The id of the activity.
    pub fn id(&self) -> (id: &String)
        ensures
            id@ == self.id@,
    {
        &self.id
    }

    /// The person who sent the activity.
    pub fn actor(&self) -> (actor: i32)
        ensures
            actor == self.actor,
    {
        self.actor
    }

    /// What `receive` does to the records.
    pub open spec fn received(&self, state: LocalStateView) -> Result<LocalStateView, ActivityError> {
        match self.summary {
            Some(summary) => remove_received(
                state,
                self.id@,
                self.actor,
                self.object,
                removal_reason(summary@),
            ),
            None => delete_received(state, self.object),
        }
    }

    /// Checks that the sender may delete, or remove, the object. Changes
    /// nothing.
    pub fn verify(&self, state: &LocalState) -> (result: Result<(), ActivityError>)
        ensures
            result == delete_verified(
                state@,
                self.actor,
                self.object,
                self.summary is Some,
                addressed_publicly(self.to@, self.cc@),
            ),
    {
        let is_mod_action = self.summary.is_some();
        match self.object {
            ObjectRef::Community(id) => match find_community(&state.communities, id) {
                None => Err(ActivityError::NotFound),
                Some(community) => verify_content_delete(
                    state,
                    self.actor,
                    community,
                    true,
                    self.actor,
                    &self.to,
                    &self.cc,
                ),
            },
            ObjectRef::Post(id) => match find_post(&state.posts, id) {
                None => Err(ActivityError::NotFound),
                Some(post) => match find_community(&state.communities, post.community_id) {
                    None => Err(ActivityError::NotFound),
                    Some(community) => verify_content_delete(
                        state,
                        self.actor,
                        community,
                        is_mod_action,
                        post.creator_id,
                        &self.to,
                        &self.cc,
                    ),
                },
            },
            ObjectRef::Comment(id) => match find_comment(&state.comments, id) {
                None => Err(ActivityError::NotFound),
                Some(comment) => match find_post(&state.posts, comment.post_id) {
                    None => Err(ActivityError::NotFound),
                    Some(post) => match find_community(&state.communities, post.community_id) {
                        None => Err(ActivityError::NotFound),
                        Some(community) => verify_content_delete(
                            state,
                            self.actor,
                            community,
                            is_mod_action,
                            comment.creator_id,
                            &self.to,
                            &self.cc,
                        ),
                    },
                },
            },
            ObjectRef::PrivateMessage(_) => Err(ActivityError::NotFound),
            ObjectRef::Person(_) => Err(ActivityError::NotFound),
        }
    }

    /// Removes the object if the activity has a summary, and deletes it if
    /// not. Where this fails, nothing has changed.
    pub fn receive(&self, state: &mut LocalState) -> (result: Result<(), ActivityError>)
        ensures
            match self.received(old(state)@) {
                Ok(after) => result is Ok && final(state)@ == after,
                Err(error) => result == Err::<(), ActivityError>(error) && final(state)@ == old(
                    state,
                )@,
            },
    {
        match &self.summary {
            Some(summary) => {
                let reason = if summary.as_str().is_empty() {
                    None
                } else {
                    Some(summary.clone())
                };
                receive_remove_action(state, &self.id, self.actor, self.object, reason)
            },
            None => receive_delete_action(state, self.object),
        }
    }
}

} // verus!
