//! Making the activity that tells other instances of a lock on a post, or of
//! its end.

use crate::activity::{
    addressed_publicly, lists_public, visibility_checked, ActivityError, LockPage, UndoLockPage,
    PUBLIC_COLLECTION,
};
use crate::enums::CommunityVisibility;
use crate::inbox::Activity;
use crate::local_state::{text_view, Community, Post};
use crate::targets::SendTargets;
use vstd::prelude::*;
use vstd::string::*;

verus! {

/// The addressees of what a community sends out: everybody, if the
/// community is public or unlisted; its followers, if it is private. A
/// community for local users only sends nothing out.
pub open spec fn addressees(visibility: CommunityVisibility, community_url: Seq<char>) -> Option<
    Seq<Seq<char>>,
> {
    match visibility {
        CommunityVisibility::Public | CommunityVisibility::Unlisted => Some(
            seq![PUBLIC_COLLECTION@],
        ),
        CommunityVisibility::Private => Some(seq![community_url + "/followers"@]),
        CommunityVisibility::LocalOnlyPublic | CommunityVisibility::LocalOnlyPrivate => None,
    }
}

/// The texts of a list, one for one.
pub open spec fn texts(list: Seq<String>) -> Seq<Seq<char>> {
    Seq::new(list.len(), |i: int| list[i]@)
}

/// The addressees of what the community sends out.
pub fn generate_to(visibility: CommunityVisibility, community_url: &String) -> (result: Result<
    Vec<String>,
    ActivityError,
>)
    ensures
        match addressees(visibility, community_url@) {
            Some(list) => result is Ok && texts(result->Ok_0@) == list,
            None => result == Err::<Vec<String>, ActivityError>(ActivityError::NotFound),
        },
{
    match visibility {
        CommunityVisibility::Public | CommunityVisibility::Unlisted => {
            let mut to: Vec<String> = Vec::new();
            to.push(PUBLIC_COLLECTION.to_owned());
            assert(texts(to@) =~= seq![PUBLIC_COLLECTION@]);
            Ok(to)
        },
        CommunityVisibility::Private => {
            let mut to: Vec<String> = Vec::new();
            to.push(community_url.clone().concat("/followers"));
            assert(texts(to@) =~= seq![community_url@ + "/followers"@]);
            Ok(to)
        },
        CommunityVisibility::LocalOnlyPublic | CommunityVisibility::LocalOnlyPrivate => Err(
            ActivityError::NotFound,
        ),
    }
}

/// A community has addressees exactly if it federates.
pub proof fn lemma_addressees_iff_federates(visibility: CommunityVisibility, community_url: Seq<char>)
    ensures
        addressees(visibility, community_url) is Some <==> visibility.federates(),
{
}

/// The followers of a community are not everybody.
pub proof fn lemma_followers_not_public(community_url: Seq<char>)
    ensures
        community_url + "/followers"@ != PUBLIC_COLLECTION@,
{
    reveal_strlit("/followers");
    reveal_strlit("https://www.w3.org/ns/activitystreams#Public");
    let followers = community_url + "/followers"@;
    if followers == PUBLIC_COLLECTION@ {
        assert(followers[followers.len() - 1] == 's');
        assert(PUBLIC_COLLECTION@[PUBLIC_COLLECTION@.len() - 1] == 'c');
    }
}

/// What this site addresses for a community passes the check that the
/// receiving site makes on the addressing.
pub proof fn lemma_generated_addressing_passes(
    visibility: CommunityVisibility,
    community_url: Seq<char>,
    to: Seq<String>,
    cc: Seq<String>,
)
    requires
        addressees(visibility, community_url) == Some(texts(to)),
        texts(cc) == seq![community_url],
        community_url != PUBLIC_COLLECTION@,
    ensures
        visibility_checked(visibility, addressed_publicly(to, cc)) is Ok,
{
    lemma_followers_not_public(community_url);
    assert(seq![community_url].len() == 1);
    assert(texts(cc).len() == cc.len());
    assert(texts(cc)[0] == cc[0]@);
    assert(texts(to).len() == 1);
    assert(texts(to).len() == to.len());
    assert(texts(to)[0] == to[0]@);
    match visibility {
        CommunityVisibility::Public | CommunityVisibility::Unlisted => {
            assert(to[0]@ == PUBLIC_COLLECTION@);
            assert(lists_public(to));
        },
        CommunityVisibility::Private => {
            assert(!lists_public(to));
            assert(!lists_public(cc));
        },
        _ => {},
    }
}

/// An activity that is sent out in the name of a community.
#[derive(Clone, Debug, PartialEq, Eq)]
pub struct CommunityActivity {
    pub activity: Activity,
    /// Whom the activity is for.
    pub send_targets: SendTargets,
    /// Whether the activity is an act of moderation. Such an activity is
    /// sent out by the community's own site only.
    pub is_mod_action: bool,
}

/// The activity that tells of `actor` locking the post, if `locked`, or
/// taking the lock off, if not, and whom it is for: the followers of the
/// post's community. Either is an act of moderation. The ids of the
/// activities are handed in: `lock_id` for the lock, `undo_id` for its
/// undoing, which is used only when the lock is taken off.
pub fn lock_post_activity(
    post: &Post,
    actor: i32,
    community: &Community,
    community_url: &String,
    locked: bool,
    reason: Option<String>,
    lock_id: String,
    undo_id: String,
) -> (result: Result<CommunityActivity, ActivityError>)
    ensures
        match addressees(community.visibility, community_url@) {
            None => result == Err::<CommunityActivity, ActivityError>(ActivityError::NotFound),
            Some(to) => {
                &&& result is Ok
                &&& result->Ok_0.send_targets.inboxes@.len() == 0
                &&& result->Ok_0.send_targets.community_id == Some(post.community_id)
                &&& result->Ok_0.is_mod_action
                &&& locked ==> {
                    &&& result->Ok_0.activity matches Activity::LockPage(lock)
                    &&& lock.actor == actor
                    &&& lock.object == post.id
                    &&& texts(lock.to@) == to
                    &&& texts(lock.cc@) == seq![community_url@]
                    &&& lock.id@ == lock_id@
                    &&& text_view(lock.summary) == text_view(reason)
                }
                &&& !locked ==> {
                    &&& result->Ok_0.activity matches Activity::UndoLockPage(undo)
                    &&& undo.actor == actor
                    &&& texts(undo.to@) == to
                    &&& texts(undo.cc@) == seq![community_url@]
                    &&& undo.id@ == undo_id@
                    &&& text_view(undo.summary) == text_view(reason)
                    &&& undo.object.actor == actor
                    &&& undo.object.object == post.id
                    &&& texts(undo.object.to@) == to
                    &&& texts(undo.object.cc@) == seq![community_url@]
                    &&& undo.object.id@ == lock_id@
                    &&& text_view(undo.object.summary) == text_view(reason)
                }
            },
        },
{
    let to = match generate_to(community.visibility, community_url) {
        Ok(to) => to,
        Err(error) => {
            return Err(error);
        },
    };
    let mut cc: Vec<String> = Vec::new();
    cc.push(community_url.clone());
    assert(texts(cc@) =~= seq![community_url@]);
    let summary = match &reason {
        Some(text) => Some(text.clone()),
        None => None,
    };
    let send_targets = SendTargets { inboxes: Vec::new(), community_id: Some(post.community_id) };
    if locked {
        let lock = LockPage { actor, to, object: post.id, cc, id: lock_id, summary: reason };
        Ok(CommunityActivity { activity: Activity::LockPage(lock), send_targets, is_mod_action: true })
    } else {
        let undo_to = match generate_to(community.visibility, community_url) {
            Ok(to) => to,
            Err(error) => {
                return Err(error);
            },
        };
        let mut undo_cc: Vec<String> = Vec::new();
        undo_cc.push(community_url.clone());
        assert(texts(undo_cc@) =~= seq![community_url@]);
        let lock = LockPage { actor, to, object: post.id, cc, id: lock_id, summary };
        let undo = UndoLockPage {
            actor,
            to: undo_to,
            object: lock,
            cc: undo_cc,
            id: undo_id,
            summary: reason,
        };
        Ok(
            CommunityActivity {
                activity: Activity::UndoLockPage(undo),
                send_targets,
                is_mod_action: true,
            },
        )
    }
}

} // verus!
