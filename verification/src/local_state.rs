//! The local records that activities read and change: communities, posts,
//! comments, people, reports and the moderation log.

use crate::enums::CommunityVisibility;
use vstd::prelude::*;

verus! {

/// A community, as far as activities are concerned.
#[derive(Clone, Copy, Debug, PartialEq, Eq, Structural)]
pub struct Community {
    pub id: i32,
    /// Whether the community lives on this site.
    pub local: bool,
    pub removed: bool,
    pub deleted: bool,
    pub visibility: CommunityVisibility,
}

/// A post, as far as activities are concerned.
#[derive(Clone, Copy, Debug, PartialEq, Eq, Structural)]
pub struct Post {
    pub id: i32,
    pub community_id: i32,
    pub creator_id: i32,
    pub locked: bool,
    pub removed: bool,
    pub deleted: bool,
}

/// A comment, as far as activities are concerned.
#[derive(Clone, Copy, Debug, PartialEq, Eq, Structural)]
pub struct Comment {
    pub id: i32,
    pub post_id: i32,
    pub creator_id: i32,
    /// The comment that this one replies to, if it does not reply to the post.
    pub parent_id: Option<i32>,
    pub removed: bool,
    pub deleted: bool,
}

/// That a person moderates a community, or is banned from it.
#[derive(Clone, Copy, Debug, PartialEq, Eq, Structural)]
pub struct Membership {
    pub community_id: i32,
    pub person_id: i32,
}

/// An object that can be deleted or removed.
#[derive(Clone, Copy, Debug, PartialEq, Eq, Structural)]
pub enum ObjectRef {
    Community(i32),
    Post(i32),
    Comment(i32),
    PrivateMessage(i32),
    Person(i32),
}

/// A report of an object to the moderators.
#[derive(Clone, Copy, Debug, PartialEq, Eq, Structural)]
pub struct Report {
    pub id: i32,
    pub object: ObjectRef,
    pub resolved: bool,
    pub resolver_id: Option<i32>,
}

/// What a moderator did.
#[derive(Clone, Copy, Debug, PartialEq, Eq, Structural)]
pub enum ModAction {
    LockPost { post_id: i32, locked: bool },
    RemovePost { post_id: i32 },
    RemoveComment { comment_id: i32 },
    RemoveCommunity { community_id: i32 },
}

/// An entry of the moderation log. The activity that caused it is its key.
#[derive(Clone, Debug, PartialEq, Eq)]
pub struct ModLogEntry {
    pub activity_id: String,
    pub mod_person_id: i32,
    pub action: ModAction,
    pub reason: Option<String>,
}

/// An entry of the moderation log, as the contracts see it.
pub struct ModLogEntryView {
    pub activity_id: Seq<char>,
    pub mod_person_id: i32,
    pub action: ModAction,
    pub reason: Option<Seq<char>>,
}

/// A text that may be missing, as the contracts see it.
pub open spec fn text_view(text: Option<String>) -> Option<Seq<char>> {
    match text {
        Some(t) => Some(t@),
        None => None,
    }
}

impl View for ModLogEntry {
    type V = ModLogEntryView;

    open spec fn view(&self) -> ModLogEntryView {
        ModLogEntryView {
            activity_id: self.activity_id@,
            mod_person_id: self.mod_person_id,
            action: self.action,
            reason: text_view(self.reason),
        }
    }
}

/// The local records.
#[derive(Clone, Debug, PartialEq, Eq)]
pub struct LocalState {
    pub communities: Vec<Community>,
    pub posts: Vec<Post>,
    pub comments: Vec<Comment>,
    /// The people who administer this site.
    pub admins: Vec<i32>,
    pub moderators: Vec<Membership>,
    pub bans: Vec<Membership>,
    pub reports: Vec<Report>,
    pub modlog: Vec<ModLogEntry>,
}

/// The local records, as the contracts see them.
pub struct LocalStateView {
    pub communities: Seq<Community>,
    pub posts: Seq<Post>,
    pub comments: Seq<Comment>,
    pub admins: Seq<i32>,
    pub moderators: Seq<Membership>,
    pub bans: Seq<Membership>,
    pub reports: Seq<Report>,
    pub modlog: Seq<ModLogEntryView>,
}

/// The log, entry by entry, as the contracts see it.
pub open spec fn modlog_view(log: Seq<ModLogEntry>) -> Seq<ModLogEntryView> {
    Seq::new(log.len(), |i: int| log[i]@)
}

impl View for LocalState {
    type V = LocalStateView;

    open spec fn view(&self) -> LocalStateView {
        LocalStateView {
            communities: self.communities@,
            posts: self.posts@,
            comments: self.comments@,
            admins: self.admins@,
            moderators: self.moderators@,
            bans: self.bans@,
            reports: self.reports@,
            modlog: modlog_view(self.modlog@),
        }
    }
}

/// The first community with the id, if there is one.
pub open spec fn community_with(communities: Seq<Community>, id: i32) -> Option<Community>
    decreases communities.len(),
{
    if communities.len() == 0 {
        None
    } else if communities[0].id == id {
        Some(communities[0])
    } else {
        community_with(communities.drop_first(), id)
    }
}

/// The first post with the id, if there is one.
pub open spec fn post_with(posts: Seq<Post>, id: i32) -> Option<Post>
    decreases posts.len(),
{
    if posts.len() == 0 {
        None
    } else if posts[0].id == id {
        Some(posts[0])
    } else {
        post_with(posts.drop_first(), id)
    }
}

/// The first comment with the id, if there is one.
pub open spec fn comment_with(comments: Seq<Comment>, id: i32) -> Option<Comment>
    decreases comments.len(),
{
    if comments.len() == 0 {
        None
    } else if comments[0].id == id {
        Some(comments[0])
    } else {
        comment_with(comments.drop_first(), id)
    }
}

/// Whether the log has an entry that the activity caused.
pub open spec fn logged(log: Seq<ModLogEntryView>, activity_id: Seq<char>) -> bool {
    exists|i: int| 0 <= i < log.len() && (#[trigger] log[i]).activity_id == activity_id
}

/// The posts after every post with the id had its lock set.
pub open spec fn posts_locked(posts: Seq<Post>, id: i32, locked: bool) -> Seq<Post> {
    Seq::new(
        posts.len(),
        |i: int|
            if posts[i].id == id {
                Post { locked, ..posts[i] }
            } else {
                posts[i]
            },
    )
}

/// The posts after every post with the id was removed.
pub open spec fn posts_removed(posts: Seq<Post>, id: i32) -> Seq<Post> {
    Seq::new(
        posts.len(),
        |i: int|
            if posts[i].id == id {
                Post { removed: true, ..posts[i] }
            } else {
                posts[i]
            },
    )
}

/// The posts after every post with the id was deleted.
pub open spec fn posts_deleted(posts: Seq<Post>, id: i32) -> Seq<Post> {
    Seq::new(
        posts.len(),
        |i: int|
            if posts[i].id == id {
                Post { deleted: true, ..posts[i] }
            } else {
                posts[i]
            },
    )
}

/// The comments after every comment with the id was removed.
pub open spec fn comments_removed(comments: Seq<Comment>, id: i32) -> Seq<Comment> {
    Seq::new(
        comments.len(),
        |i: int|
            if comments[i].id == id {
                Comment { removed: true, ..comments[i] }
            } else {
                comments[i]
            },
    )
}

/// The comments after every comment with the id was deleted.
pub open spec fn comments_deleted(comments: Seq<Comment>, id: i32) -> Seq<Comment> {
    Seq::new(
        comments.len(),
        |i: int|
            if comments[i].id == id {
                Comment { deleted: true, ..comments[i] }
            } else {
                comments[i]
            },
    )
}

/// The communities after every community with the id was removed.
pub open spec fn communities_removed(communities: Seq<Community>, id: i32) -> Seq<Community> {
    Seq::new(
        communities.len(),
        |i: int|
            if communities[i].id == id {
                Community { removed: true, ..communities[i] }
            } else {
                communities[i]
            },
    )
}

/// The communities after every community with the id was deleted.
pub open spec fn communities_deleted(communities: Seq<Community>, id: i32) -> Seq<Community> {
    Seq::new(
        communities.len(),
        |i: int|
            if communities[i].id == id {
                Community { deleted: true, ..communities[i] }
            } else {
                communities[i]
            },
    )
}

/// The reports after `resolver` resolved every report of `object`.
pub open spec fn reports_resolved(reports: Seq<Report>, object: ObjectRef, resolver: i32) -> Seq<
    Report,
> {
    Seq::new(
        reports.len(),
        |i: int|
            if reports[i].object == object {
                Report { resolved: true, resolver_id: Some(resolver), ..reports[i] }
            } else {
                reports[i]
            },
    )
}

/// The reports after `resolver` set the state of every report with the id.
pub open spec fn report_set(reports: Seq<Report>, id: i32, resolved: bool, resolver: i32) -> Seq<
    Report,
> {
    Seq::new(
        reports.len(),
        |i: int|
            if reports[i].id == id {
                Report { resolved, resolver_id: Some(resolver), ..reports[i] }
            } else {
                reports[i]
            },
    )
}

/// How many reports are of `object`.
pub open spec fn reports_of(reports: Seq<Report>, object: ObjectRef) -> nat
    decreases reports.len(),
{
    if reports.len() == 0 {
        0
    } else {
        reports_of(reports.drop_last(), object) + if reports.last().object == object {
            1nat
        } else {
            0nat
        }
    }
}

/// How many reports have the id.
pub open spec fn reports_with(reports: Seq<Report>, id: i32) -> nat
    decreases reports.len(),
{
    if reports.len() == 0 {
        0
    } else {
        reports_with(reports.drop_last(), id) + if reports.last().id == id {
            1nat
        } else {
            0nat
        }
    }
}

/// The first community with the id.
pub fn find_community(communities: &Vec<Community>, id: i32) -> (found: Option<Community>)
    ensures
        found == community_with(communities@, id),
{
    assert(communities@.skip(0) =~= communities@);
    let mut i: usize = 0;
    while i < communities.len()
        invariant
            i <= communities.len(),
            community_with(communities@, id) == community_with(communities@.skip(i as int), id),
        decreases communities.len() - i,
    {
        assert(communities@.skip(i as int).drop_first() =~= communities@.skip(i + 1));
        if communities[i].id == id {
            return Some(communities[i]);
        }
        i = i + 1;
    }
    None
}

/// The first post with the id.
pub fn find_post(posts: &Vec<Post>, id: i32) -> (found: Option<Post>)
    ensures
        found == post_with(posts@, id),
{
    assert(posts@.skip(0) =~= posts@);
    let mut i: usize = 0;
    while i < posts.len()
        invariant
            i <= posts.len(),
            post_with(posts@, id) == post_with(posts@.skip(i as int), id),
        decreases posts.len() - i,
    {
        assert(posts@.skip(i as int).drop_first() =~= posts@.skip(i + 1));
        if posts[i].id == id {
            return Some(posts[i]);
        }
        i = i + 1;
    }
    None
}

/// The first comment with the id.
pub fn find_comment(comments: &Vec<Comment>, id: i32) -> (found: Option<Comment>)
    ensures
        found == comment_with(comments@, id),
{
    assert(comments@.skip(0) =~= comments@);
    let mut i: usize = 0;
    while i < comments.len()
        invariant
            i <= comments.len(),
            comment_with(comments@, id) == comment_with(comments@.skip(i as int), id),
        decreases comments.len() - i,
    {
        assert(comments@.skip(i as int).drop_first() =~= comments@.skip(i + 1));
        if comments[i].id == id {
            return Some(comments[i]);
        }
        i = i + 1;
    }
    None
}

/// Whether the pair of community and person is listed.
pub fn has_membership(list: &Vec<Membership>, community_id: i32, person_id: i32) -> (found: bool)
    ensures
        found == list@.contains(Membership { community_id, person_id }),
{
    let mut i: usize = 0;
    while i < list.len()
        invariant
            i <= list.len(),
            forall|j: int| 0 <= j < i ==> list@[j] != (Membership { community_id, person_id }),
        decreases list.len() - i,
    {
        if list[i].community_id == community_id && list[i].person_id == person_id {
            return true;
        }
        i = i + 1;
    }
    false
}

/// Whether the log has an entry that the activity caused.
pub fn is_logged(log: &Vec<ModLogEntry>, activity_id: &String) -> (found: bool)
    ensures
        found == logged(modlog_view(log@), activity_id@),
{
    let mut i: usize = 0;
    while i < log.len()
        invariant
            i <= log.len(),
            forall|j: int| 0 <= j < i ==> (#[trigger] modlog_view(log@)[j]).activity_id != activity_id@,
        decreases log.len() - i,
    {
        if log[i].activity_id == *activity_id {
            assert(modlog_view(log@)[i as int].activity_id == activity_id@);
            return true;
        }
        assert(modlog_view(log@)[i as int].activity_id != activity_id@);
        i = i + 1;
    }
    false
}

impl LocalState {
    /// A site without any records.
    pub fn new() -> (state: LocalState)
        ensures
            state@.communities.len() == 0,
            state@.posts.len() == 0,
            state@.comments.len() == 0,
            state@.admins.len() == 0,
            state@.moderators.len() == 0,
            state@.bans.len() == 0,
            state@.reports.len() == 0,
            state@.modlog.len() == 0,
    {
        LocalState {
            communities: Vec::new(),
            posts: Vec::new(),
            comments: Vec::new(),
            admins: Vec::new(),
            moderators: Vec::new(),
            bans: Vec::new(),
            reports: Vec::new(),
            modlog: Vec::new(),
        }
    }

    /// Sets the lock of every post with the id.
    pub fn set_post_locked(&mut self, id: i32, locked: bool)
        ensures
            final(self)@ == (LocalStateView {
                posts: posts_locked(old(self)@.posts, id, locked),
                ..old(self)@
            }),
    {
        let mut i: usize = 0;
        while i < self.posts.len()
            invariant
                i <= self.posts.len(),
                self.posts@.len() == old(self)@.posts.len(),
                forall|j: int|
                    0 <= j < i ==> self.posts@[j] == posts_locked(old(self)@.posts, id, locked)[j],
                forall|j: int| i <= j < self.posts@.len() ==> self.posts@[j] == old(self)@.posts[j],
                self.communities == old(self).communities,
                self.comments == old(self).comments,
                self.admins == old(self).admins,
                self.moderators == old(self).moderators,
                self.bans == old(self).bans,
                self.reports == old(self).reports,
                self.modlog == old(self).modlog,
            decreases self.posts.len() - i,
        {
            if self.posts[i].id == id {
                let post = self.posts[i];
                self.posts.set(i, Post { locked, ..post });
            }
            i = i + 1;
        }
        assert(self.posts@ =~= posts_locked(old(self)@.posts, id, locked));
    }

    /// Marks every post with the id as removed.
    pub fn set_post_removed(&mut self, id: i32)
        ensures
            final(self)@ == (LocalStateView {
                posts: posts_removed(old(self)@.posts, id),
                ..old(self)@
            }),
    {
        let mut i: usize = 0;
        while i < self.posts.len()
            invariant
                i <= self.posts.len(),
                self.posts@.len() == old(self)@.posts.len(),
                forall|j: int|
                    0 <= j < i ==> self.posts@[j] == posts_removed(old(self)@.posts, id)[j],
                forall|j: int| i <= j < self.posts@.len() ==> self.posts@[j] == old(self)@.posts[j],
                self.communities == old(self).communities,
                self.comments == old(self).comments,
                self.admins == old(self).admins,
                self.moderators == old(self).moderators,
                self.bans == old(self).bans,
                self.reports == old(self).reports,
                self.modlog == old(self).modlog,
            decreases self.posts.len() - i,
        {
            if self.posts[i].id == id {
                let post = self.posts[i];
                self.posts.set(i, Post { removed: true, ..post });
            }
            i = i + 1;
        }
        assert(self.posts@ =~= posts_removed(old(self)@.posts, id));
    }

    /// Marks every post with the id as deleted.
    pub fn set_post_deleted(&mut self, id: i32)
        ensures
            final(self)@ == (LocalStateView {
                posts: posts_deleted(old(self)@.posts, id),
                ..old(self)@
            }),
    {
        let mut i: usize = 0;
        while i < self.posts.len()
            invariant
                i <= self.posts.len(),
                self.posts@.len() == old(self)@.posts.len(),
                forall|j: int|
                    0 <= j < i ==> self.posts@[j] == posts_deleted(old(self)@.posts, id)[j],
                forall|j: int| i <= j < self.posts@.len() ==> self.posts@[j] == old(self)@.posts[j],
                self.communities == old(self).communities,
                self.comments == old(self).comments,
                self.admins == old(self).admins,
                self.moderators == old(self).moderators,
                self.bans == old(self).bans,
                self.reports == old(self).reports,
                self.modlog == old(self).modlog,
            decreases self.posts.len() - i,
        {
            if self.posts[i].id == id {
                let post = self.posts[i];
                self.posts.set(i, Post { deleted: true, ..post });
            }
            i = i + 1;
        }
        assert(self.posts@ =~= posts_deleted(old(self)@.posts, id));
    }

    /// Marks every comment with the id as removed.
    pub fn set_comment_removed(&mut self, id: i32)
        ensures
            final(self)@ == (LocalStateView {
                comments: comments_removed(old(self)@.comments, id),
                ..old(self)@
            }),
    {
        let mut i: usize = 0;
        while i < self.comments.len()
            invariant
                i <= self.comments.len(),
                self.comments@.len() == old(self)@.comments.len(),
                forall|j: int|
                    0 <= j < i ==> self.comments@[j] == comments_removed(
                        old(self)@.comments,
                        id,
                    )[j],
                forall|j: int|
                    i <= j < self.comments@.len() ==> self.comments@[j] == old(self)@.comments[j],
                self.communities == old(self).communities,
                self.posts == old(self).posts,
                self.admins == old(self).admins,
                self.moderators == old(self).moderators,
                self.bans == old(self).bans,
                self.reports == old(self).reports,
                self.modlog == old(self).modlog,
            decreases self.comments.len() - i,
        {
            if self.comments[i].id == id {
                let comment = self.comments[i];
                self.comments.set(i, Comment { removed: true, ..comment });
            }
            i = i + 1;
        }
        assert(self.comments@ =~= comments_removed(old(self)@.comments, id));
    }

    /// Marks every comment with the id as deleted.
    pub fn set_comment_deleted(&mut self, id: i32)
        ensures
            final(self)@ == (LocalStateView {
                comments: comments_deleted(old(self)@.comments, id),
                ..old(self)@
            }),
    {
        let mut i: usize = 0;
        while i < self.comments.len()
            invariant
                i <= self.comments.len(),
                self.comments@.len() == old(self)@.comments.len(),
                forall|j: int|
                    0 <= j < i ==> self.comments@[j] == comments_deleted(
                        old(self)@.comments,
                        id,
                    )[j],
                forall|j: int|
                    i <= j < self.comments@.len() ==> self.comments@[j] == old(self)@.comments[j],
                self.communities == old(self).communities,
                self.posts == old(self).posts,
                self.admins == old(self).admins,
                self.moderators == old(self).moderators,
                self.bans == old(self).bans,
                self.reports == old(self).reports,
                self.modlog == old(self).modlog,
            decreases self.comments.len() - i,
        {
            if self.comments[i].id == id {
                let comment = self.comments[i];
                self.comments.set(i, Comment { deleted: true, ..comment });
            }
            i = i + 1;
        }
        assert(self.comments@ =~= comments_deleted(old(self)@.comments, id));
    }

    /// Marks every community with the id as removed.
    pub fn set_community_removed(&mut self, id: i32)
        ensures
            final(self)@ == (LocalStateView {
                communities: communities_removed(old(self)@.communities, id),
                ..old(self)@
            }),
    {
        let mut i: usize = 0;
        while i < self.communities.len()
            invariant
                i <= self.communities.len(),
                self.communities@.len() == old(self)@.communities.len(),
                forall|j: int|
                    0 <= j < i ==> self.communities@[j] == communities_removed(
                        old(self)@.communities,
                        id,
                    )[j],
                forall|j: int|
                    i <= j < self.communities@.len() ==> self.communities@[j]
                        == old(self)@.communities[j],
                self.posts == old(self).posts,
                self.comments == old(self).comments,
                self.admins == old(self).admins,
                self.moderators == old(self).moderators,
                self.bans == old(self).bans,
                self.reports == old(self).reports,
                self.modlog == old(self).modlog,
            decreases self.communities.len() - i,
        {
            if self.communities[i].id == id {
                let community = self.communities[i];
                self.communities.set(i, Community { removed: true, ..community });
            }
            i = i + 1;
        }
        assert(self.communities@ =~= communities_removed(old(self)@.communities, id));
    }

    /// Marks every community with the id as deleted.
    pub fn set_community_deleted(&mut self, id: i32)
        ensures
            final(self)@ == (LocalStateView {
                communities: communities_deleted(old(self)@.communities, id),
                ..old(self)@
            }),
    {
        let mut i: usize = 0;
        while i < self.communities.len()
            invariant
                i <= self.communities.len(),
                self.communities@.len() == old(self)@.communities.len(),
                forall|j: int|
                    0 <= j < i ==> self.communities@[j] == communities_deleted(
                        old(self)@.communities,
                        id,
                    )[j],
                forall|j: int|
                    i <= j < self.communities@.len() ==> self.communities@[j]
                        == old(self)@.communities[j],
                self.posts == old(self).posts,
                self.comments == old(self).comments,
                self.admins == old(self).admins,
                self.moderators == old(self).moderators,
                self.bans == old(self).bans,
                self.reports == old(self).reports,
                self.modlog == old(self).modlog,
            decreases self.communities.len() - i,
        {
            if self.communities[i].id == id {
                let community = self.communities[i];
                self.communities.set(i, Community { deleted: true, ..community });
            }
            i = i + 1;
        }
        assert(self.communities@ =~= communities_deleted(old(self)@.communities, id));
    }

    /// Files a report.
    pub fn report(&mut self, report: Report)
        ensures
            final(self)@ == (LocalStateView {
                reports: old(self)@.reports.push(report),
                ..old(self)@
            }),
    {
        self.reports.push(report);
    }

    /// `resolver` resolves every report of `object`. Returns how many
    /// reports there are of it.
    pub fn resolve_all_for_object(&mut self, object: ObjectRef, resolver: i32) -> (count: usize)
        ensures
            final(self)@ == (LocalStateView {
                reports: reports_resolved(old(self)@.reports, object, resolver),
                ..old(self)@
            }),
            count == reports_of(old(self)@.reports, object),
    {
        let mut count: usize = 0;
        let mut i: usize = 0;
        assert(old(self)@.reports.take(0) =~= Seq::<Report>::empty());
        while i < self.reports.len()
            invariant
                i <= self.reports.len(),
                count <= i,
                count == reports_of(old(self)@.reports.take(i as int), object),
                self.reports@.len() == old(self)@.reports.len(),
                forall|j: int|
                    0 <= j < i ==> self.reports@[j] == reports_resolved(
                        old(self)@.reports,
                        object,
                        resolver,
                    )[j],
                forall|j: int|
                    i <= j < self.reports@.len() ==> self.reports@[j] == old(self)@.reports[j],
                self.communities == old(self).communities,
                self.posts == old(self).posts,
                self.comments == old(self).comments,
                self.admins == old(self).admins,
                self.moderators == old(self).moderators,
                self.bans == old(self).bans,
                self.modlog == old(self).modlog,
            decreases self.reports.len() - i,
        {
            assert(old(self)@.reports.take(i + 1).drop_last() =~= old(self)@.reports.take(
                i as int,
            ));
            let report = self.reports[i];
            if report.object == object {
                self.reports.set(
                    i,
                    Report { resolved: true, resolver_id: Some(resolver), ..report },
                );
                count = count + 1;
            }
            i = i + 1;
        }
        assert(old(self)@.reports.take(i as int) =~= old(self)@.reports);
        assert(self.reports@ =~= reports_resolved(old(self)@.reports, object, resolver));
        count
    }

    fn set_report(&mut self, id: i32, resolved: bool, resolver: i32) -> (count: usize)
        ensures
            final(self)@ == (LocalStateView {
                reports: report_set(old(self)@.reports, id, resolved, resolver),
                ..old(self)@
            }),
            count == reports_with(old(self)@.reports, id),
    {
        let mut count: usize = 0;
        let mut i: usize = 0;
        assert(old(self)@.reports.take(0) =~= Seq::<Report>::empty());
        while i < self.reports.len()
            invariant
                i <= self.reports.len(),
                count <= i,
                count == reports_with(old(self)@.reports.take(i as int), id),
                self.reports@.len() == old(self)@.reports.len(),
                forall|j: int|
                    0 <= j < i ==> self.reports@[j] == report_set(
                        old(self)@.reports,
                        id,
                        resolved,
                        resolver,
                    )[j],
                forall|j: int|
                    i <= j < self.reports@.len() ==> self.reports@[j] == old(self)@.reports[j],
                self.communities == old(self).communities,
                self.posts == old(self).posts,
                self.comments == old(self).comments,
                self.admins == old(self).admins,
                self.moderators == old(self).moderators,
                self.bans == old(self).bans,
                self.modlog == old(self).modlog,
            decreases self.reports.len() - i,
        {
            assert(old(self)@.reports.take(i + 1).drop_last() =~= old(self)@.reports.take(
                i as int,
            ));
            let report = self.reports[i];
            if report.id == id {
                self.reports.set(i, Report { resolved, resolver_id: Some(resolver), ..report });
                count = count + 1;
            }
            i = i + 1;
        }
        assert(old(self)@.reports.take(i as int) =~= old(self)@.reports);
        assert(self.reports@ =~= report_set(old(self)@.reports, id, resolved, resolver));
        count
    }

    /// `resolver` resolves the report with the id. Returns how many reports
    /// have the id.
    pub fn resolve(&mut self, report_id: i32, resolver: i32) -> (count: usize)
        ensures
            final(self)@ == (LocalStateView {
                reports: report_set(old(self)@.reports, report_id, true, resolver),
                ..old(self)@
            }),
            count == reports_with(old(self)@.reports, report_id),
    {
        self.set_report(report_id, true, resolver)
    }

    /// `resolver` opens the report with the id again. Returns how many
    /// reports have the id.
    pub fn unresolve(&mut self, report_id: i32, resolver: i32) -> (count: usize)
        ensures
            final(self)@ == (LocalStateView {
                reports: report_set(old(self)@.reports, report_id, false, resolver),
                ..old(self)@
            }),
            count == reports_with(old(self)@.reports, report_id),
    {
        self.set_report(report_id, false, resolver)
    }

    /// Adds an entry to the moderation log, unless the log already has one
    /// that the same activity caused.
    pub fn log_once(&mut self, entry: ModLogEntry)
        ensures
            final(self)@ == (LocalStateView {
                modlog: if logged(old(self)@.modlog, entry@.activity_id) {
                    old(self)@.modlog
                } else {
                    old(self)@.modlog.push(entry@)
                },
                ..old(self)@
            }),
    {
        if !is_logged(&self.modlog, &entry.activity_id) {
            self.modlog.push(entry);
            assert(modlog_view(self.modlog@) =~= old(self)@.modlog.push(entry@));
        }
    }
}

} // verus!
