//! People, who follows whom, and what people have saved. Times are in
//! milliseconds since the epoch, addresses are kept as text.

use vstd::prelude::*;

verus! {

/// A person.
#[derive(Clone, Debug, PartialEq, Eq)]
pub struct Person {
    pub id: i32,
    pub name: String,
    /// A shorter display name.
    pub display_name: Option<String>,
    /// The address of an avatar.
    pub avatar: Option<String>,
    /// Whether the person is banned.
    pub banned: bool,
    pub published: i64,
    pub updated: Option<i64>,
    /// The id under which the person is known to other instances.
    pub ap_id: String,
    /// A bio, in markdown.
    pub bio: Option<String>,
    /// Whether the person is local to this site.
    pub local: bool,
    pub private_key: Option<String>,
    pub public_key: String,
    pub last_refreshed_at: i64,
    /// The address of a banner.
    pub banner: Option<String>,
    /// Whether the person is deleted.
    pub deleted: bool,
    pub inbox_url: String,
    /// A matrix id, such as `@person:matrix.org`.
    pub matrix_user_id: Option<String>,
    /// Whether the person is a bot account.
    pub bot_account: bool,
    /// When the ban ends, if the person is banned and the ban ends at all.
    pub ban_expires: Option<i64>,
    pub instance_id: i32,
    pub post_count: i64,
    pub post_score: i64,
    pub comment_count: i64,
    pub comment_score: i64,
}

impl Person {
    /// A ban is over once its end lies in the past.
    pub open spec fn ban_over(&self, now: i64) -> bool {
        match self.ban_expires {
            Some(end) => end < now,
            None => false,
        }
    }

    /// Whether the ban of the person is over at `now`.
    pub fn ban_expired(&self, now: i64) -> (over: bool)
        ensures
            over == self.ban_over(now),
    {
        match self.ban_expires {
            Some(end) => end < now,
            None => false,
        }
    }

    /// Lifts the ban if it is over at `now`. Returns whether it was lifted.
    pub fn lift_expired_ban(&mut self, now: i64) -> (lifted: bool)
        ensures
            lifted == old(self).ban_over(now),
            *final(self) == if lifted {
                Person { banned: false, ban_expires: None, ..*old(self) }
            } else {
                *old(self)
            },
    {
        if self.ban_expired(now) {
            self.banned = false;
            self.ban_expires = None;
            true
        } else {
            false
        }
    }
}

/// What it takes to enter a person.
#[derive(Clone, Debug, PartialEq, Eq)]
pub struct PersonInsertForm {
    pub name: String,
    pub public_key: String,
    pub instance_id: i32,
    pub display_name: Option<String>,
    pub avatar: Option<String>,
    pub banned: Option<bool>,
    pub published: Option<i64>,
    pub updated: Option<i64>,
    pub ap_id: Option<String>,
    pub bio: Option<String>,
    pub local: Option<bool>,
    pub private_key: Option<String>,
    pub last_refreshed_at: Option<i64>,
    pub banner: Option<String>,
    pub deleted: Option<bool>,
    pub inbox_url: Option<String>,
    pub matrix_user_id: Option<String>,
    pub bot_account: Option<bool>,
    pub ban_expires: Option<i64>,
}

impl PersonInsertForm {
    /// A form with the three values that every person has, and nothing else.
    pub fn new(name: String, public_key: String, instance_id: i32) -> (form: PersonInsertForm)
        ensures
            form.name == name,
            form.public_key == public_key,
            form.instance_id == instance_id,
            form.display_name is None,
            form.avatar is None,
            form.banned is None,
            form.published is None,
            form.updated is None,
            form.ap_id is None,
            form.bio is None,
            form.local is None,
            form.private_key is None,
            form.last_refreshed_at is None,
            form.banner is None,
            form.deleted is None,
            form.inbox_url is None,
            form.matrix_user_id is None,
            form.bot_account is None,
            form.ban_expires is None,
    {
        PersonInsertForm {
            name,
            public_key,
            instance_id,
            display_name: None,
            avatar: None,
            banned: None,
            published: None,
            updated: None,
            ap_id: None,
            bio: None,
            local: None,
            private_key: None,
            last_refreshed_at: None,
            banner: None,
            deleted: None,
            inbox_url: None,
            matrix_user_id: None,
            bot_account: None,
            ban_expires: None,
        }
    }
}

/// What is to change of a person. A value that is missing stays as it is; a
/// value that may be cleared is cleared by `Some(None)`.
#[derive(Clone, Debug, PartialEq, Eq)]
pub struct PersonUpdateForm {
    pub display_name: Option<Option<String>>,
    pub avatar: Option<Option<String>>,
    pub banned: Option<bool>,
    pub updated: Option<Option<i64>>,
    pub ap_id: Option<String>,
    pub bio: Option<Option<String>>,
    pub local: Option<bool>,
    pub public_key: Option<String>,
    pub private_key: Option<Option<String>>,
    pub last_refreshed_at: Option<i64>,
    pub banner: Option<Option<String>>,
    pub deleted: Option<bool>,
    pub inbox_url: Option<String>,
    pub matrix_user_id: Option<Option<String>>,
    pub bot_account: Option<bool>,
    pub ban_expires: Option<Option<i64>>,
}

impl PersonUpdateForm {
    /// Whether the form changes nothing.
    pub open spec fn is_empty(&self) -> bool {
        &&& self.display_name is None
        &&& self.avatar is None
        &&& self.banned is None
        &&& self.updated is None
        &&& self.ap_id is None
        &&& self.bio is None
        &&& self.local is None
        &&& self.public_key is None
        &&& self.private_key is None
        &&& self.last_refreshed_at is None
        &&& self.banner is None
        &&& self.deleted is None
        &&& self.inbox_url is None
        &&& self.matrix_user_id is None
        &&& self.bot_account is None
        &&& self.ban_expires is None
    }
}

impl Default for PersonUpdateForm {
    fn default() -> (form: PersonUpdateForm)
        ensures
            form.is_empty(),
    {
        PersonUpdateForm {
            display_name: None,
            avatar: None,
            banned: None,
            updated: None,
            ap_id: None,
            bio: None,
            local: None,
            public_key: None,
            private_key: None,
            last_refreshed_at: None,
            banner: None,
            deleted: None,
            inbox_url: None,
            matrix_user_id: None,
            bot_account: None,
            ban_expires: None,
        }
    }
}

/// That one person follows another.
#[derive(Clone, Copy, Debug, PartialEq, Eq, Structural)]
pub struct PersonFollower {
    /// The person who is followed.
    pub person_id: i32,
    pub follower_id: i32,
    pub published: i64,
    /// Whether the follow still waits to be accepted.
    pub pending: bool,
}

/// What it takes to enter that one person follows another.
#[derive(Clone, Copy, Debug, PartialEq, Eq, Structural)]
pub struct PersonFollowerForm {
    /// The person who is followed.
    pub person_id: i32,
    pub follower_id: i32,
    /// Whether the follow still waits to be accepted.
    pub pending: bool,
}

/// A post or a comment that a person has saved.
#[derive(Clone, Copy, Debug, PartialEq, Eq, Structural)]
pub struct PersonSavedCombined {
    pub saved_at: i64,
    pub person_id: i32,
    pub post_id: Option<i32>,
    pub comment_id: Option<i32>,
    pub id: i32,
}

/// What it takes to enter that a person has saved a post.
#[derive(Clone, Copy, Debug, PartialEq, Eq, Structural)]
pub struct PersonSavedCombinedPostInsertForm {
    pub saved_at: i64,
    pub person_id: i32,
    pub post_id: i32,
}

/// What it takes to enter that a person has saved a comment.
#[derive(Clone, Copy, Debug, PartialEq, Eq, Structural)]
pub struct PersonSavedCombinedCommentInsertForm {
    pub saved_at: i64,
    pub person_id: i32,
    pub comment_id: i32,
}

} // verus!
