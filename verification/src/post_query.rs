//! What a listing of posts shows: who may see a post, and which filters and
//! which order a query for posts comes down to. The database does the
//! listing; what it is asked for is decided here.

use crate::enums::{CommunityVisibility, ListingType, PostSortType};
use crate::local_state::{find_post, post_with, Community, Post};
use crate::pagination::{
    cursor_post_id, page_bound, upper_bound_for_page, PostPaginationCursor, PostView,
};
use vstd::prelude::*;

verus! {

/// The user who asks, if logged in.
#[derive(Clone, Copy, Debug, PartialEq, Eq, Structural)]
pub struct Viewer {
    pub person_id: i32,
    pub local_user_id: i32,
    pub admin: bool,
}

/// What holds of whoever asks, logged in or not: the settings of the user,
/// or what the site shows to visitors.
#[derive(Clone, Copy, Debug, PartialEq, Eq, Structural)]
pub struct ViewerPreferences {
    pub show_nsfw: bool,
    pub show_bot_accounts: bool,
    pub show_read_posts: bool,
    pub hide_media: bool,
}

/// What a user did with a post, as far as paging goes.
#[derive(Clone, Copy, Debug, PartialEq, Eq, Structural)]
pub struct PostActionsCursor {
    pub read_at: Option<i64>,
}

/// The place from which a page goes on.
#[derive(Clone, Copy, Debug, PartialEq, Eq, Structural)]
pub struct PaginationCursorData {
    pub post: Post,
    pub post_actions: PostActionsCursor,
}

/// A query for posts.
#[derive(Clone, Debug, PartialEq, Eq)]
pub struct PostQuery {
    pub listing_type: Option<ListingType>,
    pub sort: Option<PostSortType>,
    pub time_range_seconds: Option<i32>,
    pub creator_id: Option<i32>,
    pub community_id: Option<i32>,
    /// The community is given only to find a bound for the page: apart from
    /// the filter by community, the query is handled as if none were given.
    pub community_id_just_for_prefetch: bool,
    pub local_user: Option<Viewer>,
    pub search_term: Option<String>,
    pub url_only: Option<bool>,
    pub read_only: Option<bool>,
    pub liked_only: Option<bool>,
    pub disliked_only: Option<bool>,
    pub title_only: Option<bool>,
    pub page: Option<i64>,
    pub limit: Option<i64>,
    pub page_after: Option<PaginationCursorData>,
    pub page_before_or_equal: Option<Post>,
    pub page_back: Option<bool>,
    pub show_hidden: Option<bool>,
    pub show_read: Option<bool>,
    pub show_nsfw: Option<bool>,
    pub hide_media: Option<bool>,
    pub no_comments_only: Option<bool>,
}

/// Why a query is turned down.
#[derive(Clone, Copy, Debug, PartialEq, Eq, Structural)]
pub enum QueryError {
    /// Paging by page number and paging by cursor were asked for together.
    LegacyPaginationCombined,
    /// The cursor holds no id of a post.
    CouldNotParseCursor,
    /// There is no post with the id that the cursor holds.
    NotFound,
}

/// Where a search term is looked for.
#[derive(Clone, Copy, Debug, PartialEq, Eq, Structural)]
pub enum SearchFilter {
    /// There is no search term.
    Off,
    /// The address of the post is the term.
    Url,
    /// The title holds the term.
    Title,
    /// The title, the body or the alternative text holds the term, or the
    /// address is the term.
    Anywhere,
}

/// Which votes of the user are asked for.
#[derive(Clone, Copy, Debug, PartialEq, Eq, Structural)]
pub enum VoteFilter {
    Off,
    /// Posts of others that the user voted up.
    Liked,
    /// Posts of others that the user voted down.
    Disliked,
}

/// Which of the two ways of featuring a post comes first in the order.
#[derive(Clone, Copy, Debug, PartialEq, Eq, Structural)]
pub enum FeaturedKey {
    Local,
    Community,
}

/// The order of a listing.
#[derive(Clone, Copy, Debug, PartialEq, Eq, Structural)]
pub enum PostOrder {
    /// Posts that the user has read, the last read first.
    ReadTime,
    /// Featured posts first, then by the sort, then, unless the sort goes by
    /// a time anyway, the newest first, then by id.
    Sorted { featured: FeaturedKey, sort: PostSortType, then_newest: bool },
}

/// What a query for posts comes down to.
#[derive(Clone, Copy, Debug, PartialEq, Eq, Structural)]
pub struct PostListPlan {
    /// The one person who sees their own deleted and not yet published
    /// posts.
    pub own_posts_of: Option<i32>,
    /// Removed posts, and posts of removed communities, are left out.
    pub hide_removed: bool,
    pub community_id: Option<i32>,
    pub creator_id: Option<i32>,
    pub listing_type: ListingType,
    pub search: SearchFilter,
    pub hide_nsfw: bool,
    pub hide_bot_accounts: bool,
    pub no_comments_only: bool,
    pub hide_read: bool,
    pub hide_hidden: bool,
    pub hide_media: bool,
    pub votes: VoteFilter,
    /// Whether somebody is logged in; a visitor sees less communities.
    pub logged_in: bool,
    /// Posts of private communities are shown to accepted followers only.
    pub private_for_followers_only: bool,
    /// Posts in languages that the user did not pick are left out.
    pub filter_languages: bool,
    /// Posts of blocked people, communities and instances are left out.
    pub filter_blocked: bool,
    /// The user whose blocked keywords are applied.
    pub keywords_of: Option<i32>,
    /// Only posts published within so many seconds.
    pub time_range_seconds: Option<i32>,
    pub order: PostOrder,
    pub page_back: bool,
}

/// A flag that may be missing counts as not set.
pub open spec fn flag_set(flag: Option<bool>) -> bool {
    flag == Some(true)
}

/// Whether a flag is set.
pub fn is_set(flag: Option<bool>) -> (answer: bool)
    ensures
        answer == flag_set(flag),
{
    match flag {
        Some(value) => value,
        None => false,
    }
}

/// Nobody who is not logged in reads a post of a community for local users
/// who are logged in. Apart from that, a post can be read by moderators and
/// administrators in any case; by others if neither the post nor its
/// community is removed or deleted, where authors still see what is their
/// own; and if the community is private, only by followers that it has
/// accepted.
pub open spec fn readable(
    post: Post,
    community: Community,
    my_person_id: Option<i32>,
    is_mod_or_admin: bool,
    follow_accepted: bool,
) -> bool {
    community.visibility.visible_to(my_person_id is Some) && (is_mod_or_admin || {
        let own = my_person_id == Some(post.creator_id);
        &&& !community.removed || own
        &&& !post.removed || own
        &&& !community.deleted || own
        &&& !post.deleted || own
        &&& community.visibility != CommunityVisibility::Private || follow_accepted
    })
}

impl PostView {
    /// Whether the one who asks may read the post.
    pub fn read(
        &self,
        my_person_id: Option<i32>,
        is_mod_or_admin: bool,
        follow_accepted: bool,
    ) -> (answer: bool)
        ensures
            answer == readable(
                self.post,
                self.community,
                my_person_id,
                is_mod_or_admin,
                follow_accepted,
            ),
    {
        if !self.community.visibility.is_visible_to(my_person_id.is_some()) {
            return false;
        }
        if is_mod_or_admin {
            return true;
        }
        let own = match my_person_id {
            Some(id) => id == self.post.creator_id,
            None => false,
        };
        let private = match self.community.visibility {
            CommunityVisibility::Private => true,
            _ => false,
        };
        (!self.community.removed || own) && (!self.post.removed || own) && (
        !self.community.deleted || own) && (!self.post.deleted || own) && (!private
            || follow_accepted)
    }
}

impl PostQuery {
    /// A query that asks for everything in the standard way.
    pub fn new() -> (query: PostQuery)
        ensures
            query == (PostQuery {
                listing_type: None,
                sort: None,
                time_range_seconds: None,
                creator_id: None,
                community_id: None,
                community_id_just_for_prefetch: false,
                local_user: None,
                search_term: None,
                url_only: None,
                read_only: None,
                liked_only: None,
                disliked_only: None,
                title_only: None,
                page: None,
                limit: None,
                page_after: None,
                page_before_or_equal: None,
                page_back: None,
                show_hidden: None,
                show_read: None,
                show_nsfw: None,
                hide_media: None,
                no_comments_only: None,
            }),
    {
        PostQuery {
            listing_type: None,
            sort: None,
            time_range_seconds: None,
            creator_id: None,
            community_id: None,
            community_id_just_for_prefetch: false,
            local_user: None,
            search_term: None,
            url_only: None,
            read_only: None,
            liked_only: None,
            disliked_only: None,
            title_only: None,
            page: None,
            limit: None,
            page_after: None,
            page_before_or_equal: None,
            page_back: None,
            show_hidden: None,
            show_read: None,
            show_nsfw: None,
            hide_media: None,
            no_comments_only: None,
        }
    }

    /// A listing of the communities that a user follows is bounded first by
    /// a page of one of them, unless a community or a bound is given.
    pub open spec fn wants_prefetch(&self) -> bool {
        &&& self.listing_type == Some(ListingType::Subscribed)
        &&& self.community_id is None
        &&& self.local_user is Some
        &&& self.page_before_or_equal is None
    }

    /// Whether the query is bounded first by a page of one community.
    pub fn needs_prefetch(&self) -> (answer: bool)
        ensures
            answer == self.wants_prefetch(),
    {
        let subscribed = match self.listing_type {
            Some(ListingType::Subscribed) => true,
            _ => false,
        };
        subscribed && self.community_id.is_none() && self.local_user.is_some()
            && self.page_before_or_equal.is_none()
    }

    /// The query that fetches the page which bounds this one: the same
    /// query, for the largest community that the user follows alone. There
    /// is none if the user follows no community: then there are no posts to
    /// list. Paging by page number, which gives a place to start from, does
    /// not go together with a cursor.
    pub fn prefetch_query(self, offset: i64, largest_subscribed: Option<i32>) -> (result: Result<
        Option<PostQuery>,
        QueryError,
    >)
        ensures
            result == if offset != 0 && self.page_after is Some {
                Err::<Option<PostQuery>, QueryError>(QueryError::LegacyPaginationCombined)
            } else {
                match largest_subscribed {
                    None => Ok(None),
                    Some(community) => Ok(
                        Some(
                            PostQuery {
                                community_id: Some(community),
                                community_id_just_for_prefetch: true,
                                ..self
                            },
                        ),
                    ),
                }
            },
    {
        if offset != 0 && self.page_after.is_some() {
            return Err(QueryError::LegacyPaginationCombined);
        }
        match largest_subscribed {
            None => Ok(None),
            Some(community) => {
                let mut query = self;
                query.community_id = Some(community);
                query.community_id_just_for_prefetch = true;
                Ok(Some(query))
            },
        }
    }

    /// The query with the bound that the page of one community gives: its
    /// last post when going forward, its first when going back. A page that
    /// is not full gives no bound, and the query stays as it is.
    pub fn with_upper_bound(self, page: &Vec<PostView>, limit: i64) -> (query: PostQuery)
        ensures
            query == match page_bound(page@, limit, flag_set(self.page_back)) {
                Some(post) => PostQuery { page_before_or_equal: Some(post), ..self },
                None => self,
            },
    {
        match upper_bound_for_page(page, limit, is_set(self.page_back)) {
            Some(post) => {
                let mut query = self;
                query.page_before_or_equal = Some(post);
                query
            },
            None => self,
        }
    }

    /// What the query comes down to for whoever asks.
    pub open spec fn planned(&self, preferences: ViewerPreferences) -> PostListPlan {
        let listing_type = match self.listing_type {
            Some(listing) => listing,
            None => ListingType::Local,
        };
        let sort = match self.sort {
            Some(sort) => sort,
            None => PostSortType::Hot,
        };
        let admin = self.local_user matches Some(viewer) && viewer.admin;
        let moderator_view = listing_type == ListingType::ModeratorView;
        PostListPlan {
            own_posts_of: match self.local_user {
                Some(viewer) => Some(viewer.person_id),
                None => None,
            },
            hide_removed: !(self.creator_id is Some && admin),
            community_id: self.community_id,
            creator_id: self.creator_id,
            listing_type,
            search: if self.search_term is None {
                SearchFilter::Off
            } else if flag_set(self.url_only) {
                SearchFilter::Url
            } else if flag_set(self.title_only) {
                SearchFilter::Title
            } else {
                SearchFilter::Anywhere
            },
            hide_nsfw: !(match self.show_nsfw {
                Some(show) => show,
                None => preferences.show_nsfw,
            }),
            hide_bot_accounts: !preferences.show_bot_accounts,
            no_comments_only: flag_set(self.no_comments_only),
            hide_read: !(match self.show_read {
                Some(show) => show,
                None => preferences.show_read_posts,
            }) && self.creator_id is None,
            hide_hidden: !flag_set(self.show_hidden) && self.creator_id is None,
            hide_media: match self.hide_media {
                Some(value) => value,
                None => preferences.hide_media,
            },
            votes: if self.local_user is None {
                VoteFilter::Off
            } else if flag_set(self.liked_only) {
                VoteFilter::Liked
            } else if flag_set(self.disliked_only) {
                VoteFilter::Disliked
            } else {
                VoteFilter::Off
            },
            logged_in: self.local_user is Some,
            private_for_followers_only: !admin,
            filter_languages: !moderator_view && self.local_user is Some,
            filter_blocked: !moderator_view,
            keywords_of: if moderator_view {
                None
            } else {
                match self.local_user {
                    Some(viewer) => Some(viewer.local_user_id),
                    None => None,
                }
            },
            time_range_seconds: if flag_set(self.read_only) {
                None
            } else {
                self.time_range_seconds
            },
            order: if flag_set(self.read_only) {
                PostOrder::ReadTime
            } else {
                PostOrder::Sorted {
                    featured: if self.community_id is None || self.community_id_just_for_prefetch {
                        FeaturedKey::Local
                    } else {
                        FeaturedKey::Community
                    },
                    sort,
                    then_newest: !(sort == PostSortType::New || sort == PostSortType::Old || sort
                        == PostSortType::NewComments),
                }
            },
            page_back: flag_set(self.page_back),
        }
    }

    /// What the query comes down to for whoever asks.
    pub fn list(&self, preferences: ViewerPreferences) -> (plan: PostListPlan)
        ensures
            plan == self.planned(preferences),
    {
        let listing_type = match self.listing_type {
            Some(listing) => listing,
            None => ListingType::Local,
        };
        let sort = match self.sort {
            Some(sort) => sort,
            None => PostSortType::Hot,
        };
        let admin = match self.local_user {
            Some(viewer) => viewer.admin,
            None => false,
        };
        let moderator_view = match listing_type {
            ListingType::ModeratorView => true,
            _ => false,
        };
        let read_only = is_set(self.read_only);
        let then_newest = match sort {
            PostSortType::New | PostSortType::Old | PostSortType::NewComments => false,
            _ => true,
        };
        PostListPlan {
            own_posts_of: match self.local_user {
                Some(viewer) => Some(viewer.person_id),
                None => None,
            },
            hide_removed: !(self.creator_id.is_some() && admin),
            community_id: self.community_id,
            creator_id: self.creator_id,
            listing_type,
            search: if self.search_term.is_none() {
                SearchFilter::Off
            } else if is_set(self.url_only) {
                SearchFilter::Url
            } else if is_set(self.title_only) {
                SearchFilter::Title
            } else {
                SearchFilter::Anywhere
            },
            hide_nsfw: !(match self.show_nsfw {
                Some(show) => show,
                None => preferences.show_nsfw,
            }),
            hide_bot_accounts: !preferences.show_bot_accounts,
            no_comments_only: is_set(self.no_comments_only),
            hide_read: !(match self.show_read {
                Some(show) => show,
                None => preferences.show_read_posts,
            }) && self.creator_id.is_none(),
            hide_hidden: !is_set(self.show_hidden) && self.creator_id.is_none(),
            hide_media: match self.hide_media {
                Some(value) => value,
                None => preferences.hide_media,
            },
            votes: if self.local_user.is_none() {
                VoteFilter::Off
            } else if is_set(self.liked_only) {
                VoteFilter::Liked
            } else if is_set(self.disliked_only) {
                VoteFilter::Disliked
            } else {
                VoteFilter::Off
            },
            logged_in: self.local_user.is_some(),
            private_for_followers_only: !admin,
            filter_languages: !moderator_view && self.local_user.is_some(),
            filter_blocked: !moderator_view,
            keywords_of: if moderator_view {
                None
            } else {
                match self.local_user {
                    Some(viewer) => Some(viewer.local_user_id),
                    None => None,
                }
            },
            time_range_seconds: if read_only {
                None
            } else {
                self.time_range_seconds
            },
            order: if read_only {
                PostOrder::ReadTime
            } else {
                PostOrder::Sorted {
                    featured: if self.community_id.is_none()
                        || self.community_id_just_for_prefetch {
                        FeaturedKey::Local
                    } else {
                        FeaturedKey::Community
                    },
                    sort,
                    then_newest,
                }
            },
            page_back: is_set(self.page_back),
        }
    }
}

impl PostPaginationCursor {
    /// The place that the cursor stands for: the post whose id the cursor
    /// holds, with what the user did with it. A cursor that holds no id
    /// could not be parsed; an id without a post is not found.
    pub fn read(&self, posts: &Vec<Post>, post_actions: PostActionsCursor) -> (result: Result<
        PaginationCursorData,
        QueryError,
    >)
        ensures
            result == match cursor_post_id(self.0@) {
                None => Err::<PaginationCursorData, QueryError>(QueryError::CouldNotParseCursor),
                Some(id) => match post_with(posts@, id) {
                    None => Err(QueryError::NotFound),
                    Some(post) => Ok(PaginationCursorData { post, post_actions }),
                },
            },
    {
        match self.post_id() {
            None => Err(QueryError::CouldNotParseCursor),
            Some(id) => match find_post(posts, id) {
                None => Err(QueryError::NotFound),
                Some(post) => Ok(PaginationCursorData { post, post_actions }),
            },
        }
    }
}

} // verus!
