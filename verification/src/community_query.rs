//! What a listing of communities shows: which filters and which order a
//! query for communities comes down to.

use crate::enums::{CommunityVisibility, ListingType};
use crate::local_state::{community_with, find_community, Community};
use crate::post_query::{flag_set, is_set, QueryError, Viewer};
use vstd::prelude::*;

verus! {

/// The order in which communities are listed.
#[derive(Clone, Copy, Debug, PartialEq, Eq, Hash, Structural)]
pub enum CommunitySortType {
    Hot,
    Comments,
    Posts,
    New,
    Old,
    Subscribers,
    SubscribersLocal,
    ActiveSixMonths,
    ActiveMonthly,
    ActiveWeekly,
    ActiveDaily,
    NameAsc,
    NameDesc,
}

/// What the communities are ordered by, before their id breaks ties.
#[derive(Clone, Copy, Debug, PartialEq, Eq, Structural)]
pub enum CommunitySortKey {
    HotRank,
    Comments,
    Posts,
    PublishedAt,
    Subscribers,
    SubscribersLocal,
    UsersActiveHalfYear,
    UsersActiveMonth,
    UsersActiveWeek,
    UsersActiveDay,
    /// The name, in lower case.
    LowerName,
}

impl CommunitySortType {
    /// What the sort orders by.
    pub open spec fn key_spec(self) -> CommunitySortKey {
        match self {
            CommunitySortType::Hot => CommunitySortKey::HotRank,
            CommunitySortType::Comments => CommunitySortKey::Comments,
            CommunitySortType::Posts => CommunitySortKey::Posts,
            CommunitySortType::New | CommunitySortType::Old => CommunitySortKey::PublishedAt,
            CommunitySortType::Subscribers => CommunitySortKey::Subscribers,
            CommunitySortType::SubscribersLocal => CommunitySortKey::SubscribersLocal,
            CommunitySortType::ActiveSixMonths => CommunitySortKey::UsersActiveHalfYear,
            CommunitySortType::ActiveMonthly => CommunitySortKey::UsersActiveMonth,
            CommunitySortType::ActiveWeekly => CommunitySortKey::UsersActiveWeek,
            CommunitySortType::ActiveDaily => CommunitySortKey::UsersActiveDay,
            CommunitySortType::NameAsc | CommunitySortType::NameDesc => CommunitySortKey::LowerName,
        }
    }

    /// Only the oldest first and the names from A to Z go upwards.
    pub open spec fn ascends(self) -> bool {
        self == CommunitySortType::Old || self == CommunitySortType::NameAsc
    }

    /// What the sort orders by.
    pub fn key(&self) -> (key: CommunitySortKey)
        ensures
            key == self.key_spec(),
    {
        match self {
            CommunitySortType::Hot => CommunitySortKey::HotRank,
            CommunitySortType::Comments => CommunitySortKey::Comments,
            CommunitySortType::Posts => CommunitySortKey::Posts,
            CommunitySortType::New | CommunitySortType::Old => CommunitySortKey::PublishedAt,
            CommunitySortType::Subscribers => CommunitySortKey::Subscribers,
            CommunitySortType::SubscribersLocal => CommunitySortKey::SubscribersLocal,
            CommunitySortType::ActiveSixMonths => CommunitySortKey::UsersActiveHalfYear,
            CommunitySortType::ActiveMonthly => CommunitySortKey::UsersActiveMonth,
            CommunitySortType::ActiveWeekly => CommunitySortKey::UsersActiveWeek,
            CommunitySortType::ActiveDaily => CommunitySortKey::UsersActiveDay,
            CommunitySortType::NameAsc | CommunitySortType::NameDesc => CommunitySortKey::LowerName,
        }
    }

    /// Whether the sort goes upwards.
    pub fn is_ascending(&self) -> (answer: bool)
        ensures
            answer == self.ascends(),
    {
        match self {
            CommunitySortType::Old | CommunitySortType::NameAsc => true,
            _ => false,
        }
    }
}

/// A query for communities.
#[derive(Clone, Copy, Debug, PartialEq, Eq, Structural)]
pub struct CommunityQuery {
    pub listing_type: Option<ListingType>,
    pub sort: Option<CommunitySortType>,
    pub time_range_seconds: Option<i32>,
    pub local_user: Option<Viewer>,
    pub show_nsfw: Option<bool>,
    pub multi_community_id: Option<i32>,
    /// The community from which the page goes on.
    pub cursor_data: Option<i32>,
    pub page_back: Option<bool>,
    pub limit: Option<i64>,
}

/// What a query for communities comes down to.
#[derive(Clone, Copy, Debug, PartialEq, Eq, Structural)]
pub struct CommunityListPlan {
    /// Removed and deleted communities are left out, and unlisted ones too
    /// unless the user follows them.
    pub hide_removed_and_deleted: bool,
    pub listing_type: Option<ListingType>,
    pub hide_nsfw: bool,
    /// Whether somebody is logged in; a visitor sees less communities.
    pub logged_in: bool,
    pub multi_community_id: Option<i32>,
    pub time_range_seconds: Option<i32>,
    pub sort_key: CommunitySortKey,
    pub ascending: bool,
    pub cursor_data: Option<i32>,
    pub page_back: bool,
}

impl CommunityQuery {
    /// What the query comes down to. `sort` is the order where the query
    /// names none, `viewer_shows_nsfw` what holds of whoever asks.
    pub open spec fn planned(self, sort: CommunitySortType, viewer_shows_nsfw: bool)
        -> CommunityListPlan {
        let sort = match self.sort {
            Some(chosen) => chosen,
            None => sort,
        };
        CommunityListPlan {
            hide_removed_and_deleted: !(self.local_user matches Some(viewer) && viewer.admin),
            listing_type: self.listing_type,
            hide_nsfw: !(viewer_shows_nsfw || flag_set(self.show_nsfw)),
            logged_in: self.local_user is Some,
            multi_community_id: self.multi_community_id,
            time_range_seconds: self.time_range_seconds,
            sort_key: sort.key_spec(),
            ascending: sort.ascends(),
            cursor_data: self.cursor_data,
            page_back: flag_set(self.page_back),
        }
    }

    /// What the query comes down to.
    pub fn list(&self, sort: CommunitySortType, viewer_shows_nsfw: bool) -> (plan:
        CommunityListPlan)
        ensures
            plan == self.planned(sort, viewer_shows_nsfw),
    {
        let sort = match self.sort {
            Some(chosen) => chosen,
            None => sort,
        };
        let admin = match self.local_user {
            Some(viewer) => viewer.admin,
            None => false,
        };
        CommunityListPlan {
            hide_removed_and_deleted: !admin,
            listing_type: self.listing_type,
            hide_nsfw: !(viewer_shows_nsfw || is_set(self.show_nsfw)),
            logged_in: self.local_user.is_some(),
            multi_community_id: self.multi_community_id,
            time_range_seconds: self.time_range_seconds,
            sort_key: sort.key(),
            ascending: sort.is_ascending(),
            cursor_data: self.cursor_data,
            page_back: is_set(self.page_back),
        }
    }
}

/// A community as it is shown to one who asks.
#[derive(Clone, Copy, Debug, PartialEq, Eq, Structural)]
pub struct CommunityView {
    pub community: Community,
    /// Whether the one who asks follows the community.
    pub subscribed: bool,
}

/// Nobody who is not logged in is shown a community for local users who
/// are logged in. Apart from that, a community is shown to moderators and
/// administrators in any case; to others if it is neither removed nor
/// deleted, and, if it is unlisted, only to those who follow it.
pub open spec fn shown(
    community: Community,
    subscribed: bool,
    is_mod_or_admin: bool,
    logged_in: bool,
) -> bool {
    community.visibility.visible_to(logged_in) && (is_mod_or_admin || (!community.removed
        && !community.deleted && (community.visibility != CommunityVisibility::Unlisted
        || subscribed)))
}

impl CommunityView {
    /// The community with the id as it is shown to the one who asks. A
    /// community that is not there, or is not shown, is not found.
    pub fn read(
        communities: &Vec<Community>,
        community_id: i32,
        subscribed: bool,
        is_mod_or_admin: bool,
        logged_in: bool,
    ) -> (result: Result<CommunityView, QueryError>)
        ensures
            result == match community_with(communities@, community_id) {
                Some(community) => if shown(
                    community,
                    subscribed,
                    is_mod_or_admin,
                    logged_in,
                ) {
                    Ok::<CommunityView, QueryError>(CommunityView { community, subscribed })
                } else {
                    Err(QueryError::NotFound)
                },
                None => Err(QueryError::NotFound),
            },
    {
        match find_community(communities, community_id) {
            None => Err(QueryError::NotFound),
            Some(community) => {
                let unlisted = match community.visibility {
                    CommunityVisibility::Unlisted => true,
                    _ => false,
                };
                if community.visibility.is_visible_to(logged_in) && (is_mod_or_admin || (
                !community.removed
                    && !community.deleted && (!unlisted || subscribed))) {
                    Ok(CommunityView { community, subscribed })
                } else {
                    Err(QueryError::NotFound)
                }
            },
        }
    }
}

/// A group of communities that somebody has put together.
#[derive(Clone, Copy, Debug, PartialEq, Eq, Structural)]
pub struct MultiCommunity {
    pub id: i32,
    pub creator_id: i32,
}

/// That a person follows a group of communities.
#[derive(Clone, Copy, Debug, PartialEq, Eq, Structural)]
pub struct MultiCommunityFollow {
    pub multi_community_id: i32,
    pub person_id: i32,
}

/// A group of communities with its owner.
#[derive(Clone, Copy, Debug, PartialEq, Eq, Structural)]
pub struct MultiCommunityView {
    pub multi: MultiCommunity,
    pub owner_id: i32,
}

/// The first group with the id.
pub open spec fn multi_with(multis: Seq<MultiCommunity>, id: i32) -> Option<MultiCommunity>
    decreases multis.len(),
{
    if multis.len() == 0 {
        None
    } else if multis[0].id == id {
        Some(multis[0])
    } else {
        multi_with(multis.drop_first(), id)
    }
}

/// How many follows of the group there are, and how many of them are by the
/// person, if one is asked for.
pub open spec fn follows_counted(
    follows: Seq<MultiCommunityFollow>,
    multi_id: i32,
    followed_by: Option<i32>,
) -> (nat, nat)
    decreases follows.len(),
{
    if follows.len() == 0 {
        (0, 0)
    } else {
        let before = follows_counted(follows.drop_last(), multi_id, followed_by);
        let last = follows.last();
        if last.multi_community_id != multi_id {
            before
        } else if followed_by is None || followed_by == Some(last.person_id) {
            ((before.0 + 1) as nat, (before.1 + 1) as nat)
        } else {
            ((before.0 + 1) as nat, before.1)
        }
    }
}

/// How often a group is listed: once for each of its follows that is asked
/// for; once if it has no follows and no follower is asked for; and not at
/// all if an owner is asked for who is not its own.
pub open spec fn times_listed(
    multi: MultiCommunity,
    follows: Seq<MultiCommunityFollow>,
    owner_id: Option<i32>,
    followed_by: Option<i32>,
) -> nat {
    let counted = follows_counted(follows, multi.id, followed_by);
    if owner_id is Some && owner_id != Some(multi.creator_id) {
        0
    } else if counted.0 == 0 {
        if followed_by is None {
            1
        } else {
            0
        }
    } else {
        counted.1
    }
}

/// The same entry, so many times.
pub open spec fn repeated(view: MultiCommunityView, times: nat) -> Seq<MultiCommunityView> {
    Seq::new(times, |i: int| view)
}

/// The listing of the groups: each group as often as it is listed, in the
/// order of the groups.
pub open spec fn multis_listed(
    multis: Seq<MultiCommunity>,
    follows: Seq<MultiCommunityFollow>,
    owner_id: Option<i32>,
    followed_by: Option<i32>,
) -> Seq<MultiCommunityView>
    decreases multis.len(),
{
    if multis.len() == 0 {
        Seq::empty()
    } else {
        let last = multis.last();
        multis_listed(multis.drop_last(), follows, owner_id, followed_by) + repeated(
            MultiCommunityView { multi: last, owner_id: last.creator_id },
            times_listed(last, follows, owner_id, followed_by),
        )
    }
}

fn count_follows(follows: &Vec<MultiCommunityFollow>, multi_id: i32, followed_by: Option<i32>) -> (counted:
    (usize, usize))
    ensures
        counted.0 == follows_counted(follows@, multi_id, followed_by).0,
        counted.1 == follows_counted(follows@, multi_id, followed_by).1,
{
    let mut all: usize = 0;
    let mut wanted: usize = 0;
    let mut i: usize = 0;
    assert(follows@.take(0) =~= Seq::<MultiCommunityFollow>::empty());
    while i < follows.len()
        invariant
            i <= follows.len(),
            wanted <= all <= i,
            all == follows_counted(follows@.take(i as int), multi_id, followed_by).0,
            wanted == follows_counted(follows@.take(i as int), multi_id, followed_by).1,
        decreases follows.len() - i,
    {
        assert(follows@.take(i + 1).drop_last() =~= follows@.take(i as int));
        assert(follows@.take(i + 1).last() == follows@[i as int]);
        if follows[i].multi_community_id == multi_id {
            all = all + 1;
            let asked_for = match followed_by {
                None => true,
                Some(person) => person == follows[i].person_id,
            };
            if asked_for {
                wanted = wanted + 1;
            }
        }
        i = i + 1;
    }
    assert(follows@.take(i as int) =~= follows@);
    (all, wanted)
}

impl MultiCommunityView {
    /// The group with the id, with its owner.
    pub fn read(multis: &Vec<MultiCommunity>, id: i32) -> (result: Result<
        MultiCommunityView,
        QueryError,
    >)
        ensures
            result == match multi_with(multis@, id) {
                Some(multi) => Ok::<MultiCommunityView, QueryError>(
                    MultiCommunityView { multi, owner_id: multi.creator_id },
                ),
                None => Err(QueryError::NotFound),
            },
    {
        let mut i: usize = 0;
        assert(multis@.skip(0) =~= multis@);
        while i < multis.len()
            invariant
                i <= multis.len(),
                multi_with(multis@, id) == multi_with(multis@.skip(i as int), id),
            decreases multis.len() - i,
        {
            assert(multis@.skip(i as int).drop_first() =~= multis@.skip(i + 1));
            if multis[i].id == id {
                return Ok(MultiCommunityView { multi: multis[i], owner_id: multis[i].creator_id });
            }
            i = i + 1;
        }
        Err(QueryError::NotFound)
    }

    /// The groups, joined with their follows: all of them, or those of one
    /// owner, or those that one person follows, or both.
    pub fn list(
        multis: &Vec<MultiCommunity>,
        follows: &Vec<MultiCommunityFollow>,
        owner_id: Option<i32>,
        followed_by: Option<i32>,
    ) -> (listed: Vec<MultiCommunityView>)
        ensures
            listed@ == multis_listed(multis@, follows@, owner_id, followed_by),
    {
        let mut listed: Vec<MultiCommunityView> = Vec::new();
        let mut i: usize = 0;
        assert(multis@.take(0) =~= Seq::<MultiCommunity>::empty());
        while i < multis.len()
            invariant
                i <= multis.len(),
                listed@ == multis_listed(multis@.take(i as int), follows@, owner_id, followed_by),
            decreases multis.len() - i,
        {
            let multi = multis[i];
            let view = MultiCommunityView { multi, owner_id: multi.creator_id };
            let counted = count_follows(follows, multi.id, followed_by);
            let owned = match owner_id {
                Some(owner) => owner == multi.creator_id,
                None => true,
            };
            let times: usize = if !owned {
                0
            } else if counted.0 == 0 {
                if followed_by.is_none() {
                    1
                } else {
                    0
                }
            } else {
                counted.1
            };
            assert(times == times_listed(multi, follows@, owner_id, followed_by));
            let ghost before = listed@;
            let mut done: usize = 0;
            while done < times
                invariant
                    done <= times,
                    listed@ == before + repeated(view, done as nat),
                decreases times - done,
            {
                listed.push(view);
                done = done + 1;
                assert(listed@ =~= before + repeated(view, done as nat));
            }
            assert(multis@.take(i + 1).drop_last() =~= multis@.take(i as int));
            assert(multis@.take(i + 1).last() == multi);
            i = i + 1;
        }
        assert(multis@.take(i as int) =~= multis@);
        listed
    }
}

} // verus!
