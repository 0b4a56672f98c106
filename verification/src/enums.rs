//! The enumerations that listings, searches, moderation and federation
//! settings choose from.

use vstd::prelude::*;

verus! {

/// The order in which posts are listed.
#[derive(Clone, Copy, Debug, PartialEq, Eq, Hash, Structural)]
pub enum PostSortType {
    Active,
    Hot,
    New,
    Old,
    Top,
    MostComments,
    NewComments,
    Controversial,
    Scaled,
}

impl Default for PostSortType {
    fn default() -> (value: PostSortType)
        ensures
            value == PostSortType::Active,
    {
        PostSortType::Active
    }
}

/// The order in which comments are listed.
#[derive(Clone, Copy, Debug, PartialEq, Eq, Hash, Structural)]
pub enum CommentSortType {
    Hot,
    Top,
    New,
    Old,
    Controversial,
}

impl Default for CommentSortType {
    fn default() -> (value: CommentSortType)
        ensures
            value == CommentSortType::Hot,
    {
        CommentSortType::Hot
    }
}

/// The order in which search results are listed.
#[derive(Clone, Copy, Debug, PartialEq, Eq, Hash, Structural)]
pub enum SearchSortType {
    New,
    Top,
    Old,
}

impl Default for SearchSortType {
    fn default() -> (value: SearchSortType)
        ensures
            value == SearchSortType::New,
    {
        SearchSortType::New
    }
}

/// Which communities a listing of posts or comments draws on.
#[derive(Clone, Copy, Debug, PartialEq, Eq, Hash, Structural)]
pub enum ListingType {
    /// Content from this site and from all federated sites.
    All,
    /// Content from this site only.
    Local,
    /// Content from the communities that the user has subscribed to.
    Subscribed,
    /// Content that the user can moderate.
    ModeratorView,
}

impl Default for ListingType {
    fn default() -> (value: ListingType)
        ensures
            value == ListingType::Local,
    {
        ListingType::Local
    }
}

/// What happens when somebody signs up.
#[derive(Clone, Copy, Debug, PartialEq, Eq, Hash, Structural)]
pub enum RegistrationMode {
    /// Nobody can sign up.
    Closed,
    /// A sign-up is an application that waits for approval.
    RequireApplication,
    /// Anybody can sign up.
    Open,
}

impl Default for RegistrationMode {
    fn default() -> (value: RegistrationMode)
        ensures
            value == RegistrationMode::Open,
    {
        RegistrationMode::Open
    }
}

/// How a listing of posts is laid out.
#[derive(Clone, Copy, Debug, PartialEq, Eq, Hash, Structural)]
pub enum PostListingMode {
    /// A compact list.
    List,
    /// Large cards.
    Card,
    /// Small cards, images as thumbnails.
    SmallCard,
}

impl Default for PostListingMode {
    fn default() -> (value: PostListingMode)
        ensures
            value == PostListingMode::List,
    {
        PostListingMode::List
    }
}

/// The kind of content that a search returns.
#[derive(Clone, Copy, Debug, PartialEq, Eq, Hash, Structural)]
pub enum SearchType {
    All,
    Comments,
    Posts,
    Communities,
    Users,
}

impl Default for SearchType {
    fn default() -> (value: SearchType)
        ensures
            value == SearchType::All,
    {
        SearchType::All
    }
}

/// The kinds of entries of the moderation log.
#[derive(Clone, Copy, Debug, PartialEq, Eq, Hash, Structural)]
pub enum ModlogActionType {
    All,
    ModRemovePost,
    ModLockPost,
    ModFeaturePost,
    ModRemoveComment,
    ModRemoveCommunity,
    ModBanFromCommunity,
    ModAddCommunity,
    ModTransferCommunity,
    ModAdd,
    ModBan,
    ModChangeCommunityVisibility,
    AdminPurgePerson,
    AdminPurgeCommunity,
    AdminPurgePost,
    AdminPurgeComment,
    AdminBlockInstance,
    AdminAllowInstance,
}

/// The kinds of entries of a user's inbox.
#[derive(Clone, Copy, Debug, PartialEq, Eq, Hash, Structural)]
pub enum InboxDataType {
    All,
    CommentReply,
    CommentMention,
    PostMention,
    PrivateMessage,
}

/// The kinds of content that a person has written.
#[derive(Clone, Copy, Debug, PartialEq, Eq, Hash, Structural)]
pub enum PersonContentType {
    All,
    Comments,
    Posts,
}

/// The kinds of reports.
#[derive(Clone, Copy, Debug, PartialEq, Eq, Hash, Structural)]
pub enum ReportType {
    All,
    Posts,
    Comments,
    PrivateMessages,
    Communities,
}

/// Where a post is featured.
#[derive(Clone, Copy, Debug, PartialEq, Eq, Hash, Structural)]
pub enum PostFeatureType {
    /// At the top of the site.
    Local,
    /// At the top of its community.
    Community,
}

impl Default for PostFeatureType {
    fn default() -> (value: PostFeatureType)
        ensures
            value == PostFeatureType::Local,
    {
        PostFeatureType::Local
    }
}

/// How far an action federates.
#[derive(Clone, Copy, Debug, PartialEq, Eq, Hash, Structural)]
pub enum FederationMode {
    /// With every instance.
    All,
    /// On this site only.
    Local,
    /// Not at all.
    Disable,
}

impl Default for FederationMode {
    fn default() -> (value: FederationMode)
        ensures
            value == FederationMode::All,
    {
        FederationMode::All
    }
}

/// Who can browse a community and take part in it.
#[derive(Clone, Copy, Debug, PartialEq, Eq, Hash, Structural)]
pub enum CommunityVisibility {
    /// Any local or federated user can take part.
    Public,
    /// Left out of community lists and of the local and global feeds, but
    /// for those who have subscribed.
    Unlisted,
    /// Only local users can take part, logged in or not.
    LocalOnlyPublic,
    /// Only local users who are logged in can take part.
    LocalOnlyPrivate,
    /// Users have to be approved by a moderator before they can browse or
    /// post.
    Private,
}

impl Default for CommunityVisibility {
    fn default() -> (value: CommunityVisibility)
        ensures
            value == CommunityVisibility::Public,
    {
        CommunityVisibility::Public
    }
}

impl CommunityVisibility {
    /// A community federates unless it is for local users only.
    pub open spec fn federates(self) -> bool {
        self != CommunityVisibility::LocalOnlyPublic && self != CommunityVisibility::LocalOnlyPrivate
    }

    /// A community is open to visitors who are not logged in if it is
    /// public, on every site or on this one.
    pub open spec fn open_to_visitors(self) -> bool {
        self == CommunityVisibility::Public || self == CommunityVisibility::LocalOnlyPublic
    }

    /// Whether activities of the community are sent to other instances.
    pub fn can_federate(&self) -> (answer: bool)
        ensures
            answer == self.federates(),
    {
        match self {
            CommunityVisibility::LocalOnlyPublic | CommunityVisibility::LocalOnlyPrivate => false,
            _ => true,
        }
    }

    /// A community for local users who are logged in is kept from visitors;
    /// every other community can be looked at by whoever asks, as far as its
    /// other rules allow.
    pub open spec fn visible_to(self, logged_in: bool) -> bool {
        logged_in || self != CommunityVisibility::LocalOnlyPrivate
    }

    /// Whether the community is not kept from the one who asks for being a
    /// visitor.
    pub fn is_visible_to(&self, logged_in: bool) -> (answer: bool)
        ensures
            answer == self.visible_to(logged_in),
    {
        match self {
            CommunityVisibility::LocalOnlyPrivate => logged_in,
            _ => true,
        }
    }

    /// Whether the community can be read without logging in.
    pub fn can_view_without_login(&self) -> (answer: bool)
        ensures
            answer == self.open_to_visitors(),
    {
        match self {
            CommunityVisibility::Public | CommunityVisibility::LocalOnlyPublic => true,
            _ => false,
        }
    }
}

} // verus!
