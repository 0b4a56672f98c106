//! What a visitor is told about the site. The part that is the same for
//! everybody is put together once and served from a cache; the part about the
//! visitor is added to it for each request.

use crate::config::CachePolicy;
use vstd::prelude::*;

verus! {

/// What the site knows about a visitor who is logged in.
#[derive(Clone, Debug, PartialEq, Eq)]
pub struct MyUserInfo {
    pub person_id: i32,
    pub local_user_id: i32,
    pub admin: bool,
    pub follows: Vec<i32>,
    pub moderates: Vec<i32>,
    pub community_blocks: Vec<i32>,
    pub instance_blocks: Vec<i32>,
    pub person_blocks: Vec<i32>,
    pub discussion_languages: Vec<i32>,
}

/// What a visitor is told about the site.
#[derive(Clone, Debug, PartialEq, Eq)]
pub struct GetSiteResponse {
    pub version: String,
    pub admins: Vec<i32>,
    pub all_languages: Vec<i32>,
    pub discussion_languages: Vec<i32>,
    pub blocked_urls: Vec<String>,
    pub tagline: Option<String>,
    pub oauth_providers: Option<Vec<i32>>,
    /// The providers with their secrets, for administrators only.
    pub admin_oauth_providers: Option<Vec<i32>>,
    pub my_user: Option<MyUserInfo>,
}

/// Whether the visitor administers the site.
pub open spec fn is_admin(my_user: Option<MyUserInfo>) -> bool {
    match my_user {
        Some(user) => user.admin,
        None => false,
    }
}

/// The cache of what is the same for every visitor: one entry, which
/// expires after the time given, in milliseconds.
pub fn site_cache_policy(cache_duration_ms: u64) -> (policy: CachePolicy)
    ensures
        policy == (CachePolicy {
            max_capacity: Some(1u64),
            time_to_live_ms: Some(cache_duration_ms),
        }),
{
    CachePolicy { max_capacity: Some(1), time_to_live_ms: Some(cache_duration_ms) }
}

/// What the visitor is told: what is the same for everybody, with what the
/// site knows about the visitor, and without the providers' secrets unless
/// the visitor administers the site.
pub fn get_site(cached: GetSiteResponse, my_user: Option<MyUserInfo>) -> (response: GetSiteResponse)
    ensures
        response.my_user == my_user,
        response.admin_oauth_providers == if is_admin(my_user) {
            cached.admin_oauth_providers
        } else {
            None
        },
        response.version == cached.version,
        response.admins == cached.admins,
        response.all_languages == cached.all_languages,
        response.discussion_languages == cached.discussion_languages,
        response.blocked_urls == cached.blocked_urls,
        response.tagline == cached.tagline,
        response.oauth_providers == cached.oauth_providers,
{
    let admin = match &my_user {
        Some(user) => user.admin,
        None => false,
    };
    let mut response = cached;
    response.my_user = my_user;
    if !admin {
        response.admin_oauth_providers = None;
    }
    response
}

} // verus!
