//! Which instances an activity goes to.
//!
//! An activity goes to the instances of those it is addressed to, and to
//! every instance on which somebody follows the community it comes from. It
//! does not go to an instance on the federation blocklist, nor, if the
//! community is private, to an instance without a follower whom the
//! community has accepted. This is worked out when the activity is about to
//! be sent to an instance, so that it goes by the followers of that moment.

use crate::enums::CommunityVisibility;
use crate::local_state::text_view;
use crate::supervisor::Instance;
use vstd::prelude::*;

verus! {

/// Whom an activity is for.
#[derive(Clone, Debug, PartialEq, Eq)]
pub struct SendTargets {
    /// The addressees: the URLs of actors or of their inboxes.
    pub inboxes: Vec<String>,
    /// The community whose followers get the activity as well.
    pub community_id: Option<i32>,
}

/// An activity that was made here and is to be sent out.
#[derive(Clone, Debug, PartialEq, Eq)]
pub struct SentActivity {
    /// Its place in the activity log. Later activities have higher ids.
    pub id: i64,
    pub actor_url: String,
    pub payload: String,
    pub send_targets: SendTargets,
    /// Milliseconds since the epoch.
    pub created_at: i64,
}

/// That somebody on an instance follows the community.
#[derive(Clone, Copy, Debug, PartialEq, Eq, Structural)]
pub struct CommunityFollower {
    pub instance_id: i32,
    /// Whether the community has accepted the follower.
    pub accepted: bool,
}

/// The community that an activity comes from, and who follows it right now.
#[derive(Clone, Debug, PartialEq, Eq)]
pub struct Audience {
    pub visibility: CommunityVisibility,
    pub followers: Vec<CommunityFollower>,
}

/// An instance that nothing is federated with.
#[derive(Clone, Copy, Debug, PartialEq, Eq, Structural)]
pub struct FederationBlockList {
    pub instance_id: i32,
    /// Milliseconds since the epoch, as all times here.
    pub published_at: i64,
    pub updated_at: Option<i64>,
    /// When the block ends, if it does.
    pub expires_at: Option<i64>,
}

/// What it takes to put an instance on the blocklist, or to change its entry.
#[derive(Clone, Copy, Debug, PartialEq, Eq, Structural)]
pub struct FederationBlockListForm {
    pub instance_id: i32,
    pub updated_at: Option<i64>,
    pub expires_at: Option<i64>,
}

impl FederationBlockList {
    /// A block is over once its end lies in the past.
    pub open spec fn expired_at(self, now: i64) -> bool {
        match self.expires_at {
            Some(end) => end < now,
            None => false,
        }
    }

    /// Whether the block is over at `now`.
    pub fn is_expired(&self, now: i64) -> (expired: bool)
        ensures
            expired == self.expired_at(now),
    {
        match self.expires_at {
            Some(end) => end < now,
            None => false,
        }
    }
}

/// The entries, in their order, whose block is not over at `now`.
pub open spec fn unexpired(blocklist: Seq<FederationBlockList>, now: i64) -> Seq<
    FederationBlockList,
> {
    blocklist.filter(|entry: FederationBlockList| !entry.expired_at(now))
}

/// Drops the entries whose block is over at `now`.
pub fn drop_expired(blocklist: &Vec<FederationBlockList>, now: i64) -> (kept: Vec<
    FederationBlockList,
>)
    ensures
        kept@ == unexpired(blocklist@, now),
{
    let mut kept: Vec<FederationBlockList> = Vec::new();
    let mut i: usize = 0;
    assert(blocklist@.take(0) =~= Seq::<FederationBlockList>::empty());
    while i < blocklist.len()
        invariant
            i <= blocklist.len(),
            kept@ == unexpired(blocklist@.take(i as int), now),
        decreases blocklist.len() - i,
    {
        proof {
            let keep = |entry: FederationBlockList| !entry.expired_at(now);
            assert(blocklist@.take(i + 1) =~= blocklist@.take(i as int).push(blocklist@[i as int]));
            blocklist@.take(i as int).lemma_filter_push(blocklist@[i as int], keep);
        }
        if !blocklist[i].is_expired(now) {
            kept.push(blocklist[i]);
        }
        i = i + 1;
    }
    assert(blocklist@.take(i as int) =~= blocklist@);
    kept
}

/// The domain name of the host of a URL: nothing if the text is no URL, if
/// the URL has no host, or if its host is an IP address.
pub uninterp spec fn url_domain_of(url: Seq<char>) -> Option<Seq<char>>;

/// `url::Url::parse`, then `Url::domain` on what it gave: the domain of the
/// URL's host, by the rules of the URL standard, or nothing where the text
/// does not parse as an absolute URL or its host is not a domain name.
#[verifier::external_body]
fn url_domain(url: &str) -> (domain: Option<String>)
    ensures
        text_view(domain) == url_domain_of(url@),
{
    match url::Url::parse(url) {
        Ok(parsed) => parsed.domain().map(|domain| domain.to_string()),
        Err(_) => None,
    }
}

/// The domains of the addressees, one for one.
pub open spec fn domains_of(urls: Seq<String>) -> Seq<Option<Seq<char>>> {
    Seq::new(urls.len(), |i: int| url_domain_of(urls[i]@))
}

/// The domains as the contracts see them.
pub open spec fn domain_views(domains: Seq<Option<String>>) -> Seq<Option<Seq<char>>> {
    Seq::new(domains.len(), |i: int| text_view(domains[i]))
}

/// The domain of each addressee, in the order of the addressees.
pub fn addressee_domains(urls: &Vec<String>) -> (domains: Vec<Option<String>>)
    ensures
        domain_views(domains@) == domains_of(urls@),
{
    let mut domains: Vec<Option<String>> = Vec::new();
    let mut i: usize = 0;
    while i < urls.len()
        invariant
            i <= urls.len(),
            domains@.len() == i,
            forall|j: int| 0 <= j < i ==> text_view(#[trigger] domains@[j]) == url_domain_of(urls@[j]@),
        decreases urls.len() - i,
    {
        let domain = url_domain(urls[i].as_str());
        domains.push(domain);
        i = i + 1;
    }
    assert(domain_views(domains@) =~= domains_of(urls@));
    domains
}

/// Whether somebody at the domain is addressed.
pub open spec fn addresses(domains: Seq<Option<Seq<char>>>, domain: Seq<char>) -> bool {
    exists|i: int| 0 <= i < domains.len() && #[trigger] domains[i] == Some(domain)
}

/// Whether somebody on the instance follows.
pub open spec fn follows_from(followers: Seq<CommunityFollower>, instance_id: i32) -> bool {
    exists|i: int| 0 <= i < followers.len() && (#[trigger] followers[i]).instance_id == instance_id
}

/// Whether somebody on the instance follows and has been accepted.
pub open spec fn accepted_from(followers: Seq<CommunityFollower>, instance_id: i32) -> bool {
    exists|i: int|
        0 <= i < followers.len() && (#[trigger] followers[i]).instance_id == instance_id
            && followers[i].accepted
}

/// Whether the instance is on the blocklist.
pub open spec fn blocklisted(blocklist: Seq<FederationBlockList>, instance_id: i32) -> bool {
    exists|i: int| 0 <= i < blocklist.len() && (#[trigger] blocklist[i]).instance_id == instance_id
}

/// Whether an activity goes to an instance: it is addressed to somebody
/// there, or somebody there follows its community; the instance is not on
/// the blocklist; and if the community is private, somebody there follows it
/// and has been accepted.
pub open spec fn targets(
    domains: Seq<Option<Seq<char>>>,
    audience: Option<Audience>,
    blocklist: Seq<FederationBlockList>,
    instance_id: i32,
    instance_domain: Seq<char>,
) -> bool {
    &&& addresses(domains, instance_domain) || (audience matches Some(a) && follows_from(
        a.followers@,
        instance_id,
    ))
    &&& !blocklisted(blocklist, instance_id)
    &&& audience matches Some(a) ==> (a.visibility == CommunityVisibility::Private
        ==> accepted_from(a.followers@, instance_id))
}

fn is_addressed(domains: &Vec<Option<String>>, domain: &String) -> (found: bool)
    ensures
        found == addresses(domain_views(domains@), domain@),
{
    let mut i: usize = 0;
    while i < domains.len()
        invariant
            i <= domains.len(),
            forall|j: int| 0 <= j < i ==> (#[trigger] domain_views(domains@)[j]) != Some(domain@),
        decreases domains.len() - i,
    {
        let hit = match &domains[i] {
            Some(d) => *d == *domain,
            None => false,
        };
        if hit {
            assert(domain_views(domains@)[i as int] == Some(domain@));
            return true;
        }
        assert(domain_views(domains@)[i as int] != Some(domain@));
        i = i + 1;
    }
    false
}

fn has_follower(followers: &Vec<CommunityFollower>, instance_id: i32, accepted_only: bool) -> (found:
    bool)
    ensures
        found == if accepted_only {
            accepted_from(followers@, instance_id)
        } else {
            follows_from(followers@, instance_id)
        },
{
    let mut i: usize = 0;
    while i < followers.len()
        invariant
            i <= followers.len(),
            forall|j: int|
                0 <= j < i ==> !((#[trigger] followers@[j]).instance_id == instance_id && (
                !accepted_only || followers@[j].accepted)),
        decreases followers.len() - i,
    {
        if followers[i].instance_id == instance_id && (!accepted_only || followers[i].accepted) {
            return true;
        }
        i = i + 1;
    }
    false
}

/// Whether the instance is on the blocklist.
pub fn is_blocklisted(blocklist: &Vec<FederationBlockList>, instance_id: i32) -> (found: bool)
    ensures
        found == blocklisted(blocklist@, instance_id),
{
    let mut i: usize = 0;
    while i < blocklist.len()
        invariant
            i <= blocklist.len(),
            forall|j: int| 0 <= j < i ==> (#[trigger] blocklist@[j]).instance_id != instance_id,
        decreases blocklist.len() - i,
    {
        if blocklist[i].instance_id == instance_id {
            return true;
        }
        i = i + 1;
    }
    false
}

/// Whether an activity whose addressees have these domains goes to the
/// instance.
pub fn is_target(
    domains: &Vec<Option<String>>,
    audience: &Option<Audience>,
    blocklist: &Vec<FederationBlockList>,
    destination: &Instance,
) -> (answer: bool)
    ensures
        answer == targets(
            domain_views(domains@),
            *audience,
            blocklist@,
            destination.id,
            destination.domain@,
        ),
{
    if is_blocklisted(blocklist, destination.id) {
        return false;
    }
    match audience {
        Some(a) => {
            if matches!(a.visibility, CommunityVisibility::Private) && !has_follower(
                &a.followers,
                destination.id,
                true,
            ) {
                return false;
            }
            is_addressed(domains, &destination.domain) || has_follower(
                &a.followers,
                destination.id,
                false,
            )
        },
        None => is_addressed(domains, &destination.domain),
    }
}

/// Whether the activity goes to the instance, given who follows its
/// community right now and what the blocklist holds.
pub fn resolve_target(
    activity: &SentActivity,
    audience: &Option<Audience>,
    blocklist: &Vec<FederationBlockList>,
    destination: &Instance,
) -> (answer: bool)
    ensures
        answer == targets(
            domains_of(activity.send_targets.inboxes@),
            *audience,
            blocklist@,
            destination.id,
            destination.domain@,
        ),
{
    let domains = addressee_domains(&activity.send_targets.inboxes);
    is_target(&domains, audience, blocklist, destination)
}

} // verus!
