//! The actors that activities are sent for: what a lookup by id gives, and
//! what is kept of it.

use vstd::prelude::*;

verus! {

/// The kinds of actor.
#[derive(Clone, Copy, Debug, PartialEq, Eq, Hash, Structural)]
pub enum ActorType {
    Site,
    Community,
    Person,
    MultiCommunity,
}

/// What delivery reads of an actor.
#[derive(Clone, Debug, PartialEq, Eq)]
pub struct ApubActor {
    pub id: i32,
    pub ap_id: String,
    pub inbox_url: String,
    pub public_key: String,
    pub private_key: Option<String>,
    pub instance_id: i32,
}

/// An actor of one of the four kinds.
#[derive(Clone, Debug, PartialEq, Eq)]
pub enum SiteOrMultiOrCommunityOrUser {
    Site(ApubActor),
    MultiCommunity(ApubActor),
    Community(ApubActor),
    Person(ApubActor),
}

/// No actor of the kind has the id that was looked up.
#[derive(Clone, Copy, Debug, PartialEq, Eq, Structural)]
pub enum ActorLookupError {
    SiteNotFound,
    CommunityNotFound,
    PersonNotFound,
    MultiCommunityNotFound,
}

impl ActorLookupError {
    /// The error for a kind of actor.
    pub open spec fn for_type(actor_type: ActorType) -> ActorLookupError {
        match actor_type {
            ActorType::Site => ActorLookupError::SiteNotFound,
            ActorType::Community => ActorLookupError::CommunityNotFound,
            ActorType::Person => ActorLookupError::PersonNotFound,
            ActorType::MultiCommunity => ActorLookupError::MultiCommunityNotFound,
        }
    }

    /// The kind of actor that was not found.
    pub fn actor_type(&self) -> (actor_type: ActorType)
        ensures
            ActorLookupError::for_type(actor_type) == *self,
    {
        match self {
            ActorLookupError::SiteNotFound => ActorType::Site,
            ActorLookupError::CommunityNotFound => ActorType::Community,
            ActorLookupError::PersonNotFound => ActorType::Person,
            ActorLookupError::MultiCommunityNotFound => ActorType::MultiCommunity,
        }
    }

    /// The error in words.
    pub fn message(&self) -> (text: &'static str)
        ensures
            text@ == match self {
                ActorLookupError::SiteNotFound => "apub site not found"@,
                ActorLookupError::CommunityNotFound => "apub community not found"@,
                ActorLookupError::PersonNotFound => "apub person not found"@,
                ActorLookupError::MultiCommunityNotFound => "apub multi-comm not found"@,
            },
    {
        match self {
            ActorLookupError::SiteNotFound => "apub site not found",
            ActorLookupError::CommunityNotFound => "apub community not found",
            ActorLookupError::PersonNotFound => "apub person not found",
            ActorLookupError::MultiCommunityNotFound => "apub multi-comm not found",
        }
    }
}

impl SiteOrMultiOrCommunityOrUser {
    /// An actor of the given kind.
    pub open spec fn of_type(actor_type: ActorType, actor: ApubActor)
        -> SiteOrMultiOrCommunityOrUser {
        match actor_type {
            ActorType::Site => SiteOrMultiOrCommunityOrUser::Site(actor),
            ActorType::Community => SiteOrMultiOrCommunityOrUser::Community(actor),
            ActorType::Person => SiteOrMultiOrCommunityOrUser::Person(actor),
            ActorType::MultiCommunity => SiteOrMultiOrCommunityOrUser::MultiCommunity(actor),
        }
    }

    /// The kind of the actor.
    pub fn actor_type(&self) -> (actor_type: ActorType)
        ensures
            actor_type == match self {
                SiteOrMultiOrCommunityOrUser::Site(_) => ActorType::Site,
                SiteOrMultiOrCommunityOrUser::MultiCommunity(_) => ActorType::MultiCommunity,
                SiteOrMultiOrCommunityOrUser::Community(_) => ActorType::Community,
                SiteOrMultiOrCommunityOrUser::Person(_) => ActorType::Person,
            },
    {
        match self {
            SiteOrMultiOrCommunityOrUser::Site(_) => ActorType::Site,
            SiteOrMultiOrCommunityOrUser::MultiCommunity(_) => ActorType::MultiCommunity,
            SiteOrMultiOrCommunityOrUser::Community(_) => ActorType::Community,
            SiteOrMultiOrCommunityOrUser::Person(_) => ActorType::Person,
        }
    }

    /// What the actor holds, whatever its kind.
    pub fn actor(&self) -> (actor: &ApubActor)
        ensures
            *self == SiteOrMultiOrCommunityOrUser::of_type(self.actor_type_spec(), *actor),
    {
        match self {
            SiteOrMultiOrCommunityOrUser::Site(actor) => actor,
            SiteOrMultiOrCommunityOrUser::MultiCommunity(actor) => actor,
            SiteOrMultiOrCommunityOrUser::Community(actor) => actor,
            SiteOrMultiOrCommunityOrUser::Person(actor) => actor,
        }
    }

    /// The kind of the actor.
    pub open spec fn actor_type_spec(&self) -> ActorType {
        match self {
            SiteOrMultiOrCommunityOrUser::Site(_) => ActorType::Site,
            SiteOrMultiOrCommunityOrUser::MultiCommunity(_) => ActorType::MultiCommunity,
            SiteOrMultiOrCommunityOrUser::Community(_) => ActorType::Community,
            SiteOrMultiOrCommunityOrUser::Person(_) => ActorType::Person,
        }
    }
}

/// What goes into the actor cache after a lookup of an actor of the given
/// kind: the actor, under its kind, if the lookup found one. A lookup that
/// found none is an error, which is not kept, so that the next request looks
/// again.
pub fn actor_from_lookup(actor_type: ActorType, found: Option<ApubActor>) -> (result: Result<
    SiteOrMultiOrCommunityOrUser,
    ActorLookupError,
>)
    ensures
        result == match found {
            Some(actor) => Ok::<SiteOrMultiOrCommunityOrUser, ActorLookupError>(
                SiteOrMultiOrCommunityOrUser::of_type(actor_type, actor),
            ),
            None => Err(ActorLookupError::for_type(actor_type)),
        },
{
    match found {
        Some(actor) => Ok(
            match actor_type {
                ActorType::Site => SiteOrMultiOrCommunityOrUser::Site(actor),
                ActorType::Community => SiteOrMultiOrCommunityOrUser::Community(actor),
                ActorType::Person => SiteOrMultiOrCommunityOrUser::Person(actor),
                ActorType::MultiCommunity => SiteOrMultiOrCommunityOrUser::MultiCommunity(actor),
            },
        ),
        None => Err(
            match actor_type {
                ActorType::Site => ActorLookupError::SiteNotFound,
                ActorType::Community => ActorLookupError::CommunityNotFound,
                ActorType::Person => ActorLookupError::PersonNotFound,
                ActorType::MultiCommunity => ActorLookupError::MultiCommunityNotFound,
            },
        ),
    }
}

} // verus!
