//! Comments as they travel between instances, and the way from a comment up
//! to its post.

use crate::activity::ActivityError;
use crate::local_state::{
    comment_with, community_with, find_comment, find_community, find_post, post_with, Comment,
    Community, LocalState, LocalStateView, Post,
};
use vstd::prelude::*;

verus! {

/// The longest chain of replies that is followed.
pub const MAX_COMMENT_DEPTH_LIMIT: u32 = 50;

/// What a comment replies to.
#[derive(Clone, Copy, Debug, PartialEq, Eq, Structural)]
pub enum PostOrComment {
    Post(i32),
    Comment(i32),
}

/// A comment as it travels between instances.
#[derive(Clone, Debug, PartialEq, Eq)]
pub struct Note {
    pub id: String,
    pub attributed_to: i32,
    pub to: Vec<String>,
    pub cc: Vec<String>,
    pub content: String,
    pub in_reply_to: PostOrComment,
    pub published: Option<i64>,
    pub updated: Option<i64>,
    pub distinguished: Option<bool>,
}

/// An activity that takes something out of a collection of a community.
#[derive(Clone, Debug, PartialEq, Eq)]
pub struct CollectionRemove {
    pub actor: i32,
    pub to: Vec<String>,
    pub object: String,
    pub cc: Vec<String>,
    /// The collection.
    pub target: String,
    pub id: String,
}

/// Whether the chain of replies above a comment is longer than the limit
/// allows: the comment that it replies to lies too deep, or the chain runs
/// in a circle.
pub open spec fn too_deep(comments: Seq<Comment>, in_reply_to: PostOrComment) -> bool {
    match in_reply_to {
        PostOrComment::Post(_) => false,
        PostOrComment::Comment(id) => reply_depth(comments, id, MAX_COMMENT_DEPTH_LIMIT as nat)
            == Err::<nat, ActivityError>(ActivityError::MaxCommentDepthReached),
    }
}

/// The post that a comment belongs to and, if it replies to another
/// comment, that comment. While too many requests have been made on the way
/// here, or where the chain of replies above the comment is longer than the
/// limit allows, nothing is handed out.
pub open spec fn parents(state: LocalStateView, in_reply_to: PostOrComment, request_count: u32)
    -> Result<(Post, Option<Comment>), ActivityError> {
    if request_count > MAX_COMMENT_DEPTH_LIMIT || too_deep(state.comments, in_reply_to) {
        Err(ActivityError::MaxCommentDepthReached)
    } else {
        match in_reply_to {
            PostOrComment::Post(id) => match post_with(state.posts, id) {
                Some(post) => Ok((post, None)),
                None => Err(ActivityError::NotFound),
            },
            PostOrComment::Comment(id) => match comment_with(state.comments, id) {
                Some(comment) => match post_with(state.posts, comment.post_id) {
                    Some(post) => Ok((post, Some(comment))),
                    None => Err(ActivityError::NotFound),
                },
                None => Err(ActivityError::NotFound),
            },
        }
    }
}

/// How many comments lie between a comment and its post, looking at no more
/// than `fuel` comments.
pub open spec fn reply_depth(comments: Seq<Comment>, id: i32, fuel: nat) -> Result<
    nat,
    ActivityError,
>
    decreases fuel,
{
    if fuel == 0 {
        Err(ActivityError::MaxCommentDepthReached)
    } else {
        match comment_with(comments, id) {
            None => Err(ActivityError::NotFound),
            Some(comment) => match comment.parent_id {
                None => Ok(0),
                Some(parent) => match reply_depth(comments, parent, (fuel - 1) as nat) {
                    Ok(depth) => Ok(depth + 1),
                    Err(error) => Err(error),
                },
            },
        }
    }
}

/// The depth of a comment that lies `above` levels over another one.
pub open spec fn deeper(result: Result<nat, ActivityError>, above: nat) -> Result<
    nat,
    ActivityError,
> {
    match result {
        Ok(depth) => Ok(depth + above),
        Err(error) => Err(error),
    }
}

proof fn lemma_reply_depth_unfold(comments: Seq<Comment>, id: i32, fuel: nat)
    requires
        fuel > 0,
        comment_with(comments, id) is Some,
        comment_with(comments, id)->0.parent_id is Some,
    ensures
        reply_depth(comments, id, fuel) == deeper(
            reply_depth(
                comments,
                comment_with(comments, id)->0.parent_id->0,
                (fuel - 1) as nat,
            ),
            1,
        ),
{
}

/// How many comments lie between the comment and its post. The chain of
/// replies is followed for at most as many comments as the limit allows.
pub fn comment_depth(state: &LocalState, comment_id: i32) -> (result: Result<u32, ActivityError>)
    ensures
        match reply_depth(state@.comments, comment_id, MAX_COMMENT_DEPTH_LIMIT as nat) {
            Ok(depth) => result == Ok::<u32, ActivityError>(depth as u32)
                && depth < MAX_COMMENT_DEPTH_LIMIT,
            Err(error) => result == Err::<u32, ActivityError>(error),
        },
{
    let mut current: i32 = comment_id;
    let mut steps: u32 = 0;
    while steps < MAX_COMMENT_DEPTH_LIMIT
        invariant
            steps <= MAX_COMMENT_DEPTH_LIMIT,
            reply_depth(state@.comments, comment_id, MAX_COMMENT_DEPTH_LIMIT as nat) == deeper(
                reply_depth(
                    state@.comments,
                    current,
                    (MAX_COMMENT_DEPTH_LIMIT - steps) as nat,
                ),
                steps as nat,
            ),
        decreases MAX_COMMENT_DEPTH_LIMIT - steps,
    {
        match find_comment(&state.comments, current) {
            None => {
                return Err(ActivityError::NotFound);
            },
            Some(comment) => match comment.parent_id {
                None => {
                    return Ok(steps);
                },
                Some(parent) => {
                    proof {
                        lemma_reply_depth_unfold(
                            state@.comments,
                            current,
                            (MAX_COMMENT_DEPTH_LIMIT - steps) as nat,
                        );
                    }
                    current = parent;
                    steps = steps + 1;
                },
            },
        }
    }
    Err(ActivityError::MaxCommentDepthReached)
}

impl Note {
    /// The post that the comment belongs to and, if it replies to another
    /// comment, that comment. The chain of replies above the comment is
    /// followed no further than the limit allows; a longer chain is an
    /// error, and so are too many requests on the way here.
    pub fn get_parents(&self, state: &LocalState, request_count: u32) -> (result: Result<
        (Post, Option<Comment>),
        ActivityError,
    >)
        ensures
            result == parents(state@, self.in_reply_to, request_count),
    {
        if request_count > MAX_COMMENT_DEPTH_LIMIT {
            return Err(ActivityError::MaxCommentDepthReached);
        }
        match self.in_reply_to {
            PostOrComment::Post(id) => match find_post(&state.posts, id) {
                Some(post) => Ok((post, None)),
                None => Err(ActivityError::NotFound),
            },
            PostOrComment::Comment(id) => {
                match comment_depth(state, id) {
                    Err(ActivityError::MaxCommentDepthReached) => {
                        return Err(ActivityError::MaxCommentDepthReached);
                    },
                    _ => {},
                }
                match find_comment(&state.comments, id) {
                    Some(comment) => match find_post(&state.posts, comment.post_id) {
                        Some(post) => Ok((post, Some(comment))),
                        None => Err(ActivityError::NotFound),
                    },
                    None => Err(ActivityError::NotFound),
                }
            },
        }
    }

    /// The community of the post that the comment belongs to.
    pub fn community(&self, state: &LocalState, request_count: u32) -> (result: Result<
        Community,
        ActivityError,
    >)
        ensures
            result == match parents(state@, self.in_reply_to, request_count) {
                Ok((post, _)) => match community_with(state@.communities, post.community_id) {
                    Some(community) => Ok::<Community, ActivityError>(community),
                    None => Err(ActivityError::NotFound),
                },
                Err(error) => Err(error),
            },
    {
        match self.get_parents(state, request_count) {
            Ok((post, _)) => match find_community(&state.communities, post.community_id) {
                Some(community) => Ok(community),
                None => Err(ActivityError::NotFound),
            },
            Err(error) => Err(error),
        }
    }
}

} // verus!
