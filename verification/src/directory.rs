//! The question put to the user directory, and what is made of its answer.

use crate::error::TokenError;
use crate::profile::{UserProfile, UserProfileView};
use crate::provider::{DirectoryDescriptor, DirectoryDescriptorView};
use vstd::prelude::*;

verus! {

/// A search for users in one user pool.
#[derive(Clone, Debug, PartialEq, Eq)]
pub struct DirectoryQuery {
    pub user_pool_id: String,
    /// The condition that a user must meet.
    pub filter: String,
    /// The most users to return.
    pub limit: i32,
}

/// What a [`DirectoryQuery`] holds.
pub struct DirectoryQueryView {
    pub user_pool_id: Seq<char>,
    pub filter: Seq<char>,
    pub limit: int,
}

impl View for DirectoryQuery {
    type V = DirectoryQueryView;

    open spec fn view(&self) -> DirectoryQueryView {
        DirectoryQueryView {
            user_pool_id: self.user_pool_id@,
            filter: self.filter@,
            limit: self.limit as int,
        }
    }
}

/// What the directory answered.
#[derive(Clone, Debug, PartialEq, Eq)]
pub enum DirectoryReply {
    /// The users that meet the condition, in the directory's order.
    Users(Vec<UserProfile>),
    /// The call failed.
    Failed,
}

/// What a [`DirectoryReply`] holds.
pub enum DirectoryReplyView {
    Users(Seq<UserProfileView>),
    Failed,
}

impl View for DirectoryReply {
    type V = DirectoryReplyView;

    open spec fn view(&self) -> DirectoryReplyView {
        match self {
            DirectoryReply::Users(users) => DirectoryReplyView::Users(users.deep_view()),
            DirectoryReply::Failed => DirectoryReplyView::Failed,
        }
    }
}

/// The condition that selects the user with the given subject:
/// `sub = "<subject>"`.
pub open spec fn filter_for(subject_id: Seq<char>) -> Seq<char> {
    "sub = \""@ + subject_id + "\""@
}

/// The search for the one user that a descriptor names.
pub open spec fn query_for(descriptor: DirectoryDescriptorView) -> DirectoryQueryView {
    DirectoryQueryView {
        user_pool_id: descriptor.directory_id,
        filter: filter_for(descriptor.subject_id),
        limit: 1,
    }
}

/// The user that a reply yields: the first one returned. A failed call is a
/// lookup error; a reply without users means that the user was not found.
pub open spec fn first_user_of(reply: DirectoryReplyView) -> Result<UserProfileView, TokenError> {
    match reply {
        DirectoryReplyView::Failed => Err(TokenError::DirectoryLookup),
        DirectoryReplyView::Users(users) => if users.len() == 0 {
            Err(TokenError::UserNotFound)
        } else {
            Ok(users[0])
        },
    }
}

/// The view of a result that holds a user.
pub open spec fn user_result(result: Result<UserProfile, TokenError>) -> Result<
    UserProfileView,
    TokenError,
> {
    match result {
        Ok(user) => Ok(user@),
        Err(error) => Err(error),
    }
}

/// The search for the user of `descriptor`: in its user pool, by its
/// subject, one user at most.
pub fn user_query(descriptor: &DirectoryDescriptor) -> (query: DirectoryQuery)
    ensures
        query@ == query_for(descriptor@),
{
    let mut filter = "sub = \"".to_owned();
    filter.append(descriptor.subject_id.as_str());
    filter.append("\"");
    DirectoryQuery { user_pool_id: descriptor.directory_id.clone(), filter, limit: 1 }
}

/// The user that `reply` yields.
pub fn first_user(reply: DirectoryReply) -> (user: Result<UserProfile, TokenError>)
    ensures
        user_result(user) == first_user_of(reply@),
{
    match reply {
        DirectoryReply::Failed => Err(TokenError::DirectoryLookup),
        DirectoryReply::Users(mut users) => {
            if users.len() == 0 {
                Err(TokenError::UserNotFound)
            } else {
                Ok(users.remove(0))
            }
        },
    }
}

} // verus!
