//! The bodies and parameters of the platform's requests whose handling
//! leads to a notification, and the few rules that go with them.

use vstd::prelude::*;
use crate::role::UserRole;
use crate::text::text_eq;

verus! {

/// The body of a request to post a message in a group chat. Every member
/// of the chat is notified of the message.
#[derive(Debug)]
pub struct SendGroupChatMessageRequest {
    pub content: String,
}

/// The body of an application to become a sponsor. The administrators are
/// notified of it.
#[derive(Debug)]
pub struct SponsorApplicationRequest {
    pub application_info: String,
}

/// The body of a change to a pending sponsor application. The
/// administrators are notified of it.
#[derive(Debug)]
pub struct UpdateSponsorApplicationRequest {
    pub application_info: String,
}

/// The body of a suggestion for a new support group.
#[derive(Debug)]
pub struct SuggestSupportGroupRequest {
    pub title: String,
    pub description: String,
}

/// The body of a private message to another user.
#[derive(Debug)]
pub struct SendMessageRequest {
    pub receiver_username: String,
    pub content: String,
}

/// The body of a change to a private message.
#[derive(Debug)]
pub struct EditMessageRequest {
    pub content: String,
}

/// The body of a report on a private message.
#[derive(Debug)]
pub struct ReportMessageRequest {
    pub reason: String,
}

/// What an administrator is told of an action taken.
#[derive(Debug)]
pub struct AdminActionResponse {
    pub success: bool,
    pub message: String,
}

/// The parameters of a listing of users.
#[derive(Debug)]
pub struct GetAllUsersParams {
    pub username: Option<String>,
    pub role: Option<UserRole>,
    pub limit: Option<i64>,
    pub offset: Option<i64>,
}

/// The parameters of a listing of posts.
#[derive(Debug)]
pub struct PostsListParams {
    pub page: Option<u32>,
    pub search_tags: Option<String>,
    pub sort_by: Option<String>,
}

/// The users listed at a time where no limit is asked for.
pub const DEFAULT_USER_LIMIT: i64 = 100;

/// The posts on one page.
pub const POSTS_PER_PAGE: u32 = 50;

impl GetAllUsersParams {
    /// How many users to list at most: the limit asked for, or one hundred.
    pub fn effective_limit(&self) -> (limit: i64)
        ensures
            limit == match self.limit {
                Some(l) => l,
                None => DEFAULT_USER_LIMIT,
            },
    {
        match self.limit {
            Some(l) => l,
            None => DEFAULT_USER_LIMIT,
        }
    }

    /// How many users to skip: the offset asked for, or none.
    pub fn effective_offset(&self) -> (offset: i64)
        ensures
            offset == match self.offset {
                Some(o) => o,
                None => 0,
            },
    {
        match self.offset {
            Some(o) => o,
            None => 0,
        }
    }
}

impl PostsListParams {
    /// The page asked for, or the first.
    pub open spec fn page_number(&self) -> u32 {
        match self.page {
            Some(p) => p,
            None => 1,
        }
    }

    /// Whether the posts are to be ordered by their likes: only where
    /// `most-liked` is asked for. In every other case the latest come first.
    pub open spec fn by_likes(&self) -> bool {
        match self.sort_by {
            Some(s) => s@ == "most-liked"@,
            None => false,
        }
    }

    /// How many posts come before the page asked for, where pages are
    /// counted from one and the number fits.
    pub fn offset(&self) -> (skipped: Option<u32>)
        ensures
            skipped == if 1 <= self.page_number() && (self.page_number() - 1) * POSTS_PER_PAGE
                <= u32::MAX {
                Some(((self.page_number() - 1) * POSTS_PER_PAGE) as u32)
            } else {
                None
            },
    {
        let page: u32 = match self.page {
            Some(p) => p,
            None => 1,
        };
        if page == 0 {
            None
        } else {
            (page - 1).checked_mul(POSTS_PER_PAGE)
        }
    }

    /// Whether the posts are to be ordered by their likes.
    pub fn sorts_by_likes(&self) -> (by_likes: bool)
        ensures
            by_likes == self.by_likes(),
    {
        match &self.sort_by {
            Some(s) => text_eq(s.as_str(), "most-liked"),
            None => false,
        }
    }
}

} // verus!
