//! The answers of the service, and what each operation takes from them.

use vstd::prelude::*;

use crate::error::{ClientError, RequestFailure};
use crate::post::{lemma_row_views_reverse, newest_first, row_views, PostBody, PostRow, PostRowView};

verus! {

/// What was made of the body of a response.
#[derive(Debug, Clone, PartialEq, Eq)]
pub enum ReplyBody {
    /// The body was not looked at.
    Unread,
    /// The body did not decode into the expected shape.
    Malformed,
    /// The body held a sequence of posts, here in the server's order.
    Posts { rows: Vec<PostRow> },
    /// The body held one post with its text.
    Post { post: PostBody },
}

/// How one HTTP exchange ended.
#[derive(Debug, Clone, PartialEq, Eq)]
pub enum Reply {
    /// No response arrived.
    Unanswered,
    /// The server answered.
    Answered { status: u16, body: ReplyBody },
}

/// The status codes that report success.
pub open spec fn is_success(status: u16) -> bool {
    200 <= status < 300
}

/// What is wrong with a reply before its body is considered.
pub open spec fn spec_reply_failure(reply: Reply) -> Option<RequestFailure> {
    match reply {
        Reply::Unanswered => Some(RequestFailure::Transport),
        Reply::Answered { status, .. } => if is_success(status) {
            None
        } else {
            Some(RequestFailure::Status)
        },
    }
}

/// The outcome of a call that needs nothing but a success status.
pub open spec fn spec_confirmation(reply: Reply) -> Result<(), ClientError> {
    match spec_reply_failure(reply) {
        Some(failure) => Err(ClientError::Request(failure)),
        None => Ok(()),
    }
}

/// The outcome of the list call: the posts of the reply, the server's
/// order reversed.
pub open spec fn spec_posts_in_reply(reply: Reply) -> Result<Seq<PostRowView>, ClientError> {
    match spec_reply_failure(reply) {
        Some(failure) => Err(ClientError::Request(failure)),
        None => match reply {
            Reply::Answered { body: ReplyBody::Posts { rows }, .. } => Ok(
                row_views(rows@).reverse(),
            ),
            _ => Err(ClientError::Request(RequestFailure::Decode)),
        },
    }
}

/// The outcome of the get call: the text of the post in the reply, as it
/// came.
pub open spec fn spec_text_in_reply(reply: Reply) -> Result<Seq<char>, ClientError> {
    match spec_reply_failure(reply) {
        Some(failure) => Err(ClientError::Request(failure)),
        None => match reply {
            Reply::Answered { body: ReplyBody::Post { post }, .. } => Ok(post.bodytext@),
            _ => Err(ClientError::Request(RequestFailure::Decode)),
        },
    }
}

/// Whether a status code reports success.
pub fn status_is_success(status: u16) -> (success: bool)
    ensures
        success == is_success(status),
{
    200 <= status && status < 300
}

/// Accepts a reply to a call that needs nothing beyond a success status.
pub fn confirm_reply(reply: &Reply) -> (outcome: Result<(), ClientError>)
    ensures
        outcome == spec_confirmation(*reply),
{
    match reply {
        Reply::Unanswered => Err(ClientError::Request(RequestFailure::Transport)),
        Reply::Answered { status, .. } => {
            if status_is_success(*status) {
                Ok(())
            } else {
                Err(ClientError::Request(RequestFailure::Status))
            }
        },
    }
}

/// Takes the posts out of the reply to the list call and puts them in
/// presentation order.
pub fn posts_in_reply(reply: Reply) -> (outcome: Result<Vec<PostRow>, ClientError>)
    ensures
        match outcome {
            Ok(rows) => spec_posts_in_reply(reply) == Ok::<Seq<PostRowView>, ClientError>(
                row_views(rows@),
            ),
            Err(e) => spec_posts_in_reply(reply) == Err::<Seq<PostRowView>, ClientError>(e),
        },
        reply matches Reply::Answered { body: ReplyBody::Posts { rows }, .. } ==> (
        outcome matches Ok(ordered) ==> ordered@ == rows@.reverse()),
{
    match reply {
        Reply::Unanswered => Err(ClientError::Request(RequestFailure::Transport)),
        Reply::Answered { status, body } => {
            if !status_is_success(status) {
                Err(ClientError::Request(RequestFailure::Status))
            } else {
                match body {
                    ReplyBody::Posts { rows } => {
                        proof {
                            lemma_row_views_reverse(rows@);
                        }
                        Ok(newest_first(rows))
                    },
                    _ => Err(ClientError::Request(RequestFailure::Decode)),
                }
            }
        },
    }
}

/// Takes the text of the post out of the reply to the get call.
pub fn text_in_reply(reply: Reply) -> (outcome: Result<String, ClientError>)
    ensures
        match outcome {
            Ok(text) => spec_text_in_reply(reply) == Ok::<Seq<char>, ClientError>(text@),
            Err(e) => spec_text_in_reply(reply) == Err::<Seq<char>, ClientError>(e),
        },
{
    match reply {
        Reply::Unanswered => Err(ClientError::Request(RequestFailure::Transport)),
        Reply::Answered { status, body } => {
            if !status_is_success(status) {
                Err(ClientError::Request(RequestFailure::Status))
            } else {
                match body {
                    ReplyBody::Post { post } => Ok(post.bodytext),
                    _ => Err(ClientError::Request(RequestFailure::Decode)),
                }
            }
        },
    }
}

} // verus!
