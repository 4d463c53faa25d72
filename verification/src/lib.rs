//! A client for a remote blog-post service: per-request signed tokens,
//! authorization headers, one HTTP request per command, and the decisions
//! that lead a command from its arguments to its outcome.

pub mod error;
pub mod claims;
pub mod decimal;
pub mod dispatch;
pub mod header;
pub mod post;
pub mod reply;
pub mod request;
pub mod token;

pub use dispatch::{body_read, body_written, replied, start, Command, Outcome, Step};
pub use error::{ClientError, RequestFailure};
pub use request::{add_post, delete_post, get_post_list, get_single_post, Request};
pub use token::TokenMinter;
