//! The requests of the service: one per operation, each with its method,
//! path, headers, body and expected response.

use vstd::prelude::*;
use vstd::string::*;
use warp::http::HeaderMap;

use crate::claims::{claims_for, number_claims, text_claims, Operation};
use crate::decimal::{decimal, decimal_text, lemma_decimal_text_round_trip};
use crate::error::ClientError;
use crate::header::{
    bearer_headers,
    create_auth_header,
    header_map_values,
    header_value_accepted,
    BEARER,
};
use crate::post::{add_payload, base64_standard, AddJson, AddJsonView};
use crate::token::{
    create_delete_jwt,
    create_jwt,
    hs512_token,
    token_view,
    well_drawn,
    TokenMinter,
};

verus! {

/// The fixed base endpoint of the service.
pub const TARGET_URL: &'static str = "http://localhost:1024/";

/// The HTTP method of a request.
#[derive(Debug, Clone, Copy, PartialEq, Eq, Structural)]
pub enum Method {
    Get,
    Post,
    Delete,
}

/// What the body of a successful response is expected to hold.
#[derive(Debug, Clone, Copy, PartialEq, Eq, Structural)]
pub enum ResponseShape {
    /// Nothing is required beyond a success status.
    Nothing,
    /// A sequence of posts.
    PostList,
    /// A single post with its text.
    SinglePost,
}

/// One HTTP request, ready to be sent.
#[derive(Debug, Clone)]
pub struct Request {
    pub method: Method,
    pub url: String,
    /// The headers to attach; none on calls that need no authentication.
    pub headers: Option<HeaderMap>,
    /// The JSON body, on the one call that has one.
    pub body: Option<AddJson>,
    /// What to decode the response body into.
    pub expects: ResponseShape,
    /// The number of seconds after which to give the call up, so that it
    /// cannot outlive the token it carries.
    pub deadline: Option<u64>,
}

/// The mathematical content of a [`Request`].
pub struct RequestView {
    pub method: Method,
    pub url: Seq<char>,
    pub headers: Option<Map<Seq<char>, Seq<u8>>>,
    pub body: Option<AddJsonView>,
    pub expects: ResponseShape,
    pub deadline: Option<u64>,
}

impl View for Request {
    type V = RequestView;

    open spec fn view(&self) -> RequestView {
        RequestView {
            method: self.method,
            url: self.url@,
            headers: match self.headers {
                Some(map) => Some(header_map_values(map)),
                None => None,
            },
            body: match self.body {
                Some(payload) => Some(payload@),
                None => None,
            },
            expects: self.expects,
            deadline: self.deadline,
        }
    }
}

/// The view of a request that may have failed to be built.
pub open spec fn request_view(request: Result<Request, ClientError>) -> Result<
    RequestView,
    ClientError,
> {
    match request {
        Ok(r) => Ok(r@),
        Err(e) => Err(e),
    }
}

/// The request that lists all posts.
pub open spec fn spec_list_request() -> RequestView {
    RequestView {
        method: Method::Get,
        url: TARGET_URL@ + "posts"@,
        headers: None,
        body: None,
        expects: ResponseShape::PostList,
        deadline: None,
    }
}

/// The request that fetches one post.
pub open spec fn spec_single_post_request(post_id: u16) -> RequestView {
    RequestView {
        method: Method::Get,
        url: TARGET_URL@ + "posts/"@ + decimal_text(post_id as nat),
        headers: None,
        body: None,
        expects: ResponseShape::SinglePost,
        deadline: None,
    }
}

/// The request that adds a post, authenticated by `token`; an encoding
/// error where the token cannot stand in a header.
pub open spec fn spec_add_request(payload: AddJsonView, token: Seq<char>, deadline: u64) -> Result<
    RequestView,
    ClientError,
> {
    if header_value_accepted(BEARER@ + token) {
        Ok(
            RequestView {
                method: Method::Post,
                url: TARGET_URL@ + "add"@,
                headers: Some(bearer_headers(token)),
                body: Some(payload),
                expects: ResponseShape::Nothing,
                deadline: Some(deadline),
            },
        )
    } else {
        Err(ClientError::Encoding)
    }
}

/// The request that deletes a post, authenticated by `token`; an encoding
/// error where the token cannot stand in a header.
pub open spec fn spec_delete_request(post_id: u16, token: Seq<char>, deadline: u64) -> Result<
    RequestView,
    ClientError,
> {
    if header_value_accepted(BEARER@ + token) {
        Ok(
            RequestView {
                method: Method::Delete,
                url: TARGET_URL@ + "delete/"@ + decimal_text(post_id as nat),
                headers: Some(bearer_headers(token)),
                body: None,
                expects: ResponseShape::Nothing,
                deadline: Some(deadline),
            },
        )
    } else {
        Err(ClientError::Encoding)
    }
}

/// What adding a post comes to when the clock reads `now` and the request
/// identifier drawn is `request_id`: the failure of the mint, or the add
/// request under the minted token.
pub open spec fn spec_add_post(
    minter: TokenMinter,
    title: Seq<char>,
    text: Seq<char>,
    rank: Seq<char>,
    summary: Seq<char>,
    now: int,
    request_id: Seq<char>,
) -> Result<RequestView, ClientError> {
    match minter.minted(Operation::Write, now, request_id) {
        Err(e) => Err(e),
        Ok(token) => spec_add_request(
            add_payload(title, text, rank, summary),
            token,
            minter.lifetime(),
        ),
    }
}

/// What deleting a post comes to when the clock reads `now` and the
/// request identifier drawn is `request_id`: the failure of the mint, or the
/// delete request under a token bound to the same post.
pub open spec fn spec_delete_post(
    minter: TokenMinter,
    post_id: u16,
    now: int,
    request_id: Seq<char>,
) -> Result<RequestView, ClientError> {
    match minter.minted(Operation::Delete { target_id: post_id }, now, request_id) {
        Err(e) => Err(e),
        Ok(token) => spec_delete_request(post_id, token, minter.lifetime()),
    }
}

/// The request of the list operation: `GET /posts`, unauthenticated.
pub fn get_post_list() -> (request: Request)
    ensures
        request@ == spec_list_request(),
{
    let mut url = String::from_str(TARGET_URL);
    url.append("posts");
    Request {
        method: Method::Get,
        url,
        headers: None,
        body: None,
        expects: ResponseShape::PostList,
        deadline: None,
    }
}

/// The request of the get operation: `GET /posts/{id}`, unauthenticated.
pub fn get_single_post(post_id: u16) -> (request: Request)
    ensures
        request@ == spec_single_post_request(post_id),
{
    let mut url = String::from_str(TARGET_URL);
    url.append("posts/");
    url.append(decimal(post_id).as_str());
    Request {
        method: Method::Get,
        url,
        headers: None,
        body: None,
        expects: ResponseShape::SinglePost,
        deadline: None,
    }
}

/// The add request for a payload, under a token that was already minted.
pub fn add_request(payload: AddJson, token: String, deadline: u64) -> (request: Result<
    Request,
    ClientError,
>)
    ensures
        request_view(request) == spec_add_request(payload@, token@, deadline),
{
    match create_auth_header(token) {
        Err(e) => Err(e),
        Ok(headers) => {
            let mut url = String::from_str(TARGET_URL);
            url.append("add");
            Ok(
                Request {
                    method: Method::Post,
                    url,
                    headers: Some(headers),
                    body: Some(payload),
                    expects: ResponseShape::Nothing,
                    deadline: Some(deadline),
                },
            )
        },
    }
}

/// The delete request for a post, under a token that was already minted.
pub fn delete_request(post_id: u16, token: String, deadline: u64) -> (request: Result<
    Request,
    ClientError,
>)
    ensures
        request_view(request) == spec_delete_request(post_id, token@, deadline),
{
    match create_auth_header(token) {
        Err(e) => Err(e),
        Ok(headers) => {
            let mut url = String::from_str(TARGET_URL);
            url.append("delete/");
            url.append(decimal(post_id).as_str());
            Ok(
                Request {
                    method: Method::Delete,
                    url,
                    headers: Some(headers),
                    body: None,
                    expects: ResponseShape::Nothing,
                    deadline: Some(deadline),
                },
            )
        },
    }
}

/// The request of the add operation: `POST /add` with the fields of the
/// new post, its text encoded, under a token minted for this one call. No
/// request comes out without a signing secret.
pub fn add_post(
    title: String,
    text: String,
    rank: String,
    summary: String,
    minter: &TokenMinter,
) -> (request: Result<Request, ClientError>)
    ensures
        minter.secret() is None ==> request_view(request) == Err::<RequestView, ClientError>(
            ClientError::Configuration,
        ),
        exists|now: int, request_id: Seq<char>|
            well_drawn(now, request_id) && request_view(request) == #[trigger] spec_add_post(
                *minter,
                title@,
                text@,
                rank@,
                summary@,
                now,
                request_id,
            ),
{
    let payload = AddJson::new(title, text.as_str(), rank, summary);
    let token = create_jwt(minter);
    let ghost (now, request_id) = choose|now: int, request_id: Seq<char>|
        well_drawn(now, request_id) && token_view(token) == #[trigger] minter.minted(
            Operation::Write,
            now,
            request_id,
        );
    let request = match token {
        Err(e) => Err(e),
        Ok(token) => add_request(payload, token, minter.lifetime_seconds()),
    };
    assert(request_view(request) == spec_add_post(
        *minter,
        title@,
        text@,
        rank@,
        summary@,
        now,
        request_id,
    ));
    request
}

/// The request of the delete operation: `DELETE /delete/{id}` under a
/// token minted for this one call and bound to the same post. No request
/// comes out without a signing secret.
pub fn delete_post(post_id: u16, minter: &TokenMinter) -> (request: Result<Request, ClientError>)
    ensures
        minter.secret() is None ==> request_view(request) == Err::<RequestView, ClientError>(
            ClientError::Configuration,
        ),
        exists|now: int, request_id: Seq<char>|
            well_drawn(now, request_id) && request_view(request) == #[trigger] spec_delete_post(
                *minter,
                post_id,
                now,
                request_id,
            ),
{
    let token = create_delete_jwt(minter, post_id);
    let ghost (now, request_id) = choose|now: int, request_id: Seq<char>|
        well_drawn(now, request_id) && token_view(token) == #[trigger] minter.minted(
            Operation::Delete { target_id: post_id },
            now,
            request_id,
        );
    let request = match token {
        Err(e) => Err(e),
        Ok(token) => delete_request(post_id, token, minter.lifetime_seconds()),
    };
    assert(request_view(request) == spec_delete_post(*minter, post_id, now, request_id));
    request
}

/// A delete request is bound to one post twice over: its path names the
/// post, and the token in its header is signed over claims that pass the
/// bound check of that post and of no other.
pub proof fn lemma_delete_request_is_bound(
    minter: TokenMinter,
    post_id: u16,
    now: int,
    request_id: Seq<char>,
)
    ensures
        spec_delete_post(minter, post_id, now, request_id) matches Ok(request) ==> {
            &&& minter.secret() matches Some(secret)
            &&& claims_for(
                Operation::Delete { target_id: post_id },
                now,
                minter.lifetime() as int,
                request_id,
            ) matches Some(claims)
            &&& forall|other: u16| claims.authorizes_delete(other) <==> other == post_id
            &&& hs512_token(number_claims(claims), text_claims(claims), secret) matches Some(token)
            &&& request.headers == Some(bearer_headers(token))
            &&& request.url == TARGET_URL@ + "delete/"@ + decimal_text(post_id as nat)
            &&& request.method == Method::Delete
            &&& request.body is None
            &&& request.deadline == Some(minter.lifetime())
        },
        minter.secret() is None ==> spec_delete_post(minter, post_id, now, request_id) == Err::<
            RequestView,
            ClientError,
        >(ClientError::Configuration),
{
}

/// Two texts that follow the same prefix differ when the whole differs.
proof fn lemma_same_prefix(prefix: Seq<char>, first: Seq<char>, second: Seq<char>)
    requires
        prefix + first == prefix + second,
    ensures
        first == second,
{
    assert(first =~= (prefix + first).subrange(prefix.len() as int, (prefix + first).len() as int));
    assert(second =~= (prefix + second).subrange(
        prefix.len() as int,
        (prefix + second).len() as int,
    ));
}

/// Different posts have different paths: no two delete requests, and no
/// two get requests, for different posts go to the same URL.
pub proof fn lemma_post_urls_differ(first: u16, second: u16)
    requires
        first != second,
    ensures
        TARGET_URL@ + "delete/"@ + decimal_text(first as nat) != TARGET_URL@ + "delete/"@
            + decimal_text(second as nat),
        spec_single_post_request(first).url != spec_single_post_request(second).url,
{
    lemma_decimal_text_round_trip(first as nat);
    lemma_decimal_text_round_trip(second as nat);
    let a = decimal_text(first as nat);
    let b = decimal_text(second as nat);
    if TARGET_URL@ + "delete/"@ + a == TARGET_URL@ + "delete/"@ + b {
        lemma_same_prefix(TARGET_URL@ + "delete/"@, a, b);
    }
    if TARGET_URL@ + "posts/"@ + a == TARGET_URL@ + "posts/"@ + b {
        lemma_same_prefix(TARGET_URL@ + "posts/"@, a, b);
    }
}

/// An add request carries exactly the fields it was given, the text
/// encoded, and the bearer header over a token minted for a mutating call;
/// it is given up after the token's lifetime. Without a secret there is no
/// request.
pub proof fn lemma_add_request_contents(
    minter: TokenMinter,
    title: Seq<char>,
    text: Seq<char>,
    rank: Seq<char>,
    summary: Seq<char>,
    now: int,
    request_id: Seq<char>,
)
    ensures
        spec_add_post(minter, title, text, rank, summary, now, request_id) matches Ok(request) ==> {
            &&& minter.minted(Operation::Write, now, request_id) matches Ok(token)
            &&& request.headers == Some(bearer_headers(token))
            &&& request.body == Some(
                AddJsonView { title, post_body: base64_standard(text), ranking: rank, summary },
            )
            &&& request.url == TARGET_URL@ + "add"@
            &&& request.method == Method::Post
            &&& request.deadline == Some(minter.lifetime())
        },
        minter.secret() is None ==> spec_add_post(
            minter,
            title,
            text,
            rank,
            summary,
            now,
            request_id,
        ) == Err::<RequestView, ClientError>(ClientError::Configuration),
{
}

} // verus!
