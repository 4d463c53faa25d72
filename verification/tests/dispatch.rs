use blog_client::dispatch::{
    body_read, body_written, exit_code, replied, start, AddDraft, Command, Outcome, Pending, Step,
};
use blog_client::error::{ClientError, RequestFailure};
use blog_client::post::{PostBody, PostRow};
use blog_client::reply::{Reply, ReplyBody};
use blog_client::request::{Method, ResponseShape};
use blog_client::token::TokenMinter;

const SECRET: &str = "top-secret";

fn minter() -> TokenMinter {
    TokenMinter::new(Some(String::from(SECRET)))
}

fn keyless() -> TokenMinter {
    TokenMinter::new(None)
}

fn row(id: u16) -> PostRow {
    PostRow {
        post_id: id,
        create_date: String::from("2024-01-01"),
        title: format!("post {}", id),
        summary: String::from("summary"),
        ranking: String::from("1"),
    }
}

fn post(text: &str) -> PostBody {
    PostBody {
        post_id: 7,
        create_date: String::from("2024-01-01"),
        title: String::from("title"),
        summary: String::from("summary"),
        ranking: String::from("1"),
        bodytext: String::from(text),
    }
}

fn ok(body: ReplyBody) -> Reply {
    Reply::Answered { status: 200, body }
}

fn add_command() -> Command {
    Command::Add {
        title: String::from("T"),
        file_path: String::from("body.txt"),
        rank: String::from("1"),
        summary: String::from("S"),
    }
}

fn failure_of(step: &Step) -> Option<ClientError> {
    match step {
        Step::Failed { error } => Some(*error),
        _ => None,
    }
}

fn token_claims(headers: &warp::http::HeaderMap) -> serde_json::Value {
    let value = headers.get("authorization").unwrap().to_str().unwrap();
    let token = value.strip_prefix("Bearer ").unwrap();
    let mut validation = jsonwebtoken::Validation::new(jsonwebtoken::Algorithm::HS512);
    validation.required_spec_claims.clear();
    let key = jsonwebtoken::DecodingKey::from_secret(SECRET.as_bytes());
    jsonwebtoken::decode::<serde_json::Value>(token, &key, &validation).unwrap().claims
}

#[test]
fn list_sends_one_request_and_shows_the_posts_reversed() {
    let (request, pending) = match start(Command::List, &minter()) {
        Step::Send { request, pending } => (request, pending),
        other => panic!("unexpected step {:?}", other),
    };
    assert_eq!(request.method, Method::Get);
    assert_eq!(request.url, "http://localhost:1024/posts");
    assert_eq!(request.expects, ResponseShape::PostList);
    assert!(request.headers.is_none());
    assert_eq!(pending, Pending::Listing);
    let step = replied(pending, ok(ReplyBody::Posts { rows: vec![row(1), row(2), row(3)] }));
    match step {
        Step::Done { outcome } => {
            assert_eq!(outcome, Outcome::Listed { rows: vec![row(3), row(2), row(1)] })
        }
        other => panic!("unexpected step {:?}", other),
    }
}

#[test]
fn list_needs_no_secret() {
    assert!(matches!(start(Command::List, &keyless()), Step::Send { .. }));
}

#[test]
fn get_writes_the_text_to_the_named_file() {
    let command = Command::Get { id: 7, file_name: String::from("out.txt") };
    let (request, pending) = match start(command, &keyless()) {
        Step::Send { request, pending } => (request, pending),
        other => panic!("unexpected step {:?}", other),
    };
    assert_eq!(request.method, Method::Get);
    assert_eq!(request.url, "http://localhost:1024/posts/7");
    assert_eq!(request.expects, ResponseShape::SinglePost);
    assert_eq!(pending, Pending::Fetching { file_name: String::from("out.txt") });
    match replied(pending, ok(ReplyBody::Post { post: post("world") })) {
        Step::WriteBody { path, contents } => {
            assert_eq!(path, "out.txt");
            assert_eq!(contents, "world");
        }
        other => panic!("unexpected step {:?}", other),
    }
    assert!(matches!(body_written(true), Step::Done { outcome: Outcome::Succeeded }));
}

#[test]
fn get_fails_when_the_file_cannot_be_written() {
    assert_eq!(failure_of(&body_written(false)), Some(ClientError::Io));
}

#[test]
fn get_fails_on_a_malformed_post() {
    let pending = Pending::Fetching { file_name: String::from("out.txt") };
    let step = replied(pending, ok(ReplyBody::Malformed));
    assert_eq!(failure_of(&step), Some(ClientError::Request(RequestFailure::Decode)));
}

#[test]
fn add_reads_then_sends_exactly_the_fields() {
    let draft = match start(add_command(), &minter()) {
        Step::ReadBody { path, draft } => {
            assert_eq!(path, "body.txt");
            draft
        }
        other => panic!("unexpected step {:?}", other),
    };
    assert_eq!(
        draft,
        AddDraft { title: String::from("T"), rank: String::from("1"), summary: String::from("S") }
    );
    let (request, pending) = match body_read(draft, Some(String::from("hello")), &minter()) {
        Step::Send { request, pending } => (request, pending),
        other => panic!("unexpected step {:?}", other),
    };
    assert_eq!(request.method, Method::Post);
    assert_eq!(request.url, "http://localhost:1024/add");
    let body = request.body.as_ref().unwrap();
    assert_eq!(body.title, "T");
    assert_eq!(body.post_body, "aGVsbG8=");
    assert_eq!(body.ranking, "1");
    assert_eq!(body.summary, "S");
    let headers = request.headers.as_ref().unwrap();
    assert_eq!(headers.len(), 1);
    let claims = token_claims(headers);
    assert_eq!(claims["exp"].as_u64().unwrap() - claims["iss"].as_u64().unwrap(), 20);
    assert_eq!(claims["sub"].as_str().unwrap().len(), 36);
    assert_eq!(pending, Pending::Mutating);
    assert!(matches!(
        replied(pending, ok(ReplyBody::Unread)),
        Step::Done { outcome: Outcome::Succeeded }
    ));
}

#[test]
fn add_fails_when_the_file_cannot_be_read() {
    let draft =
        AddDraft { title: String::from("T"), rank: String::from("1"), summary: String::from("S") };
    assert_eq!(failure_of(&body_read(draft.clone(), None, &minter())), Some(ClientError::Io));
    assert_eq!(failure_of(&body_read(draft, None, &keyless())), Some(ClientError::Io));
}

#[test]
fn add_without_secret_fails_before_anything_is_sent() {
    let draft = match start(add_command(), &keyless()) {
        Step::ReadBody { draft, .. } => draft,
        other => panic!("unexpected step {:?}", other),
    };
    let step = body_read(draft, Some(String::from("hello")), &keyless());
    assert_eq!(failure_of(&step), Some(ClientError::Configuration));
}

#[test]
fn delete_sends_a_request_bound_to_the_post() {
    let (request, pending) = match start(Command::Delete { id: 5 }, &minter()) {
        Step::Send { request, pending } => (request, pending),
        other => panic!("unexpected step {:?}", other),
    };
    assert_eq!(request.method, Method::Delete);
    assert_eq!(request.url, "http://localhost:1024/delete/5");
    assert!(request.body.is_none());
    let claims = token_claims(request.headers.as_ref().unwrap());
    assert_eq!(claims["delete_id"].as_u64(), Some(5));
    assert_eq!(pending, Pending::Mutating);
    assert!(matches!(
        replied(pending, ok(ReplyBody::Unread)),
        Step::Done { outcome: Outcome::Succeeded }
    ));
}

#[test]
fn delete_without_secret_fails_before_anything_is_sent() {
    let step = start(Command::Delete { id: 5 }, &keyless());
    assert_eq!(failure_of(&step), Some(ClientError::Configuration));
}

#[test]
fn update_does_nothing_whatever_its_arguments() {
    let texts = ["", "x", "a longer text", "body.txt"];
    for id in [0u16, 1, 7, u16::MAX] {
        for title in texts {
            for file_path in texts {
                for rank in texts {
                    for summary in texts {
                        let command = Command::Update {
                            id,
                            title: String::from(title),
                            file_path: String::from(file_path),
                            rank: String::from(rank),
                            summary: String::from(summary),
                        };
                        for minter in [minter(), keyless()] {
                            let step = start(command.clone(), &minter);
                            assert!(matches!(
                                step,
                                Step::Done { outcome: Outcome::Unimplemented }
                            ));
                        }
                    }
                }
            }
        }
    }
}

#[test]
fn rejected_and_unanswered_requests_fail_by_kind() {
    for pending in
        [Pending::Listing, Pending::Fetching { file_name: String::from("f") }, Pending::Mutating]
    {
        let unanswered = replied(pending.clone(), Reply::Unanswered);
        assert_eq!(
            failure_of(&unanswered),
            Some(ClientError::Request(RequestFailure::Transport))
        );
        let refused =
            replied(pending, Reply::Answered { status: 403, body: ReplyBody::Unread });
        assert_eq!(failure_of(&refused), Some(ClientError::Request(RequestFailure::Status)));
    }
}

#[test]
fn exit_code_is_zero_only_on_success() {
    assert_eq!(exit_code(&Step::Done { outcome: Outcome::Succeeded }), Some(0));
    assert_eq!(exit_code(&Step::Done { outcome: Outcome::Unimplemented }), Some(0));
    assert_eq!(exit_code(&Step::Done { outcome: Outcome::Listed { rows: vec![] } }), Some(0));
    for error in [
        ClientError::Configuration,
        ClientError::Encoding,
        ClientError::Request(RequestFailure::Transport),
        ClientError::Request(RequestFailure::Status),
        ClientError::Request(RequestFailure::Decode),
        ClientError::Io,
    ] {
        assert_eq!(exit_code(&Step::Failed { error }), Some(1));
    }
    assert_eq!(exit_code(&start(Command::List, &minter())), None);
    assert_eq!(exit_code(&start(add_command(), &minter())), None);
}
