use blog_client::error::ClientError;
use blog_client::post::AddJson;
use blog_client::request::{
    add_post, add_request, delete_post, delete_request, get_post_list, get_single_post, Method,
    ResponseShape, TARGET_URL,
};
use blog_client::token::TokenMinter;

const SECRET: &str = "top-secret";

fn minter() -> TokenMinter {
    TokenMinter::new(Some(String::from(SECRET)))
}

fn claims_in(token: &str) -> serde_json::Value {
    let mut validation = jsonwebtoken::Validation::new(jsonwebtoken::Algorithm::HS512);
    validation.required_spec_claims.clear();
    let key = jsonwebtoken::DecodingKey::from_secret(SECRET.as_bytes());
    jsonwebtoken::decode::<serde_json::Value>(token, &key, &validation).unwrap().claims
}

fn bearer_token(headers: &warp::http::HeaderMap) -> String {
    assert_eq!(headers.len(), 1);
    let value = headers.get("authorization").unwrap().to_str().unwrap();
    assert!(value.starts_with("Bearer "));
    String::from(&value["Bearer ".len()..])
}

fn payload() -> AddJson {
    AddJson::new(String::from("T"), "hello", String::from("1"), String::from("S"))
}

#[test]
fn base_url_is_fixed() {
    assert_eq!(TARGET_URL, "http://localhost:1024/");
}

#[test]
fn list_request_is_a_plain_get() {
    let request = get_post_list();
    assert_eq!(request.method, Method::Get);
    assert_eq!(request.url, "http://localhost:1024/posts");
    assert!(request.headers.is_none());
    assert!(request.body.is_none());
    assert_eq!(request.expects, ResponseShape::PostList);
    assert_eq!(request.deadline, None);
}

#[test]
fn single_post_request_names_the_post() {
    let request = get_single_post(7);
    assert_eq!(request.method, Method::Get);
    assert_eq!(request.url, "http://localhost:1024/posts/7");
    assert!(request.headers.is_none());
    assert!(request.body.is_none());
    assert_eq!(request.expects, ResponseShape::SinglePost);
    assert_eq!(request.deadline, None);
    assert_eq!(get_single_post(0).url, "http://localhost:1024/posts/0");
    assert_eq!(get_single_post(u16::MAX).url, "http://localhost:1024/posts/65535");
}

#[test]
fn add_request_carries_payload_and_token() {
    let request = add_request(payload(), String::from("tok"), 20).unwrap();
    assert_eq!(request.method, Method::Post);
    assert_eq!(request.url, "http://localhost:1024/add");
    assert_eq!(bearer_token(request.headers.as_ref().unwrap()), "tok");
    assert_eq!(request.body, Some(payload()));
    assert_eq!(request.expects, ResponseShape::Nothing);
    assert_eq!(request.deadline, Some(20));
}

#[test]
fn delete_request_names_the_post() {
    let request = delete_request(12, String::from("tok"), 30).unwrap();
    assert_eq!(request.method, Method::Delete);
    assert_eq!(request.url, "http://localhost:1024/delete/12");
    assert_eq!(bearer_token(request.headers.as_ref().unwrap()), "tok");
    assert!(request.body.is_none());
    assert_eq!(request.expects, ResponseShape::Nothing);
    assert_eq!(request.deadline, Some(30));
}

#[test]
fn token_that_cannot_stand_in_a_header_is_an_encoding_error() {
    assert_eq!(add_request(payload(), String::from("a\nb"), 20).err(), Some(ClientError::Encoding));
    assert_eq!(delete_request(1, String::from("a\nb"), 20).err(), Some(ClientError::Encoding));
}

#[test]
fn add_post_builds_the_whole_request() {
    let request = add_post(
        String::from("T"),
        String::from("hello"),
        String::from("1"),
        String::from("S"),
        &minter(),
    )
    .unwrap();
    assert_eq!(request.method, Method::Post);
    assert_eq!(request.url, "http://localhost:1024/add");
    let body = request.body.unwrap();
    assert_eq!(body.title, "T");
    assert_eq!(body.post_body, "aGVsbG8=");
    assert_eq!(body.ranking, "1");
    assert_eq!(body.summary, "S");
    let claims = claims_in(&bearer_token(request.headers.as_ref().unwrap()));
    assert_eq!(claims["exp"].as_u64().unwrap() - claims["iss"].as_u64().unwrap(), 20);
    assert_eq!(claims["sub"].as_str().unwrap().len(), 36);
    assert!(claims.get("delete_id").is_none());
    assert_eq!(request.deadline, Some(20));
}

#[test]
fn delete_post_binds_token_and_path_to_one_post() {
    let request = delete_post(5, &minter()).unwrap();
    assert_eq!(request.method, Method::Delete);
    assert_eq!(request.url, "http://localhost:1024/delete/5");
    let claims = claims_in(&bearer_token(request.headers.as_ref().unwrap()));
    assert_eq!(claims["delete_id"].as_u64(), Some(5));
    assert!(request.body.is_none());
    assert_eq!(request.deadline, Some(20));
}

#[test]
fn deadline_follows_the_token_lifetime() {
    let minter = TokenMinter::with_lifetime(Some(String::from(SECRET)), 45).unwrap();
    assert_eq!(delete_post(5, &minter).unwrap().deadline, Some(45));
}

#[test]
fn no_request_without_a_secret() {
    let keyless = TokenMinter::new(None);
    let added = add_post(
        String::from("T"),
        String::from("hello"),
        String::from("1"),
        String::from("S"),
        &keyless,
    );
    assert_eq!(added.err(), Some(ClientError::Configuration));
    assert_eq!(delete_post(5, &keyless).err(), Some(ClientError::Configuration));
}
