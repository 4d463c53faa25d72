use std::time::{SystemTime, UNIX_EPOCH};

use blog_client::claims::Operation;
use blog_client::error::ClientError;
use blog_client::token::{
    create_delete_jwt, create_jwt, token_from_signing, Stamp, TokenMinter, DEFAULT_LIFETIME,
};

const SECRET: &str = "top-secret";

fn minter() -> TokenMinter {
    TokenMinter::new(Some(String::from(SECRET)))
}

fn stamp(now: i64, request_id: &str) -> Stamp {
    Stamp { now, request_id: String::from(request_id) }
}

fn validation() -> jsonwebtoken::Validation {
    let mut validation = jsonwebtoken::Validation::new(jsonwebtoken::Algorithm::HS512);
    validation.validate_exp = false;
    validation.required_spec_claims.clear();
    validation
}

fn claims_of(token: &str, secret: &str) -> serde_json::Value {
    let key = jsonwebtoken::DecodingKey::from_secret(secret.as_bytes());
    jsonwebtoken::decode::<serde_json::Value>(token, &key, &validation()).unwrap().claims
}

fn unix_now() -> u64 {
    SystemTime::now().duration_since(UNIX_EPOCH).unwrap().as_secs()
}

#[test]
fn default_lifetime_is_twenty_seconds() {
    assert_eq!(DEFAULT_LIFETIME, 20);
    assert_eq!(minter().lifetime_seconds(), 20);
}

#[test]
fn minter_knows_whether_it_has_a_secret() {
    assert!(minter().has_secret());
    assert!(!TokenMinter::new(None).has_secret());
}

#[test]
fn zero_lifetime_is_refused() {
    assert!(TokenMinter::with_lifetime(Some(String::from(SECRET)), 0).is_none());
    assert!(TokenMinter::with_lifetime(None, 0).is_none());
}

#[test]
fn configured_lifetime_is_kept() {
    let minter = TokenMinter::with_lifetime(Some(String::from(SECRET)), 60).unwrap();
    assert_eq!(minter.lifetime_seconds(), 60);
    assert!(minter.has_secret());
    let keyless = TokenMinter::with_lifetime(None, 45).unwrap();
    assert_eq!(keyless.lifetime_seconds(), 45);
    assert!(!keyless.has_secret());
}

#[test]
fn minted_write_token_holds_the_claims() {
    let token = minter().mint(Operation::Write, stamp(1_700_000_000, "abc")).unwrap();
    let claims = claims_of(&token, SECRET);
    assert_eq!(claims["iss"].as_u64(), Some(1_700_000_000));
    assert_eq!(claims["exp"].as_u64(), Some(1_700_000_020));
    assert_eq!(claims["sub"].as_str(), Some("abc"));
    assert!(claims.get("delete_id").is_none());
    assert_eq!(claims.as_object().unwrap().len(), 3);
}

#[test]
fn minted_read_token_holds_times_only() {
    let token = minter().mint(Operation::Read, stamp(1_700_000_000, "abc")).unwrap();
    let claims = claims_of(&token, SECRET);
    assert_eq!(claims["iss"].as_u64(), Some(1_700_000_000));
    assert_eq!(claims["exp"].as_u64(), Some(1_700_000_020));
    assert_eq!(claims.as_object().unwrap().len(), 2);
}

#[test]
fn minted_delete_token_is_bound_to_its_post() {
    let token =
        minter().mint(Operation::Delete { target_id: 5 }, stamp(1_700_000_000, "abc")).unwrap();
    let claims = claims_of(&token, SECRET);
    assert_eq!(claims["delete_id"].as_u64(), Some(5));
    assert_ne!(claims["delete_id"].as_u64(), Some(6));
    assert_eq!(claims["sub"].as_str(), Some("abc"));
    assert_eq!(claims.as_object().unwrap().len(), 4);
}

#[test]
fn token_lifetime_follows_the_configuration() {
    for lifetime in [1u64, 20, 60] {
        let minter = TokenMinter::with_lifetime(Some(String::from(SECRET)), lifetime).unwrap();
        let token = minter.mint(Operation::Write, stamp(1_000, "abc")).unwrap();
        let claims = claims_of(&token, SECRET);
        assert_eq!(claims["exp"].as_u64().unwrap() - claims["iss"].as_u64().unwrap(), lifetime);
    }
}

#[test]
fn token_is_signed_with_hs512_under_the_secret() {
    let token = minter().mint(Operation::Write, stamp(1_000, "abc")).unwrap();
    assert_eq!(token.split('.').count(), 3);
    let header = jsonwebtoken::decode_header(&token).unwrap();
    assert_eq!(header.alg, jsonwebtoken::Algorithm::HS512);
    let wrong = jsonwebtoken::DecodingKey::from_secret(b"another-secret");
    assert!(jsonwebtoken::decode::<serde_json::Value>(&token, &wrong, &validation()).is_err());
}

#[test]
fn same_stamp_gives_the_same_token() {
    let first = minter().mint(Operation::Write, stamp(1_000, "abc")).unwrap();
    let second = minter().mint(Operation::Write, stamp(1_000, "abc")).unwrap();
    assert_eq!(first, second);
    let other = minter().mint(Operation::Write, stamp(1_000, "abd")).unwrap();
    assert_ne!(first, other);
}

#[test]
fn mint_without_secret_is_a_configuration_error() {
    let keyless = TokenMinter::new(None);
    for operation in [Operation::Read, Operation::Write, Operation::Delete { target_id: 1 }] {
        assert_eq!(keyless.mint(operation, stamp(1_000, "abc")), Err(ClientError::Configuration));
        assert_eq!(keyless.mint(operation, stamp(-1, "abc")), Err(ClientError::Configuration));
    }
}

#[test]
fn mint_before_the_epoch_is_an_encoding_error() {
    assert_eq!(minter().mint(Operation::Write, stamp(-1, "abc")), Err(ClientError::Encoding));
}

#[test]
fn mint_with_overflowing_expiry_is_an_encoding_error() {
    let minter = TokenMinter::with_lifetime(Some(String::from(SECRET)), u64::MAX).unwrap();
    assert_eq!(minter.mint(Operation::Write, stamp(1, "abc")), Err(ClientError::Encoding));
}

#[test]
fn drawn_stamps_are_fresh() {
    let before = unix_now() as i64;
    let first = Stamp::draw();
    let second = Stamp::draw();
    let after = unix_now() as i64;
    for drawn in [first.now, second.now] {
        assert!(before - 5 <= drawn && drawn <= after + 5);
    }
    assert_eq!(first.request_id.len(), 36);
    assert_eq!(second.request_id.len(), 36);
    assert_ne!(first.request_id, second.request_id);
    let parsed = uuid::Uuid::parse_str(&first.request_id).unwrap();
    assert_eq!(parsed.get_version_num(), 4);
}

#[test]
fn create_jwt_mints_a_write_token_now() {
    let before = unix_now();
    let token = create_jwt(&minter()).unwrap();
    let after = unix_now();
    let claims = claims_of(&token, SECRET);
    let issued = claims["iss"].as_u64().unwrap();
    assert!(before <= issued + 5 && issued <= after + 5);
    assert_eq!(claims["exp"].as_u64().unwrap() - issued, 20);
    assert_eq!(claims["sub"].as_str().unwrap().len(), 36);
    assert!(claims.get("delete_id").is_none());
}

#[test]
fn request_ids_are_unique_across_mints() {
    let minter = minter();
    let mut seen = Vec::new();
    for _ in 0..50 {
        let token = create_jwt(&minter).unwrap();
        let id = String::from(claims_of(&token, SECRET)["sub"].as_str().unwrap());
        assert!(!seen.contains(&id));
        seen.push(id);
    }
}

#[test]
fn create_delete_jwt_binds_the_post() {
    let token = create_delete_jwt(&minter(), 5).unwrap();
    let claims = claims_of(&token, SECRET);
    assert_eq!(claims["delete_id"].as_u64(), Some(5));
    assert_eq!(claims["exp"].as_u64().unwrap() - claims["iss"].as_u64().unwrap(), 20);
    assert_eq!(claims["sub"].as_str().unwrap().len(), 36);
}

#[test]
fn create_jwt_without_secret_fails() {
    let keyless = TokenMinter::new(None);
    assert_eq!(create_jwt(&keyless), Err(ClientError::Configuration));
    assert_eq!(create_delete_jwt(&keyless, 5), Err(ClientError::Configuration));
}

#[test]
fn signing_outcome_becomes_minting_outcome() {
    assert_eq!(token_from_signing(Ok(String::from("a.b.c"))), Ok(String::from("a.b.c")));
    let key = jsonwebtoken::DecodingKey::from_secret(b"x");
    let failure =
        jsonwebtoken::decode::<serde_json::Value>("not a token", &key, &validation()).unwrap_err();
    assert_eq!(token_from_signing(Err(failure)), Err(ClientError::Encoding));
}

#[test]
fn mint_now_follows_the_operation() {
    let read = blog_client::token::mint_now(&minter(), Operation::Read).unwrap();
    assert_eq!(claims_of(&read, SECRET).as_object().unwrap().len(), 2);
    let delete =
        blog_client::token::mint_now(&minter(), Operation::Delete { target_id: 9 }).unwrap();
    assert_eq!(claims_of(&delete, SECRET)["delete_id"].as_u64(), Some(9));
    let keyless = TokenMinter::new(None);
    assert_eq!(
        blog_client::token::mint_now(&keyless, Operation::Read),
        Err(ClientError::Configuration)
    );
}
