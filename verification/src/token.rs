//! The token minter: from an operation, a clock reading and a fresh request
//! identifier to a signed, short-lived token.

use vstd::prelude::*;
use vstd::string::*;

use crate::claims::{claims_for, number_claims, text_claims, Claims, Operation};
use crate::error::ClientError;

verus! {

/// The error of the `jsonwebtoken` crate, carried through as it is.
#[verifier::external_type_specification]
#[verifier::external_body]
pub struct ExSigningError(jsonwebtoken::errors::Error);

/// The number of seconds a token is valid for unless configured otherwise.
/// Kept short, so that a captured token has a narrow replay window.
pub const DEFAULT_LIFETIME: u64 = 20;

/// What `jsonwebtoken::encode` makes of the given claims under HS512 and
/// the given secret: the compact token, or nothing where the claims cannot
/// be serialised or signed.
pub uninterp spec fn hs512_token(
    numbers: Seq<(Seq<char>, u64)>,
    texts: Seq<(Seq<char>, Seq<char>)>,
    secret: Seq<char>,
) -> Option<Seq<char>>;

/// Signs a claim set with `jsonwebtoken::encode`, under a header for
/// HS512 and a key made from the secret's bytes. The claims go in as one
/// JSON object, each under its name. The outcome depends on the claims and
/// the secret alone; nothing else is claimed of it.
#[verifier::external_body]
fn sign_hs512(numbers: &Vec<(String, u64)>, texts: &Vec<(String, String)>, secret: &str) -> (signed:
    Result<String, jsonwebtoken::errors::Error>)
    ensures
        signed matches Ok(token) ==> hs512_token(numbers.deep_view(), texts.deep_view(), secret@)
            == Some(token@),
        signed is Err ==> hs512_token(numbers.deep_view(), texts.deep_view(), secret@) is None,
{
    let mut payload = serde_json::Map::new();
    for (name, number) in numbers.iter() {
        payload.insert(name.clone(), serde_json::Value::from(*number));
    }
    for (name, text) in texts.iter() {
        payload.insert(name.clone(), serde_json::Value::from(text.as_str()));
    }
    let header = jsonwebtoken::Header::new(jsonwebtoken::Algorithm::HS512);
    let key = jsonwebtoken::EncodingKey::from_secret(secret.as_bytes());
    jsonwebtoken::encode(&header, &payload, &key)
}

/// Reads the clock through `chrono::Utc::now` and returns its Unix
/// timestamp in seconds. `Utc::now` measures the time since the epoch and
/// gives up on a system clock that is set before it, so the timestamp is
/// never negative. Nothing else is claimed of it.
#[verifier::external_body]
fn current_timestamp() -> (now: i64)
    ensures
        now >= 0,
{
    chrono::Utc::now().timestamp()
}

/// Draws a random version-4 identifier with `uuid::Uuid::new_v4` and
/// formats it in hyphenated form, which is always 36 characters long.
/// Nothing else is claimed of it. The generator gives up when the operating
/// system hands out no random bytes.
#[verifier::external_body]
fn new_request_id() -> (id: String)
    ensures
        id@.len() == 36,
{
    uuid::Uuid::new_v4().hyphenated().to_string()
}

/// What one mint draws from outside: a clock reading and a fresh request
/// identifier.
#[derive(Debug, Clone)]
pub struct Stamp {
    /// Seconds since the epoch.
    pub now: i64,
    /// An identifier that no other request carries.
    pub request_id: String,
}

/// What holds of every clock reading and request identifier that [`Stamp::draw`]
/// hands out.
pub open spec fn well_drawn(now: int, request_id: Seq<char>) -> bool {
    0 <= now <= i64::MAX && request_id.len() == 36
}

impl Stamp {
    /// What holds of every stamp that was drawn.
    pub open spec fn well_drawn(self) -> bool {
        well_drawn(self.now as int, self.request_id@)
    }

    /// Reads the clock and draws a new request identifier.
    pub fn draw() -> (stamp: Stamp)
        ensures
            stamp.well_drawn(),
    {
        let now = current_timestamp();
        let request_id = new_request_id();
        Stamp { now, request_id }
    }
}

/// The view of a minting result.
pub open spec fn token_view(token: Result<String, ClientError>) -> Result<Seq<char>, ClientError> {
    match token {
        Ok(t) => Ok(t@),
        Err(e) => Err(e),
    }
}

/// What signing hands to the caller: the token, or an encoding error.
pub open spec fn signed_token(signed: Option<Seq<char>>) -> Result<Seq<char>, ClientError> {
    match signed {
        Some(token) => Ok(token),
        None => Err(ClientError::Encoding),
    }
}

/// Turns the outcome of signing into the outcome of minting: the token as
/// it is, or an encoding error.
pub fn token_from_signing(signed: Result<String, jsonwebtoken::errors::Error>) -> (token: Result<
    String,
    ClientError,
>)
    ensures
        signed matches Ok(t) ==> token == Ok::<String, ClientError>(t),
        signed is Err ==> token == Err::<String, ClientError>(ClientError::Encoding),
{
    match signed {
        Ok(t) => Ok(t),
        Err(_) => Err(ClientError::Encoding),
    }
}

/// Mints tokens under one signing secret and one lifetime. The secret is
/// handed in by whoever configures the process; a minter without one can be
/// built, and every mint then fails with a configuration error. The type
/// cannot be printed, so that the secret does not end up in a log.
pub struct TokenMinter {
    secret: Option<String>,
    lifetime: u64,
}

impl TokenMinter {
    #[verifier::type_invariant]
    spec fn lifetime_is_positive(self) -> bool {
        self.lifetime > 0
    }

    /// The signing secret, if there is one.
    pub closed spec fn secret(self) -> Option<Seq<char>> {
        match self.secret {
            Some(s) => Some(s@),
            None => None,
        }
    }

    /// The number of seconds each token is valid for.
    pub closed spec fn lifetime(self) -> u64 {
        self.lifetime
    }

    /// The outcome of minting a token for `operation` at second `now` with
    /// request identifier `request_id`: a configuration error without a
    /// secret, whatever else is wrong; an encoding error when no claims can
    /// be built or signing fails; else the signed token over the claims.
    pub open spec fn minted(self, operation: Operation, now: int, request_id: Seq<char>) -> Result<
        Seq<char>,
        ClientError,
    > {
        match self.secret() {
            None => Err(ClientError::Configuration),
            Some(secret) => match claims_for(operation, now, self.lifetime() as int, request_id) {
                None => Err(ClientError::Encoding),
                Some(claims) => signed_token(
                    hs512_token(number_claims(claims), text_claims(claims), secret),
                ),
            },
        }
    }

    /// A minter with the default lifetime.
    pub fn new(secret: Option<String>) -> (minter: TokenMinter)
        ensures
            minter.lifetime() == DEFAULT_LIFETIME,
            secret matches Some(s) ==> minter.secret() == Some(s@),
            secret is None ==> minter.secret() is None,
    {
        TokenMinter { secret, lifetime: DEFAULT_LIFETIME }
    }

    /// A minter with a lifetime of its own. A lifetime of zero seconds is
    /// refused: no token could expire after it was issued.
    pub fn with_lifetime(secret: Option<String>, lifetime: u64) -> (minter: Option<TokenMinter>)
        ensures
            minter is Some <==> lifetime > 0,
            minter matches Some(m) ==> m.lifetime() == lifetime,
            minter matches Some(m) ==> (secret matches Some(s) ==> m.secret() == Some(s@)),
            minter matches Some(m) ==> (secret is None ==> m.secret() is None),
    {
        if lifetime == 0 {
            None
        } else {
            Some(TokenMinter { secret, lifetime })
        }
    }

    /// Whether a signing secret was configured.
    pub fn has_secret(&self) -> (present: bool)
        ensures
            present == self.secret() is Some,
    {
        self.secret.is_some()
    }

    /// The configured lifetime, which is never zero.
    pub fn lifetime_seconds(&self) -> (seconds: u64)
        ensures
            seconds == self.lifetime(),
            seconds > 0,
    {
        proof {
            use_type_invariant(self);
        }
        self.lifetime
    }

    /// Mints a token for `operation` from what `stamp` holds.
    pub fn mint(&self, operation: Operation, stamp: Stamp) -> (token: Result<String, ClientError>)
        ensures
            token_view(token) == self.minted(operation, stamp.now as int, stamp.request_id@),
    {
        match &self.secret {
            None => Err(ClientError::Configuration),
            Some(secret) => {
                match Claims::for_operation(operation, stamp.now, self.lifetime, stamp.request_id) {
                    None => Err(ClientError::Encoding),
                    Some(claims) => {
                        let numbers = claims.number_claims();
                        let texts = claims.text_claims();
                        token_from_signing(sign_hs512(&numbers, &texts, secret.as_str()))
                    },
                }
            },
        }
    }
}

/// Every minted token is the signature over claims that were issued at the
/// clock reading, are valid for exactly the minter's lifetime, and carry
/// the request identifier that was drawn wherever the operation has one.
pub proof fn lemma_minted_claims(
    minter: TokenMinter,
    operation: Operation,
    now: int,
    request_id: Seq<char>,
)
    ensures
        minter.minted(operation, now, request_id) matches Ok(token) ==> {
            &&& minter.secret() matches Some(secret)
            &&& claims_for(operation, now, minter.lifetime() as int, request_id) matches Some(
                claims,
            )
            &&& claims.issued_at == now
            &&& claims.expires_at - claims.issued_at == minter.lifetime()
            &&& operation != Operation::Read ==> claims.request_id == Some(request_id)
            &&& hs512_token(number_claims(claims), text_claims(claims), secret) == Some(token)
        },
{
}

/// With a secret, a clock that reads no time before the epoch and an
/// expiry that fits the claim, minting fails only where signing does.
pub proof fn lemma_mint_fails_only_in_signing(
    minter: TokenMinter,
    operation: Operation,
    now: int,
    request_id: Seq<char>,
)
    requires
        minter.secret() is Some,
        minter.lifetime() > 0,
        0 <= now,
        now + minter.lifetime() <= u64::MAX,
    ensures
        claims_for(operation, now, minter.lifetime() as int, request_id) matches Some(claims)
            && minter.minted(operation, now, request_id) == signed_token(
            hs512_token(number_claims(claims), text_claims(claims), minter.secret()->0),
        ),
        !(minter.minted(operation, now, request_id) matches Err(e) && e
            == ClientError::Configuration),
{
}

/// Without a secret every mint fails with a configuration error, whatever
/// the operation, the clock and the request identifier.
pub proof fn lemma_no_secret_no_token(
    minter: TokenMinter,
    operation: Operation,
    now: int,
    request_id: Seq<char>,
)
    requires
        minter.secret() is None,
    ensures
        minter.minted(operation, now, request_id) == Err::<Seq<char>, ClientError>(
            ClientError::Configuration,
        ),
{
}

/// Mints a token for `operation` at this moment: reads the clock, draws a
/// fresh request identifier and mints from the two. Without a secret it
/// fails at once, before the clock is read.
pub fn mint_now(minter: &TokenMinter, operation: Operation) -> (token: Result<String, ClientError>)
    ensures
        minter.secret() is None ==> token == Err::<String, ClientError>(ClientError::Configuration),
        exists|now: int, request_id: Seq<char>|
            well_drawn(now, request_id) && token_view(token) == #[trigger] minter.minted(
                operation,
                now,
                request_id,
            ),
{
    if !minter.has_secret() {
        let ghost any_id = Seq::new(36, |i: int| '0');
        assert(well_drawn(0, any_id));
        assert(minter.minted(operation, 0, any_id) == Err::<Seq<char>, ClientError>(
            ClientError::Configuration,
        ));
        return Err(ClientError::Configuration);
    }
    let stamp = Stamp::draw();
    let ghost now = stamp.now as int;
    let ghost request_id = stamp.request_id@;
    let token = minter.mint(operation, stamp);
    assert(token_view(token) == minter.minted(operation, now, request_id));
    token
}

/// Mints the token of a mutating call: issue and expiry times and a fresh
/// request identifier, read and drawn at the moment of the call.
pub fn create_jwt(minter: &TokenMinter) -> (token: Result<String, ClientError>)
    ensures
        minter.secret() is None ==> token == Err::<String, ClientError>(ClientError::Configuration),
        exists|now: int, request_id: Seq<char>|
            well_drawn(now, request_id) && token_view(token) == #[trigger] minter.minted(
                Operation::Write,
                now,
                request_id,
            ),
{
    mint_now(minter, Operation::Write)
}

/// Mints the token of a delete call: as [`create_jwt`], and bound to the
/// post that is to be deleted.
pub fn create_delete_jwt(minter: &TokenMinter, post_id: u16) -> (token: Result<String, ClientError>)
    ensures
        minter.secret() is None ==> token == Err::<String, ClientError>(ClientError::Configuration),
        exists|now: int, request_id: Seq<char>|
            well_drawn(now, request_id) && token_view(token) == #[trigger] minter.minted(
                Operation::Delete { target_id: post_id },
                now,
                request_id,
            ),
{
    mint_now(minter, Operation::Delete { target_id: post_id })
}

} // verus!
