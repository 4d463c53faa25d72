//! The claims that are signed into a token, and how they depend on the
//! operation the token is for.

use vstd::prelude::*;
use vstd::string::*;

verus! {

/// What a token is minted for. The claim set depends on it.
#[derive(Debug, Clone, Copy, PartialEq, Eq, Structural)]
pub enum Operation {
    /// A plain read: issue and expiry times only.
    Read,
    /// A mutating call: times and a request identifier.
    Write,
    /// A delete: times, a request identifier, and the post it targets.
    Delete { target_id: u16 },
}

/// The payload that is signed into a token.
#[derive(Debug, Clone)]
pub struct Claims {
    /// Seconds since the epoch at which the token was issued.
    pub issued_at: u64,
    /// Seconds since the epoch at which the token stops being valid.
    pub expires_at: u64,
    /// The single-use identifier of the request, on mutating operations.
    pub request_id: Option<String>,
    /// The post a delete token is bound to.
    pub target_id: Option<u16>,
}

/// The mathematical content of [`Claims`].
pub struct ClaimsView {
    pub issued_at: u64,
    pub expires_at: u64,
    pub request_id: Option<Seq<char>>,
    pub target_id: Option<u16>,
}

impl View for Claims {
    type V = ClaimsView;

    open spec fn view(&self) -> ClaimsView {
        ClaimsView {
            issued_at: self.issued_at,
            expires_at: self.expires_at,
            request_id: match self.request_id {
                Some(id) => Some(id@),
                None => None,
            },
            target_id: self.target_id,
        }
    }
}

impl ClaimsView {
    /// A token expires strictly after it was issued.
    pub open spec fn well_formed(self) -> bool {
        self.issued_at < self.expires_at
    }

    /// The number of seconds for which the token is valid.
    pub open spec fn lifetime(self) -> int {
        self.expires_at - self.issued_at
    }

    /// Whether a token with these claims may be used to delete `post_id`.
    pub open spec fn authorizes_delete(self, post_id: u16) -> bool {
        self.target_id == Some(post_id)
    }
}

/// The claims of a token minted for `operation` at second `now`, valid for
/// `lifetime` seconds and carrying `request_id` where the operation calls for
/// one. There are none when the clock reads before the epoch, the lifetime
/// is not positive, or the expiry does not fit the claim.
pub open spec fn claims_for(
    operation: Operation,
    now: int,
    lifetime: int,
    request_id: Seq<char>,
) -> Option<ClaimsView> {
    if now < 0 || lifetime <= 0 || now + lifetime > u64::MAX {
        None
    } else {
        Some(
            ClaimsView {
                issued_at: now as u64,
                expires_at: (now + lifetime) as u64,
                request_id: match operation {
                    Operation::Read => None,
                    _ => Some(request_id),
                },
                target_id: match operation {
                    Operation::Delete { target_id } => Some(target_id),
                    _ => None,
                },
            },
        )
    }
}

/// The numeric claims as they go on the wire, each under its name.
pub open spec fn number_claims(claims: ClaimsView) -> Seq<(Seq<char>, u64)> {
    let times = seq![("iss"@, claims.issued_at), ("exp"@, claims.expires_at)];
    match claims.target_id {
        Some(id) => times.push(("delete_id"@, id as u64)),
        None => times,
    }
}

/// The textual claims as they go on the wire, each under its name.
pub open spec fn text_claims(claims: ClaimsView) -> Seq<(Seq<char>, Seq<char>)> {
    match claims.request_id {
        Some(id) => seq![("sub"@, id)],
        None => seq![],
    }
}

impl Claims {
    /// Builds the claims for one token. Returns `None` exactly when no
    /// well-formed claims exist for the given clock reading and lifetime.
    pub fn for_operation(
        operation: Operation,
        now: i64,
        lifetime: u64,
        request_id: String,
    ) -> (claims: Option<Claims>)
        ensures
            match claims {
                Some(c) => claims_for(operation, now as int, lifetime as int, request_id@) == Some(
                    c@,
                ),
                None => claims_for(operation, now as int, lifetime as int, request_id@) is None,
            },
            claims matches Some(c) ==> c@.well_formed() && c@.lifetime() == lifetime,
            claims is Some <==> 0 <= now && 0 < lifetime && now + lifetime <= u64::MAX,
    {
        if now < 0 || lifetime == 0 {
            return None;
        }
        let issued_at = now as u64;
        match issued_at.checked_add(lifetime) {
            None => None,
            Some(expires_at) => {
                let request_id = match operation {
                    Operation::Read => None,
                    _ => Some(request_id),
                };
                let target_id = match operation {
                    Operation::Delete { target_id } => Some(target_id),
                    _ => None,
                };
                Some(Claims { issued_at, expires_at, request_id, target_id })
            },
        }
    }

    /// The application-level check that binds a delete token to its post.
    pub fn authorizes_delete(&self, post_id: u16) -> (allowed: bool)
        ensures
            allowed == self@.authorizes_delete(post_id),
    {
        match self.target_id {
            Some(id) => id == post_id,
            None => false,
        }
    }

    /// The numeric claims, named as on the wire.
    pub fn number_claims(&self) -> (list: Vec<(String, u64)>)
        ensures
            list.deep_view() == number_claims(self@),
    {
        let mut list: Vec<(String, u64)> = Vec::new();
        list.push((String::from_str("iss"), self.issued_at));
        list.push((String::from_str("exp"), self.expires_at));
        match self.target_id {
            Some(id) => {
                list.push((String::from_str("delete_id"), id as u64));
            },
            None => {},
        }
        assert(list.deep_view() =~= number_claims(self@));
        list
    }

    /// The textual claims, named as on the wire.
    pub fn text_claims(&self) -> (list: Vec<(String, String)>)
        ensures
            list.deep_view() == text_claims(self@),
    {
        let mut list: Vec<(String, String)> = Vec::new();
        match &self.request_id {
            Some(id) => {
                list.push((String::from_str("sub"), id.clone()));
            },
            None => {},
        }
        assert(list.deep_view() =~= text_claims(self@));
        list
    }
}

/// Every token is valid for exactly the configured lifetime, and expires
/// after it was issued.
pub proof fn lemma_lifetime_is_exact(
    operation: Operation,
    now: int,
    lifetime: int,
    request_id: Seq<char>,
)
    ensures
        claims_for(operation, now, lifetime, request_id) matches Some(c) ==> c.lifetime()
            == lifetime && c.issued_at == now && c.well_formed(),
{
}

/// A request identifier is carried into the claims unchanged, on every
/// operation that has one: two mints that draw different identifiers give
/// different claims.
pub proof fn lemma_request_id_is_carried(
    operation: Operation,
    now: int,
    lifetime: int,
    first: Seq<char>,
    second: Seq<char>,
)
    requires
        operation != Operation::Read,
        first != second,
    ensures
        claims_for(operation, now, lifetime, first) matches Some(c) ==> c.request_id == Some(first),
        claims_for(operation, now, lifetime, first) is Some ==> claims_for(
            operation,
            now,
            lifetime,
            first,
        ) != claims_for(operation, now, lifetime, second),
{
}

/// The claims of a delete token name the post it was minted for and no
/// other: presented against any other post, the bound check fails.
pub proof fn lemma_delete_binds_target(
    minted_for: u16,
    presented_for: u16,
    now: int,
    lifetime: int,
    request_id: Seq<char>,
)
    ensures
        claims_for(
            Operation::Delete { target_id: minted_for },
            now,
            lifetime,
            request_id,
        ) matches Some(c) ==> (c.authorizes_delete(presented_for) <==> minted_for
            == presented_for),
{
}

/// Only delete tokens pass the bound check of any post.
pub proof fn lemma_only_delete_authorizes(
    operation: Operation,
    post_id: u16,
    now: int,
    lifetime: int,
    request_id: Seq<char>,
)
    ensures
        claims_for(operation, now, lifetime, request_id) matches Some(c) ==> (c.authorizes_delete(
            post_id,
        ) <==> operation == Operation::Delete { target_id: post_id }),
{
}

} // verus!
