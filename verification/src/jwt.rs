//! Bearer tokens: issuing binds a username and an expiry 24 hours out,
//! signed with a process-wide symmetric secret; verification checks the
//! signature and the expiry. Validity is stateless: signature and expiry
//! only, no revocation.
use vstd::prelude::*;

verus! {

/// How long an issued token stays valid, in seconds.
pub const TOKEN_LIFETIME_SECS: u64 = 86400;

/// The claims carried by a token: the subject username and the expiry as a
/// Unix timestamp.
#[derive(Debug)]
pub struct Claims {
    sub: String,
    exp: u64,
}

impl Claims {
    /// The subject username.
    pub closed spec fn spec_sub(self) -> Seq<char> {
        self.sub@
    }

    /// The expiry timestamp.
    pub closed spec fn spec_exp(self) -> u64 {
        self.exp
    }

    /// Returns the username the token binds.
    pub fn get_username(&self) -> (r: String)
        ensures
            r@ == self.spec_sub(),
    {
        self.sub.clone()
    }
}

/// Why a token was rejected.
#[derive(Clone, Copy, PartialEq, Eq, Structural, Debug)]
pub enum AuthError {
    InvalidSignatureOrFormat,
    Expired,
}

/// The claims a token decodes to under a secret: the `sub` and `exp`
/// fields, present exactly when the token is well-formed HS256 and its
/// signature verifies. Deterministic in token and secret.
pub uninterp spec fn jwt_claims_of(token: Seq<char>, secret: Seq<u8>) -> Option<(Seq<char>, u64)>;

/// Relies on jsonwebtoken::encode under the default HS256 header, with the
/// standard `sub` and `exp` claim names: the token is a function of the
/// claims and the secret, and jsonwebtoken's decode with the same secret
/// recovers exactly these claims.
#[verifier::external_body]
fn jwt_encode(sub: &String, exp: u64, secret: &[u8; 32]) -> (r: String)
    ensures
        jwt_claims_of(r@, secret@) == Some((sub@, exp)),
{
    let mut claims = serde_json::Map::new();
    claims.insert("sub".to_string(), serde_json::Value::String(sub.clone()));
    claims.insert("exp".to_string(), serde_json::Value::from(exp));
    jsonwebtoken::encode(
        &jsonwebtoken::Header::default(),
        &serde_json::Value::Object(claims),
        &jsonwebtoken::EncodingKey::from_secret(secret),
    ).expect("HS256 encoding of plain claims cannot fail")
}

/// Relies on jsonwebtoken::decode over HS256, with its expiry check turned
/// off (the caller checks expiry itself against an explicit clock):
/// deterministic in token and secret; yields the standard `sub` and `exp`
/// claims exactly when the token parses and its signature verifies.
#[verifier::external_body]
fn jwt_decode(token: &String, secret: &[u8; 32]) -> (r: Option<(String, u64)>)
    ensures
        match r {
            Some(c) => jwt_claims_of(token@, secret@) == Some((c.0@, c.1)),
            None => (jwt_claims_of(token@, secret@) is None),
        },
{
    let mut validation = jsonwebtoken::Validation::default();
    validation.validate_exp = false;
    let data = jsonwebtoken::decode::<serde_json::Value>(
        token.as_str(),
        &jsonwebtoken::DecodingKey::from_secret(secret),
        &validation,
    ).ok()?;
    let sub = data.claims.get("sub")?.as_str()?.to_string();
    let exp = data.claims.get("exp")?.as_u64()?;
    Some((sub, exp))
}

/// Issues a bearer token binding `username`, expiring 24 hours after `now`.
pub fn create_jwt_token(username: String, jwt_secret: [u8; 32], now: u64) -> (r: String)
    requires
        now <= u64::MAX - TOKEN_LIFETIME_SECS,
    ensures
        jwt_claims_of(r@, jwt_secret@) == Some((username@, (now + TOKEN_LIFETIME_SECS) as u64)),
{
    jwt_encode(&username, now + TOKEN_LIFETIME_SECS, &jwt_secret)
}

/// What verification may answer for a token under a secret at time `now`:
/// the claims exactly when the token decodes and is not yet expired;
/// `InvalidSignatureOrFormat` exactly when it does not decode; `Expired`
/// exactly when it decodes but its expiry is at or before `now`.
pub open spec fn spec_verify_outcome(
    token: Seq<char>,
    secret: Seq<u8>,
    now: u64,
    r: Result<Claims, AuthError>,
) -> bool {
    match r {
        Ok(c) => jwt_claims_of(token, secret) == Some((c.spec_sub(), c.spec_exp())) && now
            < c.spec_exp(),
        Err(e) => match e {
            AuthError::InvalidSignatureOrFormat => (jwt_claims_of(token, secret) is None),
            AuthError::Expired => (jwt_claims_of(token, secret) matches Some(c) && now >= c.1),
        },
    }
}

/// Decodes a token and checks signature and expiry against `now`: a
/// malformed token or a wrong signature is `InvalidSignatureOrFormat`, an
/// `exp` at or before `now` is `Expired`, and anything else yields the
/// claims.
pub fn verify_jwt_token(token: &String, jwt_secret: [u8; 32], now: u64) -> (r: Result<
    Claims,
    AuthError,
>)
    ensures
        spec_verify_outcome(token@, jwt_secret@, now, r),
{
    match jwt_decode(token, &jwt_secret) {
        None => Err(AuthError::InvalidSignatureOrFormat),
        Some((sub, exp)) => {
            if now >= exp {
                Err(AuthError::Expired)
            } else {
                Ok(Claims { sub, exp })
            }
        },
    }
}

/// Law: a token just issued verifies back to its user. A token carrying
/// claims `(u, e)` -- as `create_jwt_token` ensures of its result --
/// checked before `e`, can only verify to exactly those claims: the two
/// error answers contradict what the token carries.
pub proof fn lemma_issue_then_verify(
    token: Seq<char>,
    secret: Seq<u8>,
    u: Seq<char>,
    e: u64,
    now: u64,
    r: Result<Claims, AuthError>,
)
    requires
        jwt_claims_of(token, secret) == Some((u, e)),
        now < e,
        spec_verify_outcome(token, secret, now, r),
    ensures
        (r matches Ok(c) && c.spec_sub() == u && c.spec_exp() == e),
{
}

/// Law: an expired token is rejected as `Expired`, and only so. A token
/// carrying claims `(u, e)` checked at or after `e` cannot verify and
/// cannot be mistaken for a malformed one.
pub proof fn lemma_expired_token_rejected(
    token: Seq<char>,
    secret: Seq<u8>,
    u: Seq<char>,
    e: u64,
    now: u64,
    r: Result<Claims, AuthError>,
)
    requires
        jwt_claims_of(token, secret) == Some((u, e)),
        now >= e,
        spec_verify_outcome(token, secret, now, r),
    ensures
        r == Err::<Claims, AuthError>(AuthError::Expired),
{
}

} // verus!
