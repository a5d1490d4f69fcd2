use jsonwebtoken::errors::ErrorKind;
use jsonwebtoken::{Algorithm, DecodingKey, EncodingKey, Header, Validation};
use vstd::prelude::*;

use crate::errors::ServiceError;
use crate::models::{Claims, ClaimsModel, IdentityModel, SlimUser};

verus! {

/// Why a signed token was not accepted.
#[derive(Debug, Clone, Copy, PartialEq, Eq, Structural)]
pub enum TokenError {
    /// The token is not a well-formed signed token, or its claims are incomplete.
    Malformed,
    /// The header names an algorithm other than the configured one.
    InvalidAlgorithm,
    /// The signature does not match header and payload under the secret.
    InvalidSignature,
    /// The signature is good but the claims' expiry time has been reached.
    Expired,
}

/// The claim fields found in a token whose signature checked out, each absent
/// where the payload has no value of the right type under that name.
#[derive(Debug, Clone, PartialEq, Eq)]
pub struct ClaimFields {
    pub email: Option<String>,
    pub clearance: Option<bool>,
    pub exp: Option<u64>,
}

pub open spec fn opt_str_view(o: Option<String>) -> Option<Seq<char>> {
    match o {
        Some(s) => Some(s@),
        None => None,
    }
}

impl View for ClaimFields {
    type V = (Option<Seq<char>>, Option<bool>, Option<u64>);

    open spec fn view(&self) -> (Option<Seq<char>>, Option<bool>, Option<u64>) {
        (opt_str_view(self.email), self.clearance, self.exp)
    }
}

pub open spec fn fields_result_view(r: Result<ClaimFields, TokenError>) -> Result<
    (Option<Seq<char>>, Option<bool>, Option<u64>),
    TokenError,
> {
    match r {
        Ok(f) => Ok(f@),
        Err(e) => Err(e),
    }
}

pub open spec fn claims_result_view(r: Result<Claims, TokenError>) -> Result<ClaimsModel, TokenError> {
    match r {
        Ok(c) => Ok(c@),
        Err(e) => Err(e),
    }
}

#[verifier::external_type_specification]
#[verifier::external_body]
pub struct ExJwtError(jsonwebtoken::errors::Error);

/// The decoding result that gives back exactly the fields of some claims.
pub open spec fn fields_of(c: ClaimsModel) -> Result<
    (Option<Seq<char>>, Option<bool>, Option<u64>),
    TokenError,
> {
    Ok((Some(c.email), Some(c.clearance), Some(c.exp)))
}

/// A token's signing input and signature, joined by the separator dot.
pub open spec fn joined(message: Seq<char>, signature: Seq<char>) -> Seq<char> {
    message + seq!['.'] + signature
}

/// The HS512 token that encodes the claims under the secret.
pub uninterp spec fn jwt_encoded(claims: ClaimsModel, secret: Seq<u8>) -> Seq<char>;

/// What decoding a token under the secret gives: the claim fields, or why it failed.
pub uninterp spec fn jwt_decoded(token: Seq<char>, secret: Seq<u8>) -> Result<
    (Option<Seq<char>>, Option<bool>, Option<u64>),
    TokenError,
>;

/// Relies on jsonwebtoken::encode with an HS512 header and the claims as the
/// JSON object {email, clearance, exp}: the token depends on claims and secret
/// alone. It succeeds: encode fails only where the key's family differs from
/// the header's algorithm (an HMAC secret with HS512 does not), serialising the
/// header and a JSON map cannot fail, and HMAC signing always returns a value.
#[verifier::external_body]
fn jwt_encode(c: &Claims, secret: &[u8]) -> (r: Result<String, jsonwebtoken::errors::Error>)
    ensures
        r is Ok,
        r->Ok_0@ == jwt_encoded(c@, secret@),
{
    let claims: serde_json::Map<String, serde_json::Value> = vec![
        ("email".to_owned(), serde_json::Value::from(c.email.as_str())),
        ("clearance".to_owned(), serde_json::Value::from(c.clearance)),
        ("exp".to_owned(), serde_json::Value::from(c.exp)),
    ].into_iter().collect();
    let header = Header::new(Algorithm::HS512);
    jsonwebtoken::encode(&header, &claims, &EncodingKey::from_secret(secret))
}

/// Relies on jsonwebtoken::decode with only HS512 allowed and no claim
/// validation: a header naming another algorithm fails with InvalidAlgorithm,
/// then a signature that does not match fails with InvalidSignature, before
/// any claim is read; every other failure is a malformed token. A token that
/// jsonwebtoken::encode made from a JSON object {email, clearance, exp} under
/// the same secret gives back those three values. The HMAC check re-signs the
/// signing input and compares the result with the token's signature text, so
/// an issued token whose signature text is replaced by any other text without
/// a dot fails with InvalidSignature. Where the new text holds a dot, the token
/// splits at it, the part read as the header keeps the dot of the issued
/// token's signing input, and its base64 decoding fails: a malformed token.
#[verifier::external_body]
fn jwt_decode(token: &str, secret: &[u8]) -> (r: Result<ClaimFields, TokenError>)
    ensures
        fields_result_view(r) == jwt_decoded(token@, secret@),
        forall|c: ClaimsModel|
            #[trigger] jwt_encoded(c, secret@) == token@ ==> fields_result_view(r)
                == fields_of(c),
        forall|c: ClaimsModel, m: Seq<char>, s: Seq<char>, t: Seq<char>|
            #![trigger jwt_encoded(c, secret@), joined(m, s), joined(m, t)]
            jwt_encoded(c, secret@) == joined(m, s) && !s.contains('.') && !t.contains('.')
                && t != s && token@ == joined(m, t) ==> (r matches Err(TokenError::InvalidSignature)),
        forall|c: ClaimsModel, m: Seq<char>, s: Seq<char>, t: Seq<char>|
            #![trigger jwt_encoded(c, secret@), joined(m, s), joined(m, t)]
            jwt_encoded(c, secret@) == joined(m, s) && !s.contains('.') && t.contains('.')
                && token@ == joined(m, t) ==> (r matches Err(TokenError::Malformed)),
{
    let validation = Validation { validate_exp: false, ..Validation::new(Algorithm::HS512) };
    let key = DecodingKey::from_secret(secret);
    match jsonwebtoken::decode::<serde_json::Value>(token, &key, &validation) {
        Ok(data) => Ok(ClaimFields {
            email: data.claims["email"].as_str().map(str::to_owned),
            clearance: data.claims["clearance"].as_bool(),
            exp: data.claims["exp"].as_u64(),
        }),
        Err(e) => Err(match e.kind() {
            ErrorKind::InvalidAlgorithm => TokenError::InvalidAlgorithm,
            ErrorKind::InvalidSignature => TokenError::InvalidSignature,
            _ => TokenError::Malformed,
        }),
    }
}

/// Relies on chrono::Utc::now: the current time, in whole seconds since the epoch.
#[verifier::external_body]
fn unix_now() -> (r: i64) {
    chrono::Utc::now().timestamp()
}

/// The claims that the fields of an authentic token stand for at time `now`:
/// all three must be present, and the token is good only before `exp`.
pub open spec fn claims_at(f: (Option<Seq<char>>, Option<bool>, Option<u64>), now: u64) -> Result<
    ClaimsModel,
    TokenError,
> {
    match f {
        (Some(email), Some(clearance), Some(exp)) => if now < exp {
            Ok(ClaimsModel { email, clearance, exp })
        } else {
            Err(TokenError::Expired)
        },
        _ => Err(TokenError::Malformed),
    }
}

/// What a token parses to at time `now` under the secret: the signature is
/// checked before any claim is looked at, then completeness, then expiry.
pub open spec fn parse_token(token: Seq<char>, now: u64, secret: Seq<u8>) -> Result<
    ClaimsModel,
    TokenError,
> {
    match jwt_decoded(token, secret) {
        Ok(f) => claims_at(f, now),
        Err(e) => Err(e),
    }
}

/// The claims issued for an identity at time `now` with a given lifetime.
pub open spec fn claims_for(user: IdentityModel, now: u64, lifetime: u64) -> ClaimsModel {
    ClaimsModel { email: user.email, clearance: user.clearance, exp: (now + lifetime) as u64 }
}

/// Claims that expired a second ago are refused as expired; claims that
/// expire a second from now are accepted as they are.
pub proof fn lemma_expiry_boundary(email: Seq<char>, clearance: bool, now: u64)
    requires
        0 < now < u64::MAX,
    ensures
        claims_at((Some(email), Some(clearance), Some((now - 1) as u64)), now) matches Err(
            TokenError::Expired,
        ),
        claims_at((Some(email), Some(clearance), Some((now + 1) as u64)), now) matches Ok(c) && c
            == (ClaimsModel { email, clearance, exp: (now + 1) as u64 }),
{
}

/// Turns the fields of an authentic token into claims at time `now`.
pub fn check_claims(fields: ClaimFields, now: u64) -> (r: Result<Claims, TokenError>)
    ensures
        claims_result_view(r) == claims_at(fields@, now),
{
    match fields {
        ClaimFields { email: Some(email), clearance: Some(clearance), exp: Some(exp) } => {
            if now < exp {
                Ok(Claims { email, clearance, exp })
            } else {
                Err(TokenError::Expired)
            }
        },
        _ => Err(TokenError::Malformed),
    }
}

/// What issuing a signed token at time `now` gives: an expiry past the end of
/// `u64` is an internal error; otherwise it succeeds with the token that
/// encodes the claims.
pub open spec fn issued(
    r: Result<String, ServiceError>,
    user: IdentityModel,
    now: u64,
    lifetime: u64,
    secret: Seq<u8>,
) -> bool {
    if now + lifetime <= u64::MAX {
        r is Ok && r->Ok_0@ == jwt_encoded(claims_for(user, now, lifetime), secret)
    } else {
        r matches Err(ServiceError::InternalServerError)
    }
}

/// Issues a signed token for an identity at time `now`, expiring
/// `lifetime_secs` later.
pub fn create_jwt(user_data: &SlimUser, now: u64, lifetime_secs: u64, secret: &[u8]) -> (r: Result<
    String,
    ServiceError,
>)
    ensures
        issued(r, user_data@, now, lifetime_secs, secret@),
{
    if lifetime_secs > u64::MAX - now {
        return Err(ServiceError::InternalServerError);
    }
    let claims = Claims {
        email: user_data.email.clone(),
        clearance: user_data.clearance,
        exp: now + lifetime_secs,
    };
    match jwt_encode(&claims, secret) {
        Ok(t) => Ok(t),
        Err(_) => Err(ServiceError::JsonWebTokenError),
    }
}

/// Parses a signed token at time `now`. A token issued under the same secret
/// for claims `c` parses back to `c` before `c.exp` and is expired from then
/// on. The same token with its signature text replaced by anything else is
/// refused: as `InvalidSignature`, or as `Malformed` where the new text holds
/// a dot.
pub fn decode_jwt(token: &str, now: u64, secret: &[u8]) -> (r: Result<Claims, TokenError>)
    ensures
        claims_result_view(r) == parse_token(token@, now, secret@),
        forall|c: ClaimsModel|
            #[trigger] jwt_encoded(c, secret@) == token@ ==> (if now < c.exp {
                r matches Ok(v) && v@ == c
            } else {
                r matches Err(TokenError::Expired)
            }),
        forall|c: ClaimsModel, m: Seq<char>, s: Seq<char>, t: Seq<char>|
            #![trigger jwt_encoded(c, secret@), joined(m, s), joined(m, t)]
            jwt_encoded(c, secret@) == joined(m, s) && !s.contains('.') && !t.contains('.')
                && t != s && token@ == joined(m, t) ==> (r matches Err(TokenError::InvalidSignature)),
        forall|c: ClaimsModel, m: Seq<char>, s: Seq<char>, t: Seq<char>|
            #![trigger jwt_encoded(c, secret@), joined(m, s), joined(m, t)]
            jwt_encoded(c, secret@) == joined(m, s) && !s.contains('.') && t.contains('.')
                && token@ == joined(m, t) ==> (r matches Err(TokenError::Malformed)),
{
    match jwt_decode(token, secret) {
        Ok(fields) => check_claims(fields, now),
        Err(e) => Err(e),
    }
}

/// The current time in seconds since the epoch, as read from the system clock.
pub(crate) fn current_time() -> (r: u64)
    ensures
        r <= 0x7fff_ffff_ffff_ffff,
{
    let t = unix_now();
    if t < 0 {
        0
    } else {
        t as u64
    }
}

/// Issues a signed token for an identity, expiring `lifetime_secs` after the
/// current time: the result is what `create_jwt` gives at some instant that
/// fits in an `i64`, so it succeeds for any lifetime up to 2^63 seconds.
pub fn issue_token(user_data: &SlimUser, lifetime_secs: u64, secret: &[u8]) -> (r: Result<
    String,
    ServiceError,
>)
    ensures
        exists|now: u64|
            now <= 0x7fff_ffff_ffff_ffff && #[trigger] issued(
                r,
                user_data@,
                now,
                lifetime_secs,
                secret@,
            ),
        lifetime_secs <= 0x8000_0000_0000_0000 ==> r is Ok,
{
    let now = current_time();
    create_jwt(user_data, now, lifetime_secs, secret)
}

} // verus!
