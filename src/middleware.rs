use vstd::prelude::*;
use vstd::string::StrSliceExecFns;

use crate::hasher::HashParams;
use crate::models::{identity_of, IdentityModel, SlimUser};
use crate::session::{parse_session, session_identity};
use crate::text::{same_text, trim, trimmed};
use crate::token::{current_time, decode_jwt, opt_str_view, parse_token};

verus! {

/// Which session credential a deployment uses; exactly one is active.
#[derive(Clone, Copy, Debug, PartialEq, Eq, Structural)]
pub enum Codec {
    /// Self-contained HS512 tokens carried as `Authorization: Bearer <token>`.
    SignedClaims,
    /// An identity blob carried by the transport (a cookie) that bounds its lifetime.
    OpaqueSession,
}

/// Process-wide configuration, loaded once at startup and never changed.
#[derive(Debug, Clone, PartialEq, Eq)]
pub struct AuthConfig {
    /// Secret key and salt of password hashing; the key also signs tokens.
    pub hash: HashParams,
    /// How long an issued token or session stays acceptable, in seconds.
    pub lifetime_secs: u64,
    pub codec: Codec,
}

impl AuthConfig {
    /// A copy of the configuration, for each worker that needs its own.
    pub fn duplicate(&self) -> (r: AuthConfig)
        ensures
            r.hash.secret_key@ == self.hash.secret_key@,
            r.hash.salt@ == self.hash.salt@,
            r.lifetime_secs == self.lifetime_secs,
            r.codec == self.codec,
    {
        AuthConfig {
            hash: HashParams {
                secret_key: vstd::slice::slice_to_vec(self.hash.secret_key.as_slice()),
                salt: vstd::slice::slice_to_vec(self.hash.salt.as_slice()),
            },
            lifetime_secs: self.lifetime_secs,
            codec: self.codec,
        }
    }
}

/// What the guard reads of an incoming request.
#[derive(Debug, Clone, PartialEq, Eq)]
pub struct RequestHead {
    pub path: String,
    pub method: String,
    /// The `Authorization` header, where present and readable as text.
    pub authorization: Option<String>,
    /// The session blob that the transport carried, where present.
    pub session: Option<String>,
}

pub struct RequestModel {
    pub path: Seq<char>,
    pub method: Seq<char>,
    pub authorization: Option<Seq<char>>,
    pub session: Option<Seq<char>>,
}

impl View for RequestHead {
    type V = RequestModel;

    open spec fn view(&self) -> RequestModel {
        RequestModel {
            path: self.path@,
            method: self.method@,
            authorization: opt_str_view(self.authorization),
            session: opt_str_view(self.session),
        }
    }
}

/// The guard's verdict on one request.
#[derive(Debug, Clone, PartialEq, Eq)]
pub enum Decision {
    /// Pass on without an identity (an endpoint open to anonymous callers).
    Proceed,
    /// Pass on with this identity attached to the request's context.
    Attach(SlimUser),
    /// Answer 401 without reaching a handler.
    Reject,
}

pub enum DecisionModel {
    Proceed,
    Attach(IdentityModel),
    Reject,
}

impl View for Decision {
    type V = DecisionModel;

    open spec fn view(&self) -> DecisionModel {
        match self {
            Decision::Proceed => DecisionModel::Proceed,
            Decision::Attach(u) => DecisionModel::Attach(u@),
            Decision::Reject => DecisionModel::Reject,
        }
    }
}

/// Registration and login are the endpoints open without a credential.
pub open spec fn is_open_endpoint(path: Seq<char>, method: Seq<char>) -> bool {
    method == "POST"@ && (path == "/users"@ || path == "/auth"@)
}

pub open spec fn either_case(c: char, lower: char, upper: char) -> bool {
    c == lower || c == upper
}

/// The header starts with the scheme word `bearer`, in any letter case.
pub open spec fn bearer_scheme(h: Seq<char>) -> bool {
    &&& h.len() >= 6
    &&& either_case(h[0], 'b', 'B')
    &&& either_case(h[1], 'e', 'E')
    &&& either_case(h[2], 'a', 'A')
    &&& either_case(h[3], 'r', 'R')
    &&& either_case(h[4], 'e', 'E')
    &&& either_case(h[5], 'r', 'R')
}

/// The token of a bearer header: what follows the scheme word, trimmed.
pub open spec fn bearer_token(h: Seq<char>) -> Option<Seq<char>> {
    if bearer_scheme(h) {
        Some(trim(h.subrange(6, h.len() as int)))
    } else {
        None
    }
}

/// The identity that a request's credential establishes under the active
/// codec at time `now`, or `None` where it is missing or not accepted.
pub open spec fn request_identity(codec: Codec, secret: Seq<u8>, req: RequestModel, now: u64) -> Option<
    IdentityModel,
> {
    match codec {
        Codec::SignedClaims => match req.authorization {
            Some(h) => match bearer_token(h) {
                Some(t) => match parse_token(t, now, secret) {
                    Ok(c) => Some(identity_of(c)),
                    Err(_) => None,
                },
                None => None,
            },
            None => None,
        },
        Codec::OpaqueSession => match req.session {
            Some(b) => session_identity(b),
            None => None,
        },
    }
}

/// How a request is handled. Requests to an open endpoint proceed and no
/// credential is read for them. Any other request proceeds only with the
/// identity that its credential establishes; without one it is rejected.
pub open spec fn decision(codec: Codec, secret: Seq<u8>, req: RequestModel, now: u64) -> DecisionModel {
    if is_open_endpoint(req.path, req.method) {
        DecisionModel::Proceed
    } else {
        match request_identity(codec, secret, req, now) {
            Some(id) => DecisionModel::Attach(id),
            None => DecisionModel::Reject,
        }
    }
}

fn either_case_char(c: char, lower: char, upper: char) -> (r: bool)
    ensures
        r == either_case(c, lower, upper),
{
    c == lower || c == upper
}

/// The token of an `Authorization` header that uses the bearer scheme.
pub fn extract_bearer(header: &str) -> (r: Option<String>)
    ensures
        opt_str_view(r) == bearer_token(header@),
{
    let n = header.unicode_len();
    if n < 6 {
        return None;
    }
    if !(either_case_char(header.get_char(0), 'b', 'B') && either_case_char(header.get_char(1), 'e', 'E')
        && either_case_char(header.get_char(2), 'a', 'A') && either_case_char(header.get_char(3), 'r', 'R')
        && either_case_char(header.get_char(4), 'e', 'E') && either_case_char(header.get_char(5), 'r', 'R')) {
        return None;
    }
    Some(trimmed(header.substring_char(6, n)))
}

fn is_open_request(path: &str, method: &str) -> (r: bool)
    ensures
        r == is_open_endpoint(path@, method@),
{
    same_text(method, "POST") && (same_text(path, "/users") || same_text(path, "/auth"))
}

/// The request guard; it holds the configuration that decides what a
/// credential is worth.
pub struct Auth {
    pub config: AuthConfig,
}

/// The guard placed in front of a service.
pub struct AuthMiddleware<S> {
    pub service: S,
    pub auth: Auth,
}

impl Auth {
    pub fn new(config: AuthConfig) -> (r: Auth)
        ensures
            r.config == config,
    {
        Auth { config }
    }

    /// Puts a copy of this guard in front of a service.
    pub fn new_transform<S>(&self, service: S) -> (r: AuthMiddleware<S>)
        ensures
            r.service == service,
            r.auth.config.hash.secret_key@ == self.config.hash.secret_key@,
            r.auth.config.hash.salt@ == self.config.hash.salt@,
            r.auth.config.lifetime_secs == self.config.lifetime_secs,
            r.auth.config.codec == self.config.codec,
    {
        AuthMiddleware { service, auth: Auth { config: self.config.duplicate() } }
    }

    /// The verdict on a request at time `now`.
    pub fn decide(&self, req: &RequestHead, now: u64) -> (r: Decision)
        ensures
            r@ == decision(self.config.codec, self.config.hash.secret_key@, req@, now),
    {
        if is_open_request(req.path.as_str(), req.method.as_str()) {
            return Decision::Proceed;
        }
        let identity = match self.config.codec {
            Codec::SignedClaims => match &req.authorization {
                Some(h) => match extract_bearer(h.as_str()) {
                    Some(t) => match decode_jwt(t.as_str(), now, self.config.hash.secret_key.as_slice()) {
                        Ok(c) => Some(SlimUser::from_claims(&c)),
                        Err(_) => None,
                    },
                    None => None,
                },
                None => None,
            },
            Codec::OpaqueSession => match &req.session {
                Some(b) => parse_session(b.as_str()),
                None => None,
            },
        };
        match identity {
            Some(u) => Decision::Attach(u),
            None => Decision::Reject,
        }
    }
}

impl<S> AuthMiddleware<S> {
    /// The verdict on a request now, by the system clock. Whatever the clock
    /// reads, it is the verdict at some instant, and open endpoints always pass.
    pub fn call(&self, req: &RequestHead) -> (r: Decision)
        ensures
            exists|now: u64|
                r@ == #[trigger] decision(self.auth.config.codec, self.auth.config.hash.secret_key@, req@, now),
            is_open_endpoint(req.path@, req.method@) ==> r@ == DecisionModel::Proceed,
    {
        let now = current_time();
        self.auth.decide(req, now)
    }
}

/// The body of the 401 answer to a rejected request.
pub fn rejection_body() -> (r: &'static str)
    ensures
        r@ == "{\"error\":\"Unauthorized\",\"msg\":\"please login\"}"@,
{
    "{\"error\":\"Unauthorized\",\"msg\":\"please login\"}"
}

/// Open endpoints pass without any credential; everywhere else a request whose
/// credential establishes no identity is rejected, and one that does passes
/// with exactly that identity.
pub proof fn lemma_guard(codec: Codec, secret: Seq<u8>, req: RequestModel, now: u64)
    ensures
        is_open_endpoint(req.path, req.method) ==> decision(codec, secret, req, now)
            == DecisionModel::Proceed,
        !is_open_endpoint(req.path, req.method) && request_identity(codec, secret, req, now) is None
            ==> decision(codec, secret, req, now) == DecisionModel::Reject,
        !is_open_endpoint(req.path, req.method) && request_identity(codec, secret, req, now) is Some
            ==> decision(codec, secret, req, now) == DecisionModel::Attach(
            request_identity(codec, secret, req, now)->0,
        ),
{
}

} // verus!
