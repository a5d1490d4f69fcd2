use vstd::prelude::*;
use vstd::utf8::encode_utf8;

use crate::errors::ServiceError;

verus! {

/// Process-wide parameters of password hashing, fixed at startup.
#[derive(Debug, Clone, PartialEq, Eq)]
pub struct HashParams {
    pub secret_key: Vec<u8>,
    pub salt: Vec<u8>,
}

#[verifier::external_type_specification]
#[verifier::external_body]
pub struct ExArgon2Error(argon2::Error);

/// The encoded Argon2 hash of a password under a salt and a secret, or `None`
/// where the parameters are out of the algorithm's range.
pub uninterp spec fn argon2_encoded(pwd: Seq<u8>, salt: Seq<u8>, secret: Seq<u8>) -> Option<Seq<char>>;

/// Whether a password matches an encoded Argon2 hash under a secret, or `None`
/// where the encoding cannot be read.
pub uninterp spec fn argon2_verdict(encoded: Seq<char>, pwd: Seq<u8>, secret: Seq<u8>) -> Option<bool>;

/// Relies on argon2::hash_encoded with the crate's default configuration and
/// the given secret: the encoding depends on password, salt and secret alone.
/// With the default lanes, memory and time costs, Context::new refuses only a
/// salt under 8 bytes or a password, salt or secret over u32::MAX bytes.
#[verifier::external_body]
fn argon2_hash(pwd: &[u8], salt: &[u8], secret: &[u8]) -> (r: Result<String, argon2::Error>)
    ensures
        r is Ok <==> argon2_encoded(pwd@, salt@, secret@) is Some,
        r is Ok ==> r->Ok_0@ == argon2_encoded(pwd@, salt@, secret@)->0,
        r is Ok <==> (8 <= salt@.len() <= 0xFFFF_FFFF && pwd@.len() <= 0xFFFF_FFFF
            && secret@.len() <= 0xFFFF_FFFF),
{
    let config = argon2::Config { secret, ..argon2::Config::default() };
    argon2::hash_encoded(pwd, salt, &config)
}

/// Relies on argon2::verify_encoded_ext with no associated data: it decodes the
/// parameters, salt and hash from the encoding and recomputes the hash, so an
/// encoding that argon2::hash_encoded produced for this password and secret
/// verifies as a match. An encoding that it produced for any password under
/// this secret decodes, and its parameters pass the same checks again, so the
/// verdict is a plain match or mismatch, never an error.
#[verifier::external_body]
fn argon2_verify(encoded: &str, pwd: &[u8], secret: &[u8]) -> (r: Result<bool, argon2::Error>)
    ensures
        r is Ok <==> argon2_verdict(encoded@, pwd@, secret@) is Some,
        r is Ok ==> r->Ok_0 == argon2_verdict(encoded@, pwd@, secret@)->0,
        forall|salt: Seq<u8>|
            #[trigger] argon2_encoded(pwd@, salt, secret@) == Some(encoded@) ==> (r is Ok
                && r->Ok_0),
        forall|other: Seq<u8>, salt: Seq<u8>|
            #[trigger] argon2_encoded(other, salt, secret@) == Some(encoded@) && pwd@.len()
                <= 0xFFFF_FFFF ==> r is Ok,
{
    argon2::verify_encoded_ext(encoded, pwd, secret, &[])
}

/// The stored digest of a password: its UTF-8 bytes hashed under the salt and secret.
pub open spec fn password_digest(passwd: Seq<char>, salt: Seq<u8>, secret: Seq<u8>) -> Option<
    Seq<char>,
> {
    argon2_encoded(encode_utf8(passwd), salt, secret)
}

/// Whether a password matches a stored digest; `None` for a digest that cannot be read.
pub open spec fn password_verdict(digest: Seq<char>, passwd: Seq<char>, secret: Seq<u8>) -> Option<
    bool,
> {
    argon2_verdict(digest, encode_utf8(passwd), secret)
}

/// Hashes a password with the configured salt and secret. A failure of the
/// algorithm (a salt under 8 bytes, or an input over `u32::MAX` bytes) is an
/// internal error; the password's content never causes one.
pub fn hash_password(passwd: &str, params: &HashParams) -> (r: Result<String, ServiceError>)
    ensures
        match password_digest(passwd@, params.salt@, params.secret_key@) {
            Some(h) => r is Ok && r->Ok_0@ == h,
            None => r matches Err(ServiceError::InternalServerError),
        },
        r is Ok <==> (8 <= params.salt@.len() <= 0xFFFF_FFFF && encode_utf8(passwd@).len()
            <= 0xFFFF_FFFF && params.secret_key@.len() <= 0xFFFF_FFFF),
{
    match argon2_hash(passwd.as_bytes(), params.salt.as_slice(), params.secret_key.as_slice()) {
        Ok(h) => Ok(h),
        Err(_) => Err(ServiceError::InternalServerError),
    }
}

/// Checks a password against a stored digest. A mismatch is `Ok(false)`; a
/// digest that cannot be read is a hashing failure, `InternalServerError`. A
/// digest that `hash_password` produced under the same secret is always read,
/// and it matches the password it was made from.
pub fn verify_hash(hash: &str, passwd: &str, params: &HashParams) -> (r: Result<bool, ServiceError>)
    ensures
        match password_verdict(hash@, passwd@, params.secret_key@) {
            Some(b) => r matches Ok(v) && v == b,
            None => r matches Err(ServiceError::InternalServerError),
        },
        forall|other: Seq<char>, salt: Seq<u8>|
            #[trigger] password_digest(other, salt, params.secret_key@) == Some(hash@)
                && encode_utf8(passwd@).len() <= 0xFFFF_FFFF ==> r is Ok,
        forall|salt: Seq<u8>|
            #[trigger] password_digest(passwd@, salt, params.secret_key@) == Some(hash@) ==> (r matches Ok(
                true,
            )),
{
    let r = argon2_verify(hash, passwd.as_bytes(), params.secret_key.as_slice());
    match r {
        Ok(b) => Ok(b),
        Err(_) => Err(ServiceError::InternalServerError),
    }
}

} // verus!
