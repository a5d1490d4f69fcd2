use vstd::prelude::*;
use vstd::string::StringExecFns;

use crate::errors::ServiceError;
use crate::hasher::{hash_password, password_digest, password_verdict, verify_hash, HashParams};
use crate::middleware::{AuthConfig, Codec};
use crate::models::{
    Credential, IdentityModel, SlimUser, UserChange, UserData, UserInsert,
};
use crate::session::{issue_session, session_blob};
use crate::number::{parse_i64, parse_i64_value};
use crate::text::same_text;
use crate::token::{issue_token, issued};

verus! {

/// What a handler is about to do on behalf of an identity.
#[derive(Debug, Clone, PartialEq, Eq)]
pub enum Operation {
    /// Act on the account with this email; allowed only on one's own.
    SelfService(String),
    /// Account-type changes, cross-user reads, listing all accounts.
    Privileged,
}

pub enum OperationModel {
    SelfService(Seq<char>),
    Privileged,
}

impl View for Operation {
    type V = OperationModel;

    open spec fn view(&self) -> OperationModel {
        match self {
            Operation::SelfService(t) => OperationModel::SelfService(t@),
            Operation::Privileged => OperationModel::Privileged,
        }
    }
}

/// Whether an identity may perform an operation: a self-service operation only
/// on its own account, a privileged one only as an administrator.
pub open spec fn may_perform(id: IdentityModel, op: OperationModel) -> bool {
    match op {
        OperationModel::SelfService(target) => target == id.email,
        OperationModel::Privileged => id.clearance,
    }
}

pub fn can_perform(identity: &SlimUser, operation: &Operation) -> (r: bool)
    ensures
        r == may_perform(identity@, operation@),
{
    match operation {
        Operation::SelfService(target) => same_text(target.as_str(), identity.email.as_str()),
        Operation::Privileged => identity.clearance,
    }
}

/// The text of the refusal of a privileged operation to an ordinary user.
pub open spec fn admin_only_text() -> Seq<char> {
    "only admins can access this route"@
}

/// Lets an operation go ahead, or says why not: a privileged operation refused
/// to an ordinary user is `Forbidden` with an explanation, a self-service
/// operation on another account is `Unauthorized`.
pub fn authorize_operation(identity: &SlimUser, operation: &Operation) -> (r: Result<(), ServiceError>)
    ensures
        r is Ok <==> may_perform(identity@, operation@),
        !may_perform(identity@, operation@) && operation@ is Privileged ==> (r matches Err(
            ServiceError::Forbidden(m),
        ) && m@ == admin_only_text()),
        !may_perform(identity@, operation@) && operation@ is SelfService ==> (r matches Err(
            ServiceError::Unauthorized,
        )),
{
    if can_perform(identity, operation) {
        Ok(())
    } else {
        match operation {
            Operation::Privileged => Err(
                ServiceError::Forbidden(String::from_str("only admins can access this route")),
            ),
            Operation::SelfService(_) => Err(ServiceError::Unauthorized),
        }
    }
}

/// Lets an identity read the account with the given email: its own account,
/// or any account as an administrator; any other read is `Forbidden`.
pub fn authorize_read(identity: &SlimUser, target_email: &str) -> (r: Result<(), ServiceError>)
    ensures
        r is Ok <==> (may_perform(identity@, OperationModel::SelfService(target_email@))
            || may_perform(identity@, OperationModel::Privileged)),
        r is Err ==> (r matches Err(ServiceError::Forbidden(m)) && m@ == admin_only_text()),
{
    if can_perform(identity, &Operation::SelfService(String::from_str(target_email))) {
        Ok(())
    } else {
        authorize_operation(identity, &Operation::Privileged)
    }
}

/// A privileged operation is allowed exactly to administrators, and a
/// self-service operation on another account is refused whatever the
/// identity's privilege.
pub proof fn lemma_privilege_guard(id: IdentityModel, target: Seq<char>)
    ensures
        !id.clearance ==> !may_perform(id, OperationModel::Privileged),
        id.clearance ==> may_perform(id, OperationModel::Privileged),
        target != id.email ==> !may_perform(id, OperationModel::SelfService(target)),
        may_perform(id, OperationModel::SelfService(id.email)),
{
}

/// Checks a login against what the store holds for the email: it succeeds
/// with the account's identity exactly when an account was found and the
/// password matches its stored hash. No account, or a mismatch, is
/// `Unauthorized`; a stored hash that cannot be read is a hashing failure and
/// comes back as `InternalServerError`. A stored hash that `hash_password`
/// made from the same password always matches.
pub fn check_login(stored: Option<Credential>, password: &str, params: &HashParams) -> (r: Result<
    SlimUser,
    ServiceError,
>)
    ensures
        r is Ok <==> stored is Some && password_verdict(
            stored->0.password_hash@,
            password@,
            params.secret_key@,
        ) == Some(true),
        r is Ok ==> r->Ok_0@ == (IdentityModel {
            email: stored->0.email@,
            clearance: stored->0.clearance,
        }),
        stored is None ==> (r matches Err(ServiceError::Unauthorized)),
        stored is Some && password_verdict(stored->0.password_hash@, password@, params.secret_key@)
            == Some(false) ==> (r matches Err(ServiceError::Unauthorized)),
        stored is Some && password_verdict(stored->0.password_hash@, password@, params.secret_key@)
            is None ==> (r matches Err(ServiceError::InternalServerError)),
        forall|salt: Seq<u8>|
            stored is Some && #[trigger] password_digest(password@, salt, params.secret_key@) == Some(
                stored->0.password_hash@,
            ) ==> r is Ok,
{
    match stored {
        Some(c) => {
            if verify_hash(c.password_hash.as_str(), password, params)? {
                Ok(SlimUser::from_credential(&c))
            } else {
                Err(ServiceError::Unauthorized)
            }
        },
        None => Err(ServiceError::Unauthorized),
    }
}

/// Issues the session credential of the active codec for an identity that
/// has just logged in: a signed token that expires `lifetime_secs` after the
/// current time, or an opaque session blob. Issuing succeeds for any lifetime
/// up to 2^63 seconds.
pub fn issue_credential(user: &SlimUser, config: &AuthConfig) -> (r: Result<String, ServiceError>)
    ensures
        config.codec == Codec::OpaqueSession ==> (r matches Ok(b) && b@ == session_blob(user@)),
        config.codec == Codec::SignedClaims ==> exists|now: u64|
            now <= 0x7fff_ffff_ffff_ffff && #[trigger] issued(
                r,
                user@,
                now,
                config.lifetime_secs,
                config.hash.secret_key@,
            ),
        config.codec == Codec::SignedClaims && config.lifetime_secs <= 0x8000_0000_0000_0000
            ==> r is Ok,
{
    match config.codec {
        Codec::SignedClaims => issue_token(user, config.lifetime_secs, config.hash.secret_key.as_slice()),
        Codec::OpaqueSession => Ok(issue_session(user)),
    }
}

/// A registration as it is written to the store, with the password hashed.
pub fn prepare_insert(user_data: UserData, params: &HashParams) -> (r: Result<UserInsert, ServiceError>)
    ensures
        match password_digest(user_data.password@, params.salt@, params.secret_key@) {
            Some(h) => r matches Ok(u) && u.name@ == user_data.name@ && u.email@
                == user_data.email@ && u.password@ == h,
            None => r matches Err(ServiceError::InternalServerError),
        },
{
    let password = hash_password(user_data.password.as_str(), params)?;
    Ok(UserInsert { name: user_data.name, email: user_data.email, password })
}

/// An account update as it is written to the store: a new password is hashed,
/// the other fields pass unchanged.
pub fn prepare_update(updates: UserChange, params: &HashParams) -> (r: Result<UserChange, ServiceError>)
    ensures
        match updates.password {
            None => r matches Ok(u) && u == updates,
            Some(p) => match password_digest(p@, params.salt@, params.secret_key@) {
                Some(h) => r matches Ok(u) && u.name == updates.name && u.email == updates.email
                    && u.password is Some && u.password->0@ == h,
                None => r matches Err(ServiceError::InternalServerError),
            },
        },
{
    match updates.password {
        None => Ok(updates),
        Some(p) => {
            let hashed = hash_password(p.as_str(), params)?;
            Ok(UserChange { name: updates.name, email: updates.email, password: Some(hashed) })
        },
    }
}

/// The account id named in a request path; anything that is not a decimal
/// `i64` is refused as `BadRequest("invalid id")`.
pub fn user_id_from_path(raw: &str) -> (r: Result<i64, ServiceError>)
    ensures
        match parse_i64_value(raw@) {
            Some(v) => r matches Ok(id) && id == v,
            None => r matches Err(ServiceError::BadRequest(m)) && m@ == "invalid id"@,
        },
{
    match parse_i64(raw) {
        Some(v) => Ok(v),
        None => Err(ServiceError::BadRequest(String::from_str("invalid id"))),
    }
}

/// The account whose type an identity asks to toggle: only an administrator
/// may (else `Forbidden`), and the id must be a decimal `i64` (else
/// `BadRequest("invalid user id")`).
pub fn account_change_target(identity: &SlimUser, raw_id: &str) -> (r: Result<i64, ServiceError>)
    ensures
        !identity.clearance ==> (r matches Err(ServiceError::Forbidden(m)) && m@
            == admin_only_text()),
        identity.clearance ==> match parse_i64_value(raw_id@) {
            Some(v) => r matches Ok(id) && id == v,
            None => r matches Err(ServiceError::BadRequest(m)) && m@ == "invalid user id"@,
        },
{
    authorize_operation(identity, &Operation::Privileged)?;
    match parse_i64(raw_id) {
        Some(v) => Ok(v),
        None => Err(ServiceError::BadRequest(String::from_str("invalid user id"))),
    }
}

/// The new privilege flag of an account whose type is toggled, and the
/// message that reports the change.
pub fn account_type_change(current_clearance: bool) -> (r: (bool, String))
    ensures
        r.0 == !current_clearance,
        r.1@ == if current_clearance {
            "change account type from admin to normal user"@
        } else {
            "change account type from normal user to admin"@
        },
{
    if current_clearance {
        (false, String::from_str("change account type from admin to normal user"))
    } else {
        (true, String::from_str("change account type from normal user to admin"))
    }
}

/// The message that reports an account deletion that removed `rows` records.
pub fn deletion_message(rows: usize) -> (r: &'static str)
    ensures
        r@ == if rows > 0 {
            "account deleted successfully"@
        } else {
            "could not delete account"@
        },
{
    if rows > 0 {
        "account deleted successfully"
    } else {
        "could not delete account"
    }
}

/// The record a lookup settles on: the last of the rows found, or `NotFound`.
pub fn last_match<T>(rows: Vec<T>) -> (r: Result<T, ServiceError>)
    ensures
        rows@.len() > 0 ==> (r matches Ok(t) && t == rows@.last()),
        rows@.len() == 0 ==> (r matches Err(ServiceError::NotFound)),
{
    let mut rows = rows;
    match rows.pop() {
        Some(t) => Ok(t),
        None => Err(ServiceError::NotFound),
    }
}

} // verus!
