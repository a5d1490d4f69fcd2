use vstd::prelude::*;

verus! {

/// The identity attributes that authorization decisions read.
#[derive(Debug, Clone, PartialEq, Eq)]
pub struct SlimUser {
    pub email: String,
    /// True for administrators, false for ordinary users.
    pub clearance: bool,
}

/// What the store holds for a login: the email, the encoded password hash,
/// and the privilege flag of the account.
#[derive(Debug, Clone, PartialEq, Eq)]
pub struct Credential {
    pub email: String,
    pub password_hash: String,
    pub clearance: bool,
}

/// The claims that a signed token carries; `exp` is in seconds since the epoch.
#[derive(Debug, Clone, PartialEq, Eq)]
pub struct Claims {
    pub email: String,
    pub clearance: bool,
    pub exp: u64,
}

/// Login input.
#[derive(Debug, Clone, PartialEq, Eq)]
pub struct AuthData {
    pub email: String,
    pub password: String,
}

/// Registration input.
#[derive(Debug, Clone, PartialEq, Eq)]
pub struct UserData {
    pub name: String,
    pub email: String,
    pub password: String,
}

/// A new account as it is written to the store: the password is already hashed.
#[derive(Debug, Clone, PartialEq, Eq)]
pub struct UserInsert {
    pub name: String,
    pub email: String,
    pub password: String,
}

/// A partial update of an account; absent fields stay as they are.
#[derive(Debug, Clone, PartialEq, Eq)]
pub struct UserChange {
    pub name: Option<String>,
    pub email: Option<String>,
    pub password: Option<String>,
}

/// Mathematical model of an identity.
pub struct IdentityModel {
    pub email: Seq<char>,
    pub clearance: bool,
}

/// Mathematical model of signed claims.
pub struct ClaimsModel {
    pub email: Seq<char>,
    pub clearance: bool,
    pub exp: u64,
}

impl View for SlimUser {
    type V = IdentityModel;

    open spec fn view(&self) -> IdentityModel {
        IdentityModel { email: self.email@, clearance: self.clearance }
    }
}

impl View for Claims {
    type V = ClaimsModel;

    open spec fn view(&self) -> ClaimsModel {
        ClaimsModel { email: self.email@, clearance: self.clearance, exp: self.exp }
    }
}

/// The identity that claims stand for.
pub open spec fn identity_of(c: ClaimsModel) -> IdentityModel {
    IdentityModel { email: c.email, clearance: c.clearance }
}

impl SlimUser {
    /// The identity carried by a store record.
    pub fn from_credential(c: &Credential) -> (r: SlimUser)
        ensures
            r@ == (IdentityModel { email: c.email@, clearance: c.clearance }),
    {
        SlimUser { email: c.email.clone(), clearance: c.clearance }
    }

    /// The identity that verified claims stand for.
    pub fn from_claims(c: &Claims) -> (r: SlimUser)
        ensures
            r@ == identity_of(c@),
    {
        SlimUser { email: c.email.clone(), clearance: c.clearance }
    }
}

impl UserInsert {
    pub fn from_details(name: &str, email: &str, password: &str) -> (r: UserInsert)
        ensures
            r.name@ == name@,
            r.email@ == email@,
            r.password@ == password@,
    {
        UserInsert { name: name.to_owned(), email: email.to_owned(), password: password.to_owned() }
    }
}

} // verus!
