use vstd::prelude::*;
use vstd::string::StringExecFns;

verus! {

/// The failures that the service reports to its callers.
#[derive(Debug, Clone, PartialEq, Eq)]
pub enum ServiceError {
    InternalServerError,
    BadRequest(String),
    Unauthorized,
    NotFound,
    JsonWebTokenError,
    /// An identity that was resolved but lacks the privilege the operation needs.
    Forbidden(String),
}

/// The HTTP status that a failure is reported with.
pub open spec fn status_of(e: ServiceError) -> u16 {
    match e {
        ServiceError::InternalServerError => 500,
        ServiceError::JsonWebTokenError => 500,
        ServiceError::BadRequest(_) => 400,
        ServiceError::NotFound => 404,
        ServiceError::Unauthorized => 401,
        ServiceError::Forbidden(_) => 403,
    }
}

/// The human-readable text of a failure.
pub open spec fn message_of(e: ServiceError) -> Seq<char> {
    match e {
        ServiceError::InternalServerError => "Internal Server Error"@,
        ServiceError::BadRequest(d) => "BadRequest: "@ + d@,
        ServiceError::Unauthorized => "Unauthorized"@,
        ServiceError::NotFound => "NotFound"@,
        ServiceError::JsonWebTokenError => "jsonwebtoken error"@,
        ServiceError::Forbidden(d) => d@,
    }
}

impl ServiceError {
    pub fn status_code(&self) -> (r: u16)
        ensures
            r == status_of(*self),
    {
        match self {
            ServiceError::InternalServerError | ServiceError::JsonWebTokenError => 500,
            ServiceError::BadRequest(_) => 400,
            ServiceError::NotFound => 404,
            ServiceError::Unauthorized => 401,
            ServiceError::Forbidden(_) => 403,
        }
    }

    pub fn message(&self) -> (r: String)
        ensures
            r@ == message_of(*self),
    {
        match self {
            ServiceError::InternalServerError => String::from_str("Internal Server Error"),
            ServiceError::BadRequest(d) => String::from_str("BadRequest: ").concat(d.as_str()),
            ServiceError::Unauthorized => String::from_str("Unauthorized"),
            ServiceError::NotFound => String::from_str("NotFound"),
            ServiceError::JsonWebTokenError => String::from_str("jsonwebtoken error"),
            ServiceError::Forbidden(d) => d.clone(),
        }
    }

    /// The failure that a rejected database write is reported as: a broken
    /// uniqueness constraint is the caller's fault and carries the store's
    /// detail text (its message where it gave no detail); anything else is
    /// an internal failure.
    pub fn from_database(unique_violation: bool, details: Option<String>, message: String) -> (r:
        ServiceError)
        ensures
            !unique_violation ==> r == ServiceError::InternalServerError,
            unique_violation ==> r is BadRequest,
            unique_violation ==> (r->BadRequest_0)@ == match details {
                Some(d) => d@,
                None => message@,
            },
    {
        if unique_violation {
            match details {
                Some(d) => ServiceError::BadRequest(d),
                None => ServiceError::BadRequest(message),
            }
        } else {
            ServiceError::InternalServerError
        }
    }
}

} // verus!
