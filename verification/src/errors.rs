//! The closed error taxonomy of the core.
//!
//! Every failure inside the core is converted to one of these kinds at the
//! orchestration boundary; no underlying database or crypto error crosses it.

use vstd::prelude::*;

verus! {

/// The error kinds that the core surfaces to its callers.
#[derive(Clone, Copy, Debug, PartialEq, Eq, Structural)]
pub enum AuthError {
    /// Duplicate registration: username or email already taken.
    Conflict,
    /// Login with an unknown username.
    NotFound,
    /// Login with a wrong password.
    Unauthorized,
    /// Bad, expired or malformed token; deliberately undifferentiated.
    Verification,
    /// Valid token, but the acting role does not allow the operation.
    Authorization,
    /// Store, hashing or signing failure.
    Internal,
}

/// The HTTP status class that each error kind maps onto.
pub open spec fn spec_status_code(e: AuthError) -> u16 {
    match e {
        AuthError::Conflict => 409,
        AuthError::NotFound => 404,
        AuthError::Unauthorized => 401,
        AuthError::Verification => 401,
        AuthError::Authorization => 403,
        AuthError::Internal => 500,
    }
}

impl AuthError {
    /// The HTTP status code for this error kind.
    pub fn status_code(&self) -> (r: u16)
        ensures
            r == spec_status_code(*self),
    {
        match self {
            AuthError::Conflict => 409,
            AuthError::NotFound => 404,
            AuthError::Unauthorized => 401,
            AuthError::Verification => 401,
            AuthError::Authorization => 403,
            AuthError::Internal => 500,
        }
    }

    /// A short description of this error kind.
    pub fn message(&self) -> (r: &'static str)
        ensures
            r@ == spec_error_message(*self),
    {
        match self {
            AuthError::Conflict => "Username or email already exists",
            AuthError::NotFound => "User not found",
            AuthError::Unauthorized => "Invalid username or password",
            AuthError::Verification => "Invalid token",
            AuthError::Authorization => "Insufficient role",
            AuthError::Internal => "Internal server error",
        }
    }
}

/// The description that `message` returns for each error kind.
pub open spec fn spec_error_message(e: AuthError) -> Seq<char> {
    match e {
        AuthError::Conflict => "Username or email already exists"@,
        AuthError::NotFound => "User not found"@,
        AuthError::Unauthorized => "Invalid username or password"@,
        AuthError::Verification => "Invalid token"@,
        AuthError::Authorization => "Insufficient role"@,
        AuthError::Internal => "Internal server error"@,
    }
}

} // verus!
