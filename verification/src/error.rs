//! The outcomes that end a request early, and the HTTP status each one maps to.

use vstd::prelude::*;

verus! {

/// Why a request was not served.
#[derive(Clone, Copy, Debug, PartialEq, Eq, Structural)]
pub enum AuthError {
    /// Unknown email or wrong password; the two are never told apart.
    InvalidCredentials,
    /// No session cookie, or one that names no live session or no existing user.
    Unauthenticated,
    /// The email is already registered.
    EmailTaken,
    /// The password could not be hashed.
    HashingFailed,
    /// A stored hash string could not be parsed.
    MalformedHash,
    /// The session store could not be reached.
    StoreUnavailable,
    /// Any other failure of the user store.
    Unknown,
}

impl AuthError {
    /// The HTTP status code that reports this error.
    pub open spec fn status(self) -> u16 {
        match self {
            AuthError::InvalidCredentials => 401,
            AuthError::Unauthenticated => 401,
            AuthError::EmailTaken => 409,
            AuthError::HashingFailed => 500,
            AuthError::MalformedHash => 500,
            AuthError::StoreUnavailable => 500,
            AuthError::Unknown => 500,
        }
    }

    /// Whether the error is reported to the client as it is, rather than as
    /// a generic internal error.
    pub open spec fn is_user_facing(self) -> bool {
        self == AuthError::InvalidCredentials || self == AuthError::Unauthenticated || self
            == AuthError::EmailTaken
    }

    /// The HTTP status code that reports this error.
    pub fn status_code(&self) -> (code: u16)
        ensures
            code == self.status(),
            self.is_user_facing() <==> code != 500,
    {
        match self {
            AuthError::InvalidCredentials => 401,
            AuthError::Unauthenticated => 401,
            AuthError::EmailTaken => 409,
            AuthError::HashingFailed => 500,
            AuthError::MalformedHash => 500,
            AuthError::StoreUnavailable => 500,
            AuthError::Unknown => 500,
        }
    }
}

} // verus!
