//! Error taxonomy of the subsystem. Codec failures are tagged variants so
//! that callers never have to inspect error text; service failures separate
//! caller-recoverable outcomes from backend unavailability and from the fatal
//! startup condition of a missing signing key.
use vstd::prelude::*;

verus! {

/// Outcome of rejecting a presented token.
#[derive(Clone, Copy, PartialEq, Eq, Structural, Debug)]
pub enum TokenError {
    /// The string is not a token this codec can have produced.
    Malformed,
    /// The signature does not match the shared secret.
    InvalidSignature,
    /// Signature and shape are right but the validity window has passed.
    Expired,
}

/// Failure of a login, refresh, or identity check.
#[derive(Clone, Copy, PartialEq, Eq, Structural, Debug)]
pub enum AuthError {
    /// Malformed request: neither login key was supplied.
    InputError,
    /// Unknown user or wrong password.
    InvalidCredentials,
    /// A presented token failed signature or shape checks.
    InvalidToken,
    /// A presented token has passed its validity window.
    ExpiredToken,
    /// A refresh token that verified but is not on file.
    UnknownToken,
    /// A store or cache backend could not be reached.
    BackendUnavailable,
    /// The signing capability is unavailable; fatal at startup.
    InternalSigningError,
}

impl TokenError {
    /// Short description, for logs and responses assembled outside the
    /// library.
    pub fn message(&self) -> (r: &'static str)
        ensures
            r@ == self.spec_message(),
    {
        match self {
            TokenError::Malformed => "malformed token",
            TokenError::InvalidSignature => "invalid signature",
            TokenError::Expired => "token expired",
        }
    }

    /// The description `message` returns.
    pub open spec fn spec_message(&self) -> Seq<char> {
        match self {
            TokenError::Malformed => "malformed token"@,
            TokenError::InvalidSignature => "invalid signature"@,
            TokenError::Expired => "token expired"@,
        }
    }
}

impl AuthError {
    /// Short description, for logs and responses assembled outside the
    /// library.
    pub fn message(&self) -> (r: &'static str)
        ensures
            r@ == self.spec_message(),
    {
        match self {
            AuthError::InputError => "email and username is empty!",
            AuthError::InvalidCredentials => "invalid credentials",
            AuthError::InvalidToken => "error input: invalid token",
            AuthError::ExpiredToken => "token expired",
            AuthError::UnknownToken => "refresh token not found",
            AuthError::BackendUnavailable => "backend unavailable",
            AuthError::InternalSigningError => "signing key unavailable",
        }
    }

    /// The description `message` returns.
    pub open spec fn spec_message(&self) -> Seq<char> {
        match self {
            AuthError::InputError => "email and username is empty!"@,
            AuthError::InvalidCredentials => "invalid credentials"@,
            AuthError::InvalidToken => "error input: invalid token"@,
            AuthError::ExpiredToken => "token expired"@,
            AuthError::UnknownToken => "refresh token not found"@,
            AuthError::BackendUnavailable => "backend unavailable"@,
            AuthError::InternalSigningError => "signing key unavailable"@,
        }
    }
}

} // verus!
