//! The closed set of failures the authentication core can report, kept
//! transport-agnostic: each variant maps to an HTTP status code and a
//! stable, minimal client message at the boundary.

use vstd::prelude::*;

verus! {

/// Every failure the credential flows and the auth guard can report.
///
/// Internal causes (`HashingFailure`, `SigningFailure`) are never exposed
/// to the client beyond a generic message, and `InvalidCredentials` is
/// deliberately identical whether the email or the password was wrong.
#[derive(Clone, Copy, Debug, PartialEq, Eq, Structural)]
pub enum AuthError {
    /// Client input failed a format constraint.
    ValidationFailed,
    /// The email already has a credential record.
    DuplicateCredential,
    /// No enabled record matched the email, or the password did not verify.
    InvalidCredentials,
    /// Missing, malformed, expired or revoked bearer token.
    Unauthenticated,
    /// The credential store could not be reached during an auth check.
    AuthUnavailable,
    /// Password hashing failed internally.
    HashingFailure,
    /// Token signing failed internally.
    SigningFailure,
}

impl AuthError {
    /// The HTTP status code this failure maps to at the transport boundary.
    pub fn status_code(&self) -> (code: u16)
        ensures
            code == match *self {
                AuthError::ValidationFailed => 400u16,
                AuthError::DuplicateCredential => 409u16,
                AuthError::InvalidCredentials => 401u16,
                AuthError::Unauthenticated => 401u16,
                AuthError::AuthUnavailable => 503u16,
                AuthError::HashingFailure => 500u16,
                AuthError::SigningFailure => 500u16,
            },
    {
        match *self {
            AuthError::ValidationFailed => 400,
            AuthError::DuplicateCredential => 409,
            AuthError::InvalidCredentials => 401,
            AuthError::Unauthenticated => 401,
            AuthError::AuthUnavailable => 503,
            AuthError::HashingFailure => 500,
            AuthError::SigningFailure => 500,
        }
    }

    /// The stable client-facing message. It never names an internal cause,
    /// and both halves of a failed login share one generic message.
    pub fn message(&self) -> (msg: &'static str)
        ensures
            msg@ == self.spec_message(),
    {
        match *self {
            AuthError::ValidationFailed => "Validation failed",
            AuthError::DuplicateCredential => "User with this email already exists",
            AuthError::InvalidCredentials => "Invalid email or password",
            AuthError::Unauthenticated => "Invalid or expired token",
            AuthError::AuthUnavailable => "Service temporarily unavailable",
            AuthError::HashingFailure => "Internal server error",
            AuthError::SigningFailure => "Internal server error",
        }
    }

    /// What `message` returns, as a sequence of characters.
    pub open spec fn spec_message(self) -> Seq<char> {
        match self {
            AuthError::ValidationFailed => "Validation failed"@,
            AuthError::DuplicateCredential => "User with this email already exists"@,
            AuthError::InvalidCredentials => "Invalid email or password"@,
            AuthError::Unauthenticated => "Invalid or expired token"@,
            AuthError::AuthUnavailable => "Service temporarily unavailable"@,
            AuthError::HashingFailure => "Internal server error"@,
            AuthError::SigningFailure => "Internal server error"@,
        }
    }
}

/// Why a presented token was rejected by the codec: the signature or
/// structure is bad, or the claims are sound but the expiry has passed.
#[derive(Clone, Copy, Debug, PartialEq, Eq, Structural)]
pub enum TokenError {
    /// Signature mismatch, undecodable structure, or wrong algorithm.
    Invalid,
    /// Structurally sound and correctly signed, but past its expiry.
    Expired,
}

} // verus!
