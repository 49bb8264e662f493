//! The error taxonomy of the verification paths.

use vstd::prelude::*;

verus! {

/// A failure of foreign-token verification.
///
/// `InvalidToken` rejects malformed or oversized input before any
/// cryptographic work; `VerificationFailed` covers signature, claim and
/// key-lookup failures and carries a human-readable cause; `NetworkError`
/// marks a remote key-set fetch failure, kept distinct because it may be
/// transient. Local session-token verification reports every failure as an
/// absent result instead: callers of that path cannot tell an expired token
/// from a forged one, a deliberate asymmetry kept for compatibility.
#[derive(Debug, Clone, PartialEq, Eq)]
pub enum AuthError {
    InvalidToken,
    VerificationFailed(String),
    NetworkError(String),
}

impl AuthError {
    /// A human-readable rendering, in place of a `Display` implementation.
    pub fn message(&self) -> (r: String)
        ensures
            self matches AuthError::VerificationFailed(c) ==> r@ == c@,
            self matches AuthError::NetworkError(c) ==> r@ == c@,
    {
        match self {
            AuthError::InvalidToken => "Invalid token format".to_owned(),
            AuthError::VerificationFailed(cause) => cause.clone(),
            AuthError::NetworkError(cause) => cause.clone(),
        }
    }
}

} // verus!
