//! Token issuance and verification for a backend service.
//!
//! Two parallel token schemes are supported: locally issued session tokens
//! (symmetric HS256 signature, shared secret) and foreign identity tokens
//! (asymmetric RS256 signature, checked against a key set fetched from a
//! remote endpoint). The cryptographic primitives are supplied by the
//! `jsonwebtoken` crate through a small set of trusted wrappers; everything
//! around them — claim validation, key lookup, bearer-header handling, and
//! the request-time authorization decisions — is verified.

pub mod errors;
pub mod firebase_auth;
pub mod jwt;
pub mod keyset;
pub mod orchestrator;
pub mod signing;

use vstd::prelude::*;

verus! {

/// Length, in seconds, of a session token's validity window: 24 hours.
pub const SESSION_LIFETIME_SECONDS: u64 = 86400;

} // verus!
