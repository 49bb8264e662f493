//! Local session tokens: issuance and verification with a shared symmetric
//! secret (HS256).
//!
//! The signing secret and the current time are supplied by the caller: the
//! secret is process-wide immutable configuration loaded at startup, and an
//! injected clock keeps both functions deterministic and testable.

use vstd::prelude::*;

use crate::SESSION_LIFETIME_SECONDS;
use crate::signing::{hs256_decode, hs256_payload_of, hs256_sign, hs256_token_of};

verus! {

/// The claims of a locally issued session token.
#[derive(Debug, Clone, PartialEq, Eq)]
pub struct Claims {
    /// The subject: the authenticated user's email address.
    pub sub: String,
    /// Expiry, as a unix timestamp in seconds.
    pub exp: u64,
}

/// What verification of a session token yields at time `now`: the signed
/// claims while the signature checks out under `secret` and the token has
/// not expired, and absence otherwise. Expiry is strict: a token is dead
/// at the very second of its `exp` claim.
pub open spec fn session_verdict(token: Seq<char>, secret: Seq<char>, now: u64) -> Option<
    (Seq<char>, u64),
> {
    match hs256_payload_of(token, secret) {
        Some((sub, exp)) => if exp > now {
            Some((sub, exp))
        } else {
            None
        },
        None => None,
    }
}

/// Mints a session token for `email`, valid for 24 hours from `now`.
///
/// The expiry arithmetic is the issuer's: the token's `exp` claim is
/// exactly `now + SESSION_LIFETIME_SECONDS`.
pub fn generate_token(email: &str, secret: &str, now: u64) -> (r: String)
    requires
        now + SESSION_LIFETIME_SECONDS <= u64::MAX,
    ensures
        r@ == hs256_token_of(email@, (now + SESSION_LIFETIME_SECONDS) as u64, secret@),
        hs256_payload_of(r@, secret@) == Some((email@, (now + SESSION_LIFETIME_SECONDS) as u64)),
{
    let exp = now + SESSION_LIFETIME_SECONDS;
    hs256_sign(email, exp, secret)
}

/// Verifies a session token at time `now` against `secret`.
///
/// Every failure — malformed token, wrong algorithm, bad signature, missing
/// claims, or expiry — collapses into `None`: callers cannot tell them
/// apart, a deliberate asymmetry with the foreign path's typed errors.
pub fn verify_token(token: &str, secret: &str, now: u64) -> (r: Option<Claims>)
    ensures
        (match session_verdict(token@, secret@, now) {
            Some((sub, exp)) => r matches Some(c) && c.sub@ == sub && c.exp == exp,
            None => r is None,
        }),
{
    match hs256_decode(token, secret) {
        Some((sub, exp)) => {
            if exp > now {
                Some(Claims { sub, exp })
            } else {
                None
            }
        },
        None => None,
    }
}

/// The round-trip law: a token issued for any subject and verified with the
/// same secret at any time before its expiry yields exactly that subject
/// and an expiry of issuance time plus 24 hours.
pub fn issue_then_verify(email: &str, secret: &str, issued_at: u64, now: u64) -> (r: Option<
    Claims,
>)
    requires
        issued_at + SESSION_LIFETIME_SECONDS <= u64::MAX,
        now < issued_at + SESSION_LIFETIME_SECONDS,
    ensures
        r matches Some(c) && c.sub@ == email@ && c.exp == issued_at + SESSION_LIFETIME_SECONDS,
{
    let token = generate_token(email, secret, issued_at);
    verify_token(token.as_str(), secret, now)
}

} // verus!
