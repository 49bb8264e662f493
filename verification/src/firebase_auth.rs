//! Verification of foreign identity tokens (RS256) against a fetched key
//! set, with audience, issuer and expiry enforcement.

use vstd::prelude::*;
use vstd::string::*;

use crate::errors::AuthError;
use crate::keyset::{key_lookup, KeySet};
use crate::signing::{
    decode_header_kid, jwt_header_kid_of, pem_parses, rs256_decode, rs256_payload_of,
    rsa_pem_parses,
};

verus! {

/// The longest token the verifier accepts, in characters.
pub const MAX_TOKEN_LENGTH: usize = 2048;

/// The claims of a successfully verified foreign identity token. Produced
/// only by `verify_firebase_token`; never constructed elsewhere.
#[derive(Debug, Clone, PartialEq, Eq)]
pub struct FirebaseClaims {
    /// The e-mail address asserted by the identity provider.
    pub email: String,
    /// Expiry, as a unix timestamp in seconds.
    pub exp: u64,
    /// Audience: must equal the configured project identifier.
    pub aud: String,
    /// Issuer: must equal the well-known issuer for that project.
    pub iss: String,
    /// Subject: the opaque user id.
    pub sub: String,
}

/// The exact issuer a foreign token for audience `aud` must declare.
pub open spec fn expected_issuer(aud: Seq<char>) -> Seq<char> {
    "https://securetoken.google.com/"@ + aud
}

/// Whether decoded claims pass validation against the configured audience
/// at time `now`: audience equal, issuer equal to the audience's well-known
/// issuer, and expiry strictly in the future.
pub open spec fn claims_acceptable(
    aud: Seq<char>,
    iss: Seq<char>,
    exp: u64,
    project_id: Seq<char>,
    now: u64,
) -> bool {
    aud == project_id && iss == expected_issuer(project_id) && exp > now
}

/// The one success path of foreign verification: the claims that come back
/// when the token is well-sized, its header names a key-id present in the
/// key set, that key's material parses, the RS256 signature checks out
/// under it, and the claims pass validation. `None` wherever any step
/// refuses.
pub open spec fn foreign_accepts(
    token: Seq<char>,
    project_id: Seq<char>,
    keys: Seq<(String, String)>,
    now: u64,
) -> Option<(Seq<char>, Seq<char>, Seq<char>, Seq<char>, u64)> {
    if token.len() == 0 || token.len() > MAX_TOKEN_LENGTH {
        None
    } else {
        match jwt_header_kid_of(token) {
            Some(Some(kid)) => match key_lookup(keys, kid) {
                Some(pem) => if !pem_parses(pem) {
                    None
                } else {
                    match rs256_payload_of(token, pem) {
                        Some((sub, email, aud, iss, exp)) => if claims_acceptable(
                            aud,
                            iss,
                            exp,
                            project_id,
                            now,
                        ) {
                            Some((sub, email, aud, iss, exp))
                        } else {
                            None
                        },
                        None => None,
                    }
                },
                None => None,
            },
            _ => None,
        }
    }
}

/// The size gate a token must pass before any parsing — or, in the full
/// request flow, before the key set is even fetched: non-empty and at most
/// `MAX_TOKEN_LENGTH` characters.
pub fn token_within_bounds(token: &str) -> (r: bool)
    ensures
        r == (token@.len() != 0 && token@.len() <= MAX_TOKEN_LENGTH),
{
    let len = token.unicode_len();
    len != 0 && len <= MAX_TOKEN_LENGTH
}

/// Acceptance soundness: whatever foreign verification accepts declares
/// exactly the configured audience, that audience's well-known issuer, and
/// an expiry strictly in the future. In particular a token whose audience
/// differs from the configured one is never accepted, however valid its
/// signature.
pub proof fn lemma_accepted_claims_are_acceptable(
    token: Seq<char>,
    project_id: Seq<char>,
    keys: Seq<(String, String)>,
    now: u64,
)
    ensures
        (match foreign_accepts(token, project_id, keys, now) {
            Some((sub, email, aud, iss, exp)) => aud == project_id && iss == expected_issuer(
                project_id,
            ) && exp > now,
            None => true,
        }),
{
}

/// A token whose header names a key-id absent from the fetched key set is
/// never accepted — and, by the verifier's contract, is refused as a
/// verification failure, not a network error: the key set was already in
/// hand.
pub proof fn lemma_unknown_kid_never_accepted(
    token: Seq<char>,
    project_id: Seq<char>,
    keys: Seq<(String, String)>,
    now: u64,
)
    ensures
        (match jwt_header_kid_of(token) {
            Some(Some(kid)) => key_lookup(keys, kid) is None ==> foreign_accepts(
                token,
                project_id,
                keys,
                now,
            ) is None,
            _ => foreign_accepts(token, project_id, keys, now) is None,
        }),
{
}

/// Validates already-decoded claims against the configured audience at time
/// `now`. The claims come back unchanged on success; any violation is a
/// `VerificationFailed` with its cause.
pub fn validate_foreign_claims(claims: FirebaseClaims, project_id: &str, now: u64) -> (r: Result<
    FirebaseClaims,
    AuthError,
>)
    ensures
        (if claims_acceptable(claims.aud@, claims.iss@, claims.exp, project_id@, now) {
            r matches Ok(c) && c == claims
        } else {
            r matches Err(e) && e matches AuthError::VerificationFailed(_)
        }),
{
    let expected_aud = project_id.to_owned();
    if !(claims.aud == expected_aud) {
        return Err(AuthError::VerificationFailed("Audience mismatch".to_owned()));
    }
    let mut issuer = "https://securetoken.google.com/".to_owned();
    issuer.append(project_id);
    if !(claims.iss == issuer) {
        return Err(AuthError::VerificationFailed("Issuer mismatch".to_owned()));
    }
    if !(claims.exp > now) {
        return Err(AuthError::VerificationFailed("Token expired".to_owned()));
    }
    Ok(claims)
}

/// Verifies a foreign identity token against `keys` for audience
/// `project_id` at time `now`.
///
/// Oversized or empty input is refused as `InvalidToken` before anything is
/// parsed; every later failure — undecodable header, missing key-id,
/// unknown key-id, unparsable key material, bad signature, claim violation
/// — is a `VerificationFailed`, never a `NetworkError`: the key set was
/// already fetched by the time this runs.
pub fn verify_firebase_token(token: &str, project_id: &str, keys: &KeySet, now: u64) -> (r: Result<
    FirebaseClaims,
    AuthError,
>)
    ensures
        (match foreign_accepts(token@, project_id@, keys.entries@, now) {
            Some((sub, email, aud, iss, exp)) => r matches Ok(c) && c.sub@ == sub && c.email@
                == email && c.aud@ == aud && c.iss@ == iss && c.exp == exp,
            None => r is Err,
        }),
        (token@.len() == 0 || token@.len() > MAX_TOKEN_LENGTH) ==> r == Err::<
            FirebaseClaims,
            AuthError,
        >(AuthError::InvalidToken),
        (r is Err && token@.len() != 0 && token@.len() <= MAX_TOKEN_LENGTH) ==> (r matches Err(e)
            && e matches AuthError::VerificationFailed(_)),
{
    if !token_within_bounds(token) {
        return Err(AuthError::InvalidToken);
    }
    let kid = match decode_header_kid(token) {
        Some(Some(kid)) => kid,
        Some(None) => return Err(
            AuthError::VerificationFailed("Missing kid in token header".to_owned()),
        ),
        None => return Err(AuthError::VerificationFailed("Malformed token header".to_owned())),
    };
    let pem = match keys.lookup(kid.as_str()) {
        Some(pem) => pem,
        None => return Err(AuthError::VerificationFailed("Key not found".to_owned())),
    };
    if !rsa_pem_parses(pem.as_str()) {
        return Err(AuthError::VerificationFailed("Key parse error".to_owned()));
    }
    let decoded = match rs256_decode(token, pem.as_str()) {
        Some(decoded) => decoded,
        None => return Err(
            AuthError::VerificationFailed("Signature verification failed".to_owned()),
        ),
    };
    let (sub, email, aud, iss, exp) = decoded;
    validate_foreign_claims(FirebaseClaims { email, exp, aud, iss, sub }, project_id, now)
}

} // verus!
