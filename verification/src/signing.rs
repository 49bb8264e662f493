//! Trusted boundary to the `jsonwebtoken` crate.
//!
//! Every cryptographic operation — HMAC-SHA256 signing and verification of
//! session tokens, RSA-SHA256 verification of foreign tokens, and header
//! inspection — happens behind the wrappers of this module. Each result that
//! is a function of the wrapper's arguments alone is given an uninterpreted
//! name, and the verified code reasons about those names only.

use vstd::prelude::*;

use jsonwebtoken::{decode, decode_header, encode, Algorithm, DecodingKey, EncodingKey, Header, Validation};
use serde_json::Value;

verus! {

/// The compact serialization produced by signing the claims
/// `{sub, exp}` with HS256 under `secret`.
pub uninterp spec fn hs256_token_of(sub: Seq<char>, exp: u64, secret: Seq<char>) -> Seq<char>;

/// The claims `(sub, exp)` recovered from `token` when its HS256 signature
/// checks out under `secret` and both claims are present; `None` when the
/// token is malformed, declares another algorithm, fails the signature
/// check, or lacks either claim.
pub uninterp spec fn hs256_payload_of(token: Seq<char>, secret: Seq<char>) -> Option<(Seq<char>, u64)>;

/// The key-id field of `token`'s header: `None` when the header cannot be
/// decoded at all, `Some(None)` when it decodes but carries no key-id.
pub uninterp spec fn jwt_header_kid_of(token: Seq<char>) -> Option<Option<Seq<char>>>;

/// Whether `pem` parses as RSA public key material.
pub uninterp spec fn pem_parses(pem: Seq<char>) -> bool;

/// The claims `(sub, email, aud, iss, exp)` recovered from `token` when
/// `pem` parses as an RSA public key, the RS256 signature checks out under
/// it, and all five claims are present; `None` otherwise.
pub uninterp spec fn rs256_payload_of(token: Seq<char>, pem: Seq<char>) -> Option<
    (Seq<char>, Seq<char>, Seq<char>, Seq<char>, u64),
>;

/// Relies on `jsonwebtoken::encode` with the default (HS256) header and
/// `EncodingKey::from_secret`: the result is a deterministic function of the
/// claims and the secret, and `jsonwebtoken::decode` with the same secret
/// recovers exactly the claims that were signed.
#[verifier::external_body]
pub(crate) fn hs256_sign(sub: &str, exp: u64, secret: &str) -> (r: String)
    ensures
        r@ == hs256_token_of(sub@, exp, secret@),
        hs256_payload_of(r@, secret@) == Some((sub@, exp)),
{
    let mut claims = serde_json::Map::new();
    claims.insert("sub".to_owned(), Value::String(sub.to_owned()));
    claims.insert("exp".to_owned(), Value::from(exp));
    encode(
        &Header::default(),
        &Value::Object(claims),
        &EncodingKey::from_secret(secret.as_bytes()),
    ).expect("HS256 signing of a JSON object cannot fail")
}

/// Relies on `jsonwebtoken::decode` with `DecodingKey::from_secret` and an
/// HS256-only validation whose time-based checks are switched off: the
/// result is a deterministic function of the token and the secret.
#[verifier::external_body]
pub(crate) fn hs256_decode(token: &str, secret: &str) -> (r: Option<(String, u64)>)
    ensures
        (match r {
            Some((s, e)) => hs256_payload_of(token@, secret@) == Some((s@, e)),
            None => hs256_payload_of(token@, secret@) is None,
        }),
{
    let mut validation = Validation::new(Algorithm::HS256);
    validation.validate_exp = false;
    validation.validate_aud = false;
    validation.required_spec_claims = std::collections::HashSet::new();
    let key = DecodingKey::from_secret(secret.as_bytes());
    let data = decode::<Value>(token, &key, &validation).ok()?;
    let sub = data.claims.get("sub")?.as_str()?.to_owned();
    let exp = data.claims.get("exp")?.as_u64()?;
    Some((sub, exp))
}

/// Relies on `jsonwebtoken::decode_header`: it base64url-decodes and parses
/// the first dot-separated part of the token without verifying anything, a
/// deterministic function of the token alone.
#[verifier::external_body]
pub(crate) fn decode_header_kid(token: &str) -> (r: Option<Option<String>>)
    ensures
        (match r {
            Some(Some(k)) => jwt_header_kid_of(token@) == Some(Some(k@)),
            Some(None) => jwt_header_kid_of(token@) == Some(None::<Seq<char>>),
            None => jwt_header_kid_of(token@) is None,
        }),
{
    match decode_header(token) {
        Ok(header) => Some(header.kid),
        Err(_) => None,
    }
}

/// Relies on `jsonwebtoken::DecodingKey::from_rsa_pem`: whether key
/// material parses is a deterministic function of the material alone.
#[verifier::external_body]
pub(crate) fn rsa_pem_parses(pem: &str) -> (r: bool)
    ensures
        r == pem_parses(pem@),
{
    DecodingKey::from_rsa_pem(pem.as_bytes()).is_ok()
}

/// Relies on `jsonwebtoken::DecodingKey::from_rsa_pem` and
/// `jsonwebtoken::decode` with an RS256-only validation whose time-based
/// checks are switched off: the result is a deterministic function of the
/// token and the key material.
#[verifier::external_body]
pub(crate) fn rs256_decode(token: &str, pem: &str) -> (r: Option<
    (String, String, String, String, u64),
>)
    ensures
        (match r {
            Some((sub, email, aud, iss, exp)) => rs256_payload_of(token@, pem@) == Some(
                (sub@, email@, aud@, iss@, exp),
            ),
            None => rs256_payload_of(token@, pem@) is None,
        }),
{
    let key = DecodingKey::from_rsa_pem(pem.as_bytes()).ok()?;
    let mut validation = Validation::new(Algorithm::RS256);
    validation.validate_exp = false;
    validation.validate_aud = false;
    validation.required_spec_claims = std::collections::HashSet::new();
    let data = decode::<Value>(token, &key, &validation).ok()?;
    let sub = data.claims.get("sub")?.as_str()?.to_owned();
    let email = data.claims.get("email")?.as_str()?.to_owned();
    let aud = data.claims.get("aud")?.as_str()?.to_owned();
    let iss = data.claims.get("iss")?.as_str()?.to_owned();
    let exp = data.claims.get("exp")?.as_u64()?;
    Some((sub, email, aud, iss, exp))
}

} // verus!
