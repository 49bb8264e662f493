//! Request-time authorization decisions: bearer-header handling, routing a
//! token to the right verifier, and the checks each protected endpoint
//! makes before it trusts an identity. The surrounding HTTP and persistence
//! layers supply the header, the clock, the configuration and the user
//! store; every decision is made here.

use vstd::prelude::*;
use vstd::string::*;

use crate::errors::AuthError;
use crate::firebase_auth::{foreign_accepts, verify_firebase_token, FirebaseClaims};
use crate::jwt::{generate_token, session_verdict, verify_token, Claims};
use crate::keyset::KeySet;
use crate::signing::hs256_token_of;
use crate::SESSION_LIFETIME_SECONDS;

verus! {

/// Whether a header value carries a bearer credential: the literal prefix
/// `Bearer `, case-sensitive, with a single space.
pub open spec fn is_bearer(header: Seq<char>) -> bool {
    header.len() >= 7 && header.subrange(0, 7) == "Bearer "@
}

/// The raw token behind the bearer prefix.
pub open spec fn bearer_token_of(header: Seq<char>) -> Seq<char> {
    header.subrange(7, header.len() as int)
}

/// Strips the `Bearer ` prefix from an `Authorization` header value. A
/// missing header or any other prefix yields nothing, and no verifier is
/// invoked on such a request.
pub fn extract_bearer_token<'a>(header: Option<&'a str>) -> (r: Option<&'a str>)
    ensures
        (match header {
            Some(h) => if is_bearer(h@) {
                r matches Some(t) && t@ == bearer_token_of(h@)
            } else {
                r is None
            },
            None => r is None,
        }),
{
    let h = match header {
        Some(h) => h,
        None => return None,
    };
    let n = h.unicode_len();
    if n < 7 {
        return None;
    }
    let prefix = "Bearer ";
    proof {
        reveal_strlit("Bearer ");
    }
    let mut i: usize = 0;
    while i < 7
        invariant
            header == Some(h),
            i <= 7,
            n == h@.len(),
            n >= 7,
            prefix@ == "Bearer "@,
            prefix@.len() == 7,
            forall|j: int| 0 <= j < i ==> h@[j] == prefix@[j],
        decreases 7 - i,
    {
        if h.get_char(i) != prefix.get_char(i) {
            proof {
                assert(h@.subrange(0, 7)[i as int] == h@[i as int]);
                assert(h@[i as int] != "Bearer "@[i as int]);
                assert(h@.subrange(0, 7) != "Bearer "@);
                assert(!is_bearer(h@));
            }
            return None;
        }
        i += 1;
    }
    proof {
        assert(h@.subrange(0, 7) =~= "Bearer "@);
    }
    Some(h.substring_char(7, n))
}

/// Whether an email asserted by a foreign token is usable downstream:
/// non-empty and containing an `@`.
pub open spec fn valid_claim_email(email: Seq<char>) -> bool {
    email.len() > 0 && exists|i: int| 0 <= i < email.len() && email[i] == '@'
}

/// Checks a foreign token's email claim before the identity is forwarded to
/// the user store.
pub fn check_claim_email(email: &str) -> (r: bool)
    ensures
        r == valid_claim_email(email@),
{
    let n = email.unicode_len();
    if n == 0 {
        return false;
    }
    let mut i: usize = 0;
    while i < n
        invariant
            i <= n,
            n == email@.len(),
            forall|j: int| 0 <= j < i ==> email@[j] != '@',
        decreases n - i,
    {
        if email.get_char(i) == '@' {
            return true;
        }
        i += 1;
    }
    false
}

/// A login request: the submitted credentials.
pub struct LoginRequest {
    pub email: String,
    pub password: String,
}

/// The login decision. `record` is what the user store returned for the
/// submitted email — its stored email and password, if the user exists. A
/// session token is minted exactly when the stored password equals the
/// submitted one; an unknown user and a wrong password are indistinguishable
/// to the caller.
pub fn login_token(
    record: Option<(String, String)>,
    request: &LoginRequest,
    secret: &str,
    now: u64,
) -> (r: Option<String>)
    requires
        now + SESSION_LIFETIME_SECONDS <= u64::MAX,
    ensures
        (match record {
            Some((email, password)) => if password@ == request.password@ {
                r matches Some(t) && t@ == hs256_token_of(
                    email@,
                    (now + SESSION_LIFETIME_SECONDS) as u64,
                    secret@,
                )
            } else {
                r is None
            },
            None => r is None,
        }),
{
    match record {
        Some((email, password)) => {
            if password == request.password {
                Some(generate_token(email.as_str(), secret, now))
            } else {
                None
            }
        },
        None => None,
    }
}

/// Authorization for an endpoint protected by the local scheme: extract the
/// bearer token and verify it as a session token. Absence — of the header,
/// of the prefix, or of a valid unexpired token — is the only failure
/// signal.
pub fn authorize_session(header: Option<&str>, secret: &str, now: u64) -> (r: Option<Claims>)
    ensures
        (match header {
            Some(h) => if is_bearer(h@) {
                match session_verdict(bearer_token_of(h@), secret@, now) {
                    Some((sub, exp)) => r matches Some(c) && c.sub@ == sub && c.exp == exp,
                    None => r is None,
                }
            } else {
                r is None
            },
            None => r is None,
        }),
{
    let token = match extract_bearer_token(header) {
        Some(t) => t,
        None => return None,
    };
    verify_token(token, secret, now)
}

/// Why a foreign-scheme request was refused.
#[derive(Debug, Clone, PartialEq, Eq)]
pub enum ProfileRejection {
    /// No `Authorization` header, or one without the `Bearer ` prefix.
    MissingAuthorization,
    /// The bearer token failed foreign verification.
    Unauthorized(AuthError),
    /// The token verified, but its email claim is unusable.
    InvalidEmail,
}

/// Authorization for an endpoint protected by the foreign scheme: extract
/// the bearer token, verify it against the fetched key set, and require a
/// usable email claim before the identity is forwarded to the user store.
pub fn authorize_profile(
    header: Option<&str>,
    project_id: &str,
    keys: &KeySet,
    now: u64,
) -> (r: Result<FirebaseClaims, ProfileRejection>)
    ensures
        (match header {
            None => r == Err::<FirebaseClaims, ProfileRejection>(
                ProfileRejection::MissingAuthorization,
            ),
            Some(h) => if !is_bearer(h@) {
                r == Err::<FirebaseClaims, ProfileRejection>(ProfileRejection::MissingAuthorization)
            } else {
                match foreign_accepts(bearer_token_of(h@), project_id@, keys.entries@, now) {
                    Some((sub, email, aud, iss, exp)) => if valid_claim_email(email) {
                        r matches Ok(c) && c.sub@ == sub && c.email@ == email && c.aud@ == aud
                            && c.iss@ == iss && c.exp == exp
                    } else {
                        r == Err::<FirebaseClaims, ProfileRejection>(ProfileRejection::InvalidEmail)
                    },
                    None => r matches Err(rej) && rej matches ProfileRejection::Unauthorized(_),
                }
            },
        }),
{
    let token = match extract_bearer_token(header) {
        Some(t) => t,
        None => return Err(ProfileRejection::MissingAuthorization),
    };
    let claims = match verify_firebase_token(token, project_id, keys, now) {
        Ok(claims) => claims,
        Err(e) => return Err(ProfileRejection::Unauthorized(e)),
    };
    if !check_claim_email(claims.email.as_str()) {
        return Err(ProfileRejection::InvalidEmail);
    }
    Ok(claims)
}

} // verus!

