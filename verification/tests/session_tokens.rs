use authentication::jwt::{generate_token, issue_then_verify, verify_token};
use authentication::orchestrator::{authorize_session, extract_bearer_token, login_token, LoginRequest};

const SECRET: &str = "a-process-wide-signing-secret";
const NOW: u64 = 1_700_000_000;
const DAY: u64 = 86_400;

#[test]
fn roundtrip_returns_exact_subject() {
    let token = generate_token("user@example.com", SECRET, NOW);
    let claims = verify_token(&token, SECRET, NOW + 5).expect("fresh token must verify");
    assert_eq!(claims.sub, "user@example.com");
    assert_eq!(claims.exp, NOW + DAY);
}

#[test]
fn issue_then_verify_law_on_concrete_values() {
    let claims = issue_then_verify("user@example.com", SECRET, NOW, NOW + 100)
        .expect("verification before expiry must succeed");
    assert_eq!(claims.sub, "user@example.com");
    assert_eq!(claims.exp, NOW + DAY);
}

#[test]
fn token_verifies_until_the_last_second() {
    let token = generate_token("alice@example.com", SECRET, NOW);
    assert!(verify_token(&token, SECRET, NOW + DAY - 1).is_some());
}

#[test]
fn expired_token_returns_absence() {
    let token = generate_token("alice@example.com", SECRET, NOW);
    assert!(verify_token(&token, SECRET, NOW + DAY).is_none());
    assert!(verify_token(&token, SECRET, NOW + DAY + 1000).is_none());
}

#[test]
fn wrong_secret_returns_absence() {
    let token = generate_token("alice@example.com", SECRET, NOW);
    assert!(verify_token(&token, "another-secret", NOW + 5).is_none());
}

#[test]
fn malformed_tokens_return_absence() {
    assert!(verify_token("", SECRET, NOW).is_none());
    assert!(verify_token("not.a.token", SECRET, NOW).is_none());
    assert!(verify_token("alice@example.com", SECRET, NOW).is_none());
}

#[test]
fn issued_token_is_a_compact_serialization_not_the_subject() {
    let token = generate_token("alice@example.com", SECRET, NOW);
    assert_ne!(token, "alice@example.com");
    assert_eq!(token.matches('.').count(), 2);
}

#[test]
fn login_token_minted_exactly_on_password_match() {
    let request = LoginRequest {
        email: "bob@example.com".to_owned(),
        password: "hunter2".to_owned(),
    };
    let record = Some(("bob@example.com".to_owned(), "hunter2".to_owned()));
    let token = login_token(record, &request, SECRET, NOW).expect("matching password must log in");
    let claims = verify_token(&token, SECRET, NOW + 1).expect("login token must verify");
    assert_eq!(claims.sub, "bob@example.com");

    let record = Some(("bob@example.com".to_owned(), "other".to_owned()));
    assert!(login_token(record, &request, SECRET, NOW).is_none());
    assert!(login_token(None, &request, SECRET, NOW).is_none());
}

#[test]
fn bearer_prefix_is_stripped_exactly() {
    assert_eq!(extract_bearer_token(Some("Bearer abc")), Some("abc"));
    assert_eq!(extract_bearer_token(Some("Bearer ")), Some(""));
    assert_eq!(extract_bearer_token(Some("Bearerabc")), None);
    assert_eq!(extract_bearer_token(Some("bearer abc")), None);
    assert_eq!(extract_bearer_token(Some("Bear")), None);
    assert_eq!(extract_bearer_token(Some("Token abc")), None);
    assert_eq!(extract_bearer_token(None), None);
}

#[test]
fn session_endpoint_authorizes_only_a_fresh_bearer_token() {
    let token = generate_token("carol@example.com", SECRET, NOW);
    let header = format!("Bearer {}", token);
    let claims = authorize_session(Some(&header), SECRET, NOW + 10).expect("must authorize");
    assert_eq!(claims.sub, "carol@example.com");

    assert!(authorize_session(Some(&token), SECRET, NOW + 10).is_none());
    assert!(authorize_session(Some(&header), SECRET, NOW + DAY).is_none());
    assert!(authorize_session(Some(&header), "another-secret", NOW + 10).is_none());
    assert!(authorize_session(None, SECRET, NOW + 10).is_none());
}
