//! The session-token validator, exercised against real signing: expiry,
//! foreign secrets, tampering, and the round trip from issue to validate.

use docstore::error::ServiceError;
use docstore::token::{issue_token, validate_request, validate_token};

const SECRET: &[u8] = b"validator-secret";

#[test]
fn fresh_token_validates_and_binds_the_user() {
    let now: u64 = 1_700_000_000;
    let token = issue_token(42, SECRET, now);
    assert_eq!(validate_token(token.as_str(), now + 1, SECRET), Ok(42));
    // still valid just before expiry, rejected at it
    assert_eq!(validate_token(token.as_str(), now + 3599, SECRET), Ok(42));
    assert_eq!(
        validate_token(token.as_str(), now + 3600, SECRET),
        Err(ServiceError::Unauthorized)
    );
}

#[test]
fn expired_token_is_rejected_despite_valid_signature() {
    let now: u64 = 1_000;
    let token = issue_token(7, SECRET, now);
    // the signature still verifies; only time has passed
    let r = validate_token(token.as_str(), now + 4_000, SECRET);
    assert_eq!(r, Err(ServiceError::Unauthorized));
}

#[test]
fn token_signed_with_other_secret_is_rejected() {
    let now: u64 = 1_000;
    let token = issue_token(7, b"first-secret", now);
    let r = validate_token(token.as_str(), now + 1, b"second-secret");
    assert_eq!(r, Err(ServiceError::Unauthorized));
}

#[test]
fn tampered_token_is_rejected() {
    let now: u64 = 1_000;
    let token = issue_token(7, SECRET, now);
    let mut tampered = token.clone();
    tampered.push('A');
    assert_eq!(
        validate_token(tampered.as_str(), now + 1, SECRET),
        Err(ServiceError::Unauthorized)
    );
    assert_eq!(
        validate_token("not-a-token", now + 1, SECRET),
        Err(ServiceError::Unauthorized)
    );
    assert_eq!(validate_token("", now + 1, SECRET), Err(ServiceError::Unauthorized));
}

#[test]
fn request_without_token_is_rejected() {
    assert_eq!(
        validate_request(None, 1_000, SECRET),
        Err(ServiceError::Unauthorized)
    );
    let token = issue_token(3, SECRET, 1_000);
    assert_eq!(validate_request(Some(&token), 1_001, SECRET), Ok(3));
}

#[test]
fn distinct_users_get_distinct_tokens() {
    // the subject is the user id, so two users' tokens differ
    let t1 = issue_token(1, SECRET, 1_000);
    let t2 = issue_token(2, SECRET, 1_000);
    assert_ne!(t1, t2);
    assert_eq!(validate_token(t1.as_str(), 1_001, SECRET), Ok(1));
    assert_eq!(validate_token(t2.as_str(), 1_001, SECRET), Ok(2));
}
