use blog_backend::model::user::Claims;
use blog_backend::token::{RawClaims, TokenError, ONE_WEEK};

fn now() -> i64 {
    std::time::SystemTime::now()
        .duration_since(std::time::UNIX_EPOCH)
        .unwrap()
        .as_secs() as i64
}

#[test]
fn a_week_is_seven_days_of_seconds() {
    assert_eq!(ONE_WEEK, 60 * 60 * 24 * 7);
    assert_eq!(ONE_WEEK, 604800);
}

#[test]
fn issued_token_carries_subject_and_expiry() {
    let at = now();
    let token = Claims::generate_token_at("507f1f77bcf86cd799439011", "top secret", at).unwrap();
    assert_eq!(token.split('.').count(), 3);
    assert_ne!(token, "507f1f77bcf86cd799439011");
    let claims = Claims::verify(&token, "top secret").unwrap();
    assert_eq!(claims.sub, "507f1f77bcf86cd799439011");
    assert_eq!(claims.exp as i64, at + 604800);
}

#[test]
fn token_issued_now_verifies() {
    let before = now();
    let token = Claims::generate_token("user-1", "top secret").unwrap();
    let after = now();
    let claims = Claims::verify(&token, "top secret").unwrap();
    assert_eq!(claims.sub, "user-1");
    assert!(before + ONE_WEEK <= claims.exp as i64);
    assert!(claims.exp as i64 <= after + ONE_WEEK);
}

#[test]
fn issuing_is_a_function_of_its_arguments() {
    let a = Claims::generate_token_at("u", "k", 1_700_000_000).unwrap();
    let b = Claims::generate_token_at("u", "k", 1_700_000_000).unwrap();
    let c = Claims::generate_token_at("u", "k", 1_700_000_001).unwrap();
    let d = Claims::generate_token_at("v", "k", 1_700_000_000).unwrap();
    let e = Claims::generate_token_at("u", "other", 1_700_000_000).unwrap();
    assert_eq!(a, b);
    assert_ne!(a, c);
    assert_ne!(a, d);
    assert_ne!(a, e);
}

#[test]
fn token_is_accepted_within_seven_days() {
    let six_days_ago = now() - 6 * 24 * 60 * 60;
    let token = Claims::generate_token_at("user-1", "top secret", six_days_ago).unwrap();
    let claims = Claims::verify(&token, "top secret").unwrap();
    assert_eq!(claims.exp as i64, six_days_ago + ONE_WEEK);
}

#[test]
fn token_is_rejected_after_expiry() {
    let eight_days_ago = now() - 8 * 24 * 60 * 60;
    let token = Claims::generate_token_at("user-1", "top secret", eight_days_ago).unwrap();
    assert_eq!(Claims::verify(&token, "top secret"), Err(TokenError::Rejected));
}

#[test]
fn token_is_rejected_the_second_after_expiry() {
    let just_expired = now() - ONE_WEEK - 5;
    let token = Claims::generate_token_at("user-1", "top secret", just_expired).unwrap();
    assert_eq!(Claims::verify(&token, "top secret"), Err(TokenError::Rejected));
}

#[test]
fn verification_at_a_given_instant() {
    let token = Claims::generate_token_at("user-1", "top secret", 1_000).unwrap();
    let claims = Claims { sub: "user-1".to_string(), exp: 1_000 + 604800 };
    assert_eq!(Claims::verify_at(&token, "top secret", 1_000), Ok(claims.clone()));
    assert_eq!(Claims::verify_at(&token, "top secret", 0), Ok(claims.clone()));
    assert_eq!(Claims::verify_at(&token, "top secret", -5), Ok(claims.clone()));
    assert_eq!(Claims::verify_at(&token, "top secret", 1_000 + 604800), Ok(claims.clone()));
    assert_eq!(Claims::verify_at(&token, "top secret", 1_000 + 604801), Err(TokenError::Rejected));
    assert_eq!(Claims::verify_at(&token, "top secret", i64::MAX), Err(TokenError::Rejected));
    assert_eq!(Claims::verify_at(&token, "other", 1_000), Err(TokenError::Rejected));
    assert_eq!(Claims::read(&token, "top secret"), Some(claims.clone()));
    assert_eq!(Claims::read(&token, "other"), None);
    assert!(claims.holds_at(1_000 + 604800));
    assert!(!claims.holds_at(1_000 + 604801));
}

#[test]
fn issued_token_holds_no_space() {
    let token = Claims::generate_token_at("an id with spaces", "a secret", 1_000).unwrap();
    assert!(!token.contains(' '));
    assert_eq!(Claims::read(&token, "a secret").unwrap().sub, "an id with spaces");
}

#[test]
fn token_is_rejected_under_another_secret() {
    let token = Claims::generate_token_at("user-1", "top secret", now()).unwrap();
    assert_eq!(Claims::verify(&token, "another secret"), Err(TokenError::Rejected));
}

#[test]
fn tampered_and_malformed_tokens_are_rejected() {
    let token = Claims::generate_token_at("user-1", "top secret", now()).unwrap();
    let mut tampered = token.clone();
    let last = tampered.pop().unwrap();
    tampered.push(if last == 'A' { 'B' } else { 'A' });
    assert_eq!(Claims::verify(&tampered, "top secret"), Err(TokenError::Rejected));
    assert_eq!(Claims::verify("", "top secret"), Err(TokenError::Rejected));
    assert_eq!(Claims::verify("a.b.c", "top secret"), Err(TokenError::Rejected));
    assert_eq!(Claims::verify("no dots at all", "top secret"), Err(TokenError::Rejected));
}

#[test]
fn expiry_that_no_claim_can_hold_is_refused() {
    assert_eq!(Claims::generate_token_at("u", "k", i64::MAX), Err(TokenError::Clock));
    assert_eq!(Claims::generate_token_at("u", "k", i64::MAX - ONE_WEEK + 1), Err(TokenError::Clock));
    assert_eq!(Claims::generate_token_at("u", "k", -ONE_WEEK - 1), Err(TokenError::Clock));
    assert_eq!(Claims::generate_token_at("u", "k", i64::MIN), Err(TokenError::Clock));
    assert!(Claims::generate_token_at("u", "k", -ONE_WEEK).is_ok());
    assert!(Claims::generate_token_at("u", "k", 0).is_ok());
}

#[test]
fn raw_claims_need_subject_and_expiry() {
    let both = RawClaims { sub: Some("u".to_string()), exp: Some(42) };
    assert_eq!(Claims::from_raw(both), Some(Claims { sub: "u".to_string(), exp: 42 }));
    assert_eq!(Claims::from_raw(RawClaims { sub: None, exp: Some(42) }), None);
    assert_eq!(Claims::from_raw(RawClaims { sub: Some("u".to_string()), exp: None }), None);
    assert_eq!(Claims::from_raw(RawClaims { sub: None, exp: None }), None);
}
