use blog_backend::utils::{hash_password, verify_password, PasswordError};

#[test]
fn hashed_password_verifies() {
    let hash = hash_password("hunter2-secret").unwrap();
    assert_ne!(hash, "hunter2-secret");
    assert_eq!(hash.len(), 60);
    assert!(hash.starts_with("$2b$12$"));
    assert_eq!(verify_password("hunter2-secret", &hash), Ok(true));
}

#[test]
fn hashing_twice_gives_two_hashes() {
    let first = hash_password("same password").unwrap();
    let second = hash_password("same password").unwrap();
    assert_ne!(first, second);
}

#[test]
fn known_hash_verifies() {
    let hash = "$2b$04$EGdrhbKUv8Oc9vGiXX0HQOxSg445d458Muh7DAHskb6QbtCvdxcie";
    assert_eq!(verify_password("correctbatteryhorsestapler", hash), Ok(true));
}

#[test]
fn wrong_password_is_false_not_an_error() {
    let hash = "$2b$04$EGdrhbKUv8Oc9vGiXX0HQOxSg445d458Muh7DAHskb6QbtCvdxcie";
    assert_eq!(verify_password("wrong", hash), Ok(false));
    assert_eq!(verify_password("", hash), Ok(false));
}

#[test]
fn malformed_hash_is_an_error() {
    assert_eq!(verify_password("password", "not a hash"), Err(PasswordError::MalformedHash));
    assert_eq!(verify_password("password", ""), Err(PasswordError::MalformedHash));
    assert_eq!(
        verify_password("password", "$2a$04$tjARW6ZON3PhrAIRW2LG/u9a."),
        Err(PasswordError::MalformedHash)
    );
    assert_eq!(
        verify_password("password", "$2b$99$EGdrhbKUv8Oc9vGiXX0HQOxSg445d458Muh7DAHskb6QbtCvdxcie"),
        Err(PasswordError::MalformedHash)
    );
}
