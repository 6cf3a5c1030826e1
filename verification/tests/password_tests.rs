use ovaflus_backend::error::AuthError;
use ovaflus_backend::password::{hash_password, hash_password_with_salt, verify_password};

#[test]
fn password_hashing_verifies_correctly() {
    let hash = hash_password("password").unwrap();
    assert!(verify_password("password", &hash));
}

#[test]
fn wrong_password_fails_verification() {
    let hash = hash_password("password").unwrap();
    assert!(!verify_password("wrong_password", &hash));
}

#[test]
fn hash_embeds_algorithm_and_fresh_salt() {
    let first = hash_password("Secret123").unwrap();
    let second = hash_password("Secret123").unwrap();
    assert!(first.starts_with("$argon2id$"));
    assert_ne!(first, second);
    assert!(verify_password("Secret123", &first));
    assert!(verify_password("Secret123", &second));
}

#[test]
fn hash_with_salt_is_a_function_of_password_and_salt() {
    let first = hash_password_with_salt("Secret123", "c29tZXNhbHRzb21lc2FsdA").unwrap();
    let second = hash_password_with_salt("Secret123", "c29tZXNhbHRzb21lc2FsdA").unwrap();
    assert_eq!(first, second);
    assert!(first.contains("c29tZXNhbHRzb21lc2FsdA"));
    assert!(verify_password("Secret123", &first));
    assert!(!verify_password("Secret124", &first));
}

#[test]
fn hash_with_unusable_salt_is_internal() {
    assert_eq!(hash_password_with_salt("Secret123", "x"), Err(AuthError::Internal));
    assert_eq!(hash_password_with_salt("Secret123", "not base64 !"), Err(AuthError::Internal));
}

#[test]
fn verify_fails_closed_on_unreadable_hash() {
    assert!(!verify_password("password", ""));
    assert!(!verify_password("password", "password"));
    assert!(!verify_password("password", "$argon2id$v=19$m=19456,t=2,p=1$broken"));
}
