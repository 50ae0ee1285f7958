use auth_backend::model::errors::GlobalServiceError;
use auth_backend::utils::{hash_password, hash_password_with, verify_password};

const SALT: &str = "c29tZXNhbHRzb21lc2FsdA";

#[test]
fn hash_then_verify_accepts_the_password() {
    let hashed = hash_password("pw123456").unwrap();
    assert_eq!(verify_password("pw123456", &hashed.hashed_password), Ok(()));
}

#[test]
fn verify_rejects_another_password() {
    let hashed = hash_password("pw123456").unwrap();
    assert_eq!(
        verify_password("pw1234567", &hashed.hashed_password),
        Err(GlobalServiceError::InternalServerError)
    );
    assert_eq!(
        verify_password("", &hashed.hashed_password),
        Err(GlobalServiceError::InternalServerError)
    );
}

#[test]
fn hashing_twice_gives_different_salts_and_hashes() {
    let first = hash_password("hunter42").unwrap();
    let second = hash_password("hunter42").unwrap();
    assert_ne!(first.salt, second.salt);
    assert_ne!(first.hashed_password, second.hashed_password);
    assert_eq!(verify_password("hunter42", &first.hashed_password), Ok(()));
    assert_eq!(verify_password("hunter42", &second.hashed_password), Ok(()));
}

#[test]
fn hash_names_algorithm_parameters_and_salt() {
    let hashed = hash_password_with("hunter42", SALT.to_string()).unwrap();
    assert_eq!(hashed.salt, SALT);
    let prefix = format!("$argon2id$v=19$m=19456,t=2,p=1${}$", SALT);
    assert!(hashed.hashed_password.starts_with(&prefix));
    // 32 bytes of digest in B64 without padding
    assert_eq!(hashed.hashed_password.len(), prefix.len() + 43);
}

#[test]
fn fresh_salt_is_stored_beside_the_hash_that_embeds_it() {
    let hashed = hash_password("hunter42").unwrap();
    assert_eq!(hashed.salt.chars().count(), 22);
    assert!(hashed.salt.chars().all(|c| c.is_ascii_alphanumeric() || c == '+' || c == '/'));
    let prefix = format!("$argon2id$v=19$m=19456,t=2,p=1${}$", hashed.salt);
    assert!(hashed.hashed_password.starts_with(&prefix));
    assert_eq!(hash_password_with("hunter42", hashed.salt.clone()), Ok(hashed));
}

#[test]
fn hash_under_a_given_salt_is_a_function_of_password_and_salt() {
    let first = hash_password_with("hunter42", SALT.to_string()).unwrap();
    let second = hash_password_with("hunter42", SALT.to_string()).unwrap();
    let other = hash_password_with("hunter43", SALT.to_string()).unwrap();
    assert_eq!(first, second);
    assert_ne!(first.hashed_password, other.hashed_password);
    assert_eq!(verify_password("hunter42", &first.hashed_password), Ok(()));
    assert_eq!(
        verify_password("hunter42", &other.hashed_password),
        Err(GlobalServiceError::InternalServerError)
    );
}

#[test]
fn hash_with_unusable_salt_is_an_internal_error() {
    assert_eq!(
        hash_password_with("hunter42", "".to_string()),
        Err(GlobalServiceError::InternalServerError)
    );
    assert_eq!(
        hash_password_with("hunter42", "not b64!".to_string()),
        Err(GlobalServiceError::InternalServerError)
    );
    // four characters pass as B64 but decode to fewer bytes than Argon2 takes
    assert_eq!(
        hash_password_with("hunter42", "abcd".to_string()),
        Err(GlobalServiceError::InternalServerError)
    );
}

#[test]
fn malformed_hash_is_a_non_match() {
    assert_eq!(
        verify_password("hunter42", "not-a-hash"),
        Err(GlobalServiceError::InternalServerError)
    );
    assert_eq!(verify_password("hunter42", ""), Err(GlobalServiceError::InternalServerError));
    assert_eq!(
        verify_password("hunter42", "hunter42"),
        Err(GlobalServiceError::InternalServerError)
    );
}

#[test]
fn empty_password_can_be_hashed_and_verified() {
    let hashed = hash_password("").unwrap();
    assert_eq!(verify_password("", &hashed.hashed_password), Ok(()));
    assert_eq!(
        verify_password(" ", &hashed.hashed_password),
        Err(GlobalServiceError::InternalServerError)
    );
}
