use auth_core::application::PasswordHasher;
use auth_core::domain::DomainError;
use auth_core::hashing::ArgonPasswordHasher;

#[test]
fn hash_then_verify_roundtrip() {
    let hasher = ArgonPasswordHasher::new();
    let hash = hasher.hash("correct horse battery staple").unwrap();
    assert_eq!(hasher.verify("correct horse battery staple", &hash), Ok(true));
}

#[test]
fn verify_rejects_wrong_password() {
    let hasher = ArgonPasswordHasher::new();
    let hash = hasher.hash("correct horse battery staple").unwrap();
    assert_eq!(hasher.verify("incorrect horse", &hash), Ok(false));
    assert_eq!(hasher.verify("", &hash), Ok(false));
}

#[test]
fn same_password_hashes_differently_but_both_verify() {
    let hasher = ArgonPasswordHasher::new();
    let h1 = hasher.hash("longpassword1").unwrap();
    let h2 = hasher.hash("longpassword1").unwrap();
    assert_ne!(h1, h2, "salts are random, so encodings must differ");
    assert_eq!(hasher.verify("longpassword1", &h1), Ok(true));
    assert_eq!(hasher.verify("longpassword1", &h2), Ok(true));
}

#[test]
fn hash_is_self_describing_phc_string() {
    let hasher = ArgonPasswordHasher::new();
    let hash = hasher.hash("longpassword1").unwrap();
    assert!(hash.starts_with("$argon2"));
}

#[test]
fn verify_rejects_corrupt_hash_string_with_error() {
    let hasher = ArgonPasswordHasher::new();
    let r = hasher.verify("anything", "not-a-valid-encoded-hash");
    assert!(matches!(r, Err(DomainError::Internal(_))));
}

#[test]
fn default_hasher_behaves_like_new() {
    let hasher = ArgonPasswordHasher::default();
    let hash = hasher.hash("another password!").unwrap();
    assert_eq!(hasher.verify("another password!", &hash), Ok(true));
}
