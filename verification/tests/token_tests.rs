use auth_core::application::TokenService;
use auth_core::domain::{DomainError, User};
use auth_core::token::{JwtConfig, JwtTokenService};

const NOW: i64 = 1_700_000_000;

fn service() -> JwtTokenService {
    JwtTokenService::new(JwtConfig::new(String::from("test-signing-secret"), 24))
}

fn sample_user() -> User {
    User {
        id: String::from("550e8400-e29b-41d4-a716-446655440000"),
        username: String::from("alice"),
        email: String::from("alice@x.com"),
        password_hash: String::from("$argon2id$unused"),
        created_at: NOW,
    }
}

#[test]
fn issued_token_validates_immediately_with_matching_subject() {
    let svc = service();
    let user = sample_user();
    let tp = svc.generate_at(&user, vec![String::from("user")], NOW).unwrap();
    assert_eq!(tp.token_type, "Bearer");
    assert_eq!(tp.expires_in, 24 * 3600);
    assert!(!tp.access_token.is_empty());

    let claims = svc.validate_at(&tp.access_token, NOW).unwrap();
    assert_eq!(claims.sub, user.id);
    assert_eq!(claims.email, user.email);
    assert_eq!(claims.roles, vec![String::from("user")]);
    assert_eq!(claims.iat, NOW);
    assert_eq!(claims.exp, NOW + 24 * 3600);
}

#[test]
fn expired_token_and_tampered_token_fail_with_identical_error() {
    let svc = service();
    let user = sample_user();
    let tp = svc.generate_at(&user, vec![String::from("user")], NOW).unwrap();

    // Past its embedded expiry.
    let expired_err = svc.validate_at(&tp.access_token, NOW + 24 * 3600).unwrap_err();

    // One corrupted byte in the signature.
    let mut tampered = tp.access_token.clone();
    let last = tampered.pop().unwrap();
    tampered.push(if last == 'A' { 'B' } else { 'A' });
    let tampered_err = svc.validate_at(&tampered, NOW).unwrap_err();

    assert_eq!(expired_err, tampered_err);
    assert_eq!(expired_err, DomainError::Unauthorized(String::from("Invalid token")));
}

#[test]
fn token_expires_exactly_after_its_lifetime() {
    let svc = service();
    let user = sample_user();
    let tp = svc.generate_at(&user, vec![String::from("user")], NOW).unwrap();
    // Still valid one second before expiry; invalid at expiry.
    assert!(svc.validate_at(&tp.access_token, NOW + 24 * 3600 - 1).is_ok());
    assert!(svc.validate_at(&tp.access_token, NOW + 24 * 3600).is_err());
}

#[test]
fn single_byte_payload_tamper_is_rejected() {
    let svc = service();
    let user = sample_user();
    let token = svc.generate_at(&user, vec![String::from("user")], NOW).unwrap().access_token;

    let parts: Vec<&str> = token.split('.').collect();
    assert_eq!(parts.len(), 3);

    // Flip one byte in the payload segment.
    let mut payload: Vec<u8> = parts[1].as_bytes().to_vec();
    let mid = payload.len() / 2;
    payload[mid] = if payload[mid] == b'A' { b'B' } else { b'A' };
    let tampered_payload = String::from_utf8(payload).unwrap();
    let tampered = format!("{}.{}.{}", parts[0], tampered_payload, parts[2]);
    assert!(svc.validate_at(&tampered, NOW).is_err());

    // Flip one byte in the signature segment.
    let mut sig: Vec<u8> = parts[2].as_bytes().to_vec();
    sig[0] = if sig[0] == b'A' { b'B' } else { b'A' };
    let tampered_sig = String::from_utf8(sig).unwrap();
    let tampered2 = format!("{}.{}.{}", parts[0], parts[1], tampered_sig);
    assert!(svc.validate_at(&tampered2, NOW).is_err());
}

#[test]
fn token_signed_with_other_secret_is_rejected() {
    let svc = service();
    let other = JwtTokenService::new(JwtConfig::new(String::from("a-different-secret"), 24));
    let user = sample_user();
    let token = other.generate_at(&user, vec![String::from("user")], NOW).unwrap().access_token;
    assert!(svc.validate_at(&token, NOW).is_err());
}

#[test]
fn garbage_tokens_are_rejected() {
    let svc = service();
    assert!(svc.validate_at("", NOW).is_err());
    assert!(svc.validate_at("not-a-token", NOW).is_err());
    assert!(svc.validate_at("a.b.c", NOW).is_err());
}

#[test]
fn trait_generate_and_validate_roundtrip_with_default_role() {
    let svc = service();
    let user = sample_user();
    let tp = svc.generate(&user).unwrap();
    assert_eq!(tp.token_type, "Bearer");
    assert_eq!(tp.expires_in, 24 * 3600);
    let claims = svc.validate(&tp.access_token).unwrap();
    assert_eq!(claims.sub, user.id);
    assert_eq!(claims.roles, vec![String::from("user")]);
}

#[test]
fn claims_survive_unicode_and_quoting_in_fields() {
    let svc = service();
    let mut user = sample_user();
    user.email = String::from("weird\"quote+plus@x.com");
    user.username = String::from("ünïcode");
    let tp = svc.generate_at(&user, vec![String::from("rôle \"quoted\"")], NOW).unwrap();
    let claims = svc.validate_at(&tp.access_token, NOW).unwrap();
    assert_eq!(claims.email, "weird\"quote+plus@x.com");
    assert_eq!(claims.roles, vec![String::from("rôle \"quoted\"")]);
}
