//! The whole flow at library level: register, log in, present the token to
//! the request pipeline, and hit the role gate.

use auth_core::dto::{AuthResponse, TokenResponse};
use auth_core::hashing::ArgonPasswordHasher;
use auth_core::pipeline::{authenticate_request, require_role};
use auth_core::service::AuthServiceImpl;
use auth_core::store::InMemoryUserRepository;
use auth_core::token::{JwtConfig, JwtTokenService};

const NOW: i64 = 1_700_000_000;
const SECRET: &str = "end-to-end-secret";

#[test]
fn register_login_authenticate_and_gate() {
    let mut svc = AuthServiceImpl::new(
        InMemoryUserRepository::new(),
        ArgonPasswordHasher::new(),
        JwtTokenService::new(JwtConfig::new(String::from(SECRET), 24)),
    );

    // Register: the response projection carries id, username and email and
    // has no field that could carry the hash.
    let user = svc
        .register(
            String::from("alice"),
            String::from("alice@x.com"),
            String::from("longpassword1"),
        )
        .unwrap();
    let response = AuthResponse::of_user(&user);
    assert_eq!(response.user.id, user.id);
    assert_eq!(response.user.username, "alice");
    assert_eq!(response.user.email, "alice@x.com");

    // Login: a non-empty bearer token with a positive lifetime.
    let tp = svc.login(String::from("alice@x.com"), String::from("longpassword1")).unwrap();
    let token_response = TokenResponse::of_token_pair(tp);
    assert!(!token_response.access_token.is_empty());
    assert_eq!(token_response.token_type, "Bearer");
    assert!(token_response.expires_in > 0);

    // A protected call with the token authenticates as alice.
    let codec = JwtTokenService::new(JwtConfig::new(String::from(SECRET), 24));
    let header = format!("Bearer {}", token_response.access_token);
    let claims = authenticate_request(&codec, Some(&header), NOW).unwrap();
    assert_eq!(claims.sub, user.id);
    assert_eq!(claims.email, "alice@x.com");

    // The same call without a header is a 401.
    let e = authenticate_request(&codec, None, NOW).unwrap_err();
    assert_eq!(e.status(), 401);

    // A role-gated call without the required role is a 403.
    let e = require_role(Some(&claims), &String::from("admin")).unwrap_err();
    assert_eq!(e.status(), 403);

    // With the role the token carries, access is allowed.
    assert!(require_role(Some(&claims), &String::from("user")).is_ok());
}
