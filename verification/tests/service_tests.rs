use auth_core::api_error::ApiError;
use auth_core::application::{ApplicationError, TokenService};
use auth_core::domain::DomainError;
use auth_core::hashing::ArgonPasswordHasher;
use auth_core::service::{validate_registration, AuthServiceImpl, UserServiceImpl};
use auth_core::store::{
    is_unique_violation, map_store_error, InMemoryUserRepository, UserRepository,
};
use auth_core::token::{JwtConfig, JwtTokenService};

fn new_service() -> AuthServiceImpl<InMemoryUserRepository> {
    AuthServiceImpl::new(
        InMemoryUserRepository::new(),
        ArgonPasswordHasher::new(),
        JwtTokenService::new(JwtConfig::new(String::from("service-test-secret"), 24)),
    )
}

fn register_alice(svc: &mut AuthServiceImpl<InMemoryUserRepository>) -> auth_core::domain::User {
    svc.register(
        String::from("alice"),
        String::from("alice@x.com"),
        String::from("longpassword1"),
    )
    .unwrap()
}

#[test]
fn register_returns_the_persisted_identity() {
    let mut svc = new_service();
    let user = register_alice(&mut svc);
    assert_eq!(user.username, "alice");
    assert_eq!(user.email, "alice@x.com");
    assert!(!user.id.is_empty());
    assert!(user.password_hash.starts_with("$argon2"));
    assert_ne!(user.password_hash, "longpassword1");
}

#[test]
fn register_rejects_bad_inputs_in_order() {
    let mut svc = new_service();
    let e = svc
        .register(String::new(), String::from("a@x.com"), String::from("longpassword1"))
        .unwrap_err();
    assert_eq!(
        e,
        ApplicationError::Domain(DomainError::Validation(String::from(
            "Username cannot be empty"
        )))
    );
    let e = svc
        .register(String::from("alice"), String::new(), String::from("longpassword1"))
        .unwrap_err();
    assert_eq!(
        e,
        ApplicationError::Domain(DomainError::Validation(String::from("Email cannot be empty")))
    );
    let e = svc
        .register(String::from("alice"), String::from("a@x.com"), String::from("short"))
        .unwrap_err();
    assert_eq!(
        e,
        ApplicationError::Domain(DomainError::Validation(String::from(
            "Password must be at least 8 characters"
        )))
    );
}

#[test]
fn validate_registration_accepts_good_inputs() {
    assert!(validate_registration(
        &String::from("alice"),
        &String::from("alice@x.com"),
        &String::from("longpassword1"),
    )
    .is_none());
    // Exactly eight bytes is long enough.
    assert!(validate_registration(
        &String::from("bob"),
        &String::from("bob@x.com"),
        &String::from("12345678"),
    )
    .is_none());
    // Seven bytes is not.
    assert!(validate_registration(
        &String::from("bob"),
        &String::from("bob@x.com"),
        &String::from("1234567"),
    )
    .is_some());
}

#[test]
fn duplicate_email_registration_conflicts_and_creates_nothing() {
    let mut svc = new_service();
    register_alice(&mut svc);
    let e = svc
        .register(
            String::from("alice2"),
            String::from("alice@x.com"),
            String::from("otherpassword2"),
        )
        .unwrap_err();
    assert_eq!(
        e,
        ApplicationError::Domain(DomainError::Conflict(String::from("Email already registered")))
    );
    // The first registration still owns the email: its password still logs in,
    // the rejected one does not.
    assert!(svc.login(String::from("alice@x.com"), String::from("longpassword1")).is_ok());
    assert!(svc.login(String::from("alice@x.com"), String::from("otherpassword2")).is_err());
}

#[test]
fn store_level_duplicate_insert_conflicts_without_duplicate_record() {
    let mut repo = InMemoryUserRepository::new();
    let u1 = auth_core::domain::User {
        id: String::from("id-1"),
        username: String::from("alice"),
        email: String::from("alice@x.com"),
        password_hash: String::from("$h1"),
        created_at: 0,
    };
    let u2 = auth_core::domain::User {
        id: String::from("id-2"),
        username: String::from("other"),
        email: String::from("alice@x.com"),
        password_hash: String::from("$h2"),
        created_at: 1,
    };
    assert!(repo.create(&u1).is_ok());
    let e = repo.create(&u2).unwrap_err();
    assert!(matches!(e, DomainError::Conflict(_)));
    assert_eq!(repo.len(), 1);
}

#[test]
fn login_returns_bearer_token_for_matching_credentials() {
    let mut svc = new_service();
    let user = register_alice(&mut svc);
    let tp = svc.login(String::from("alice@x.com"), String::from("longpassword1")).unwrap();
    assert_eq!(tp.token_type, "Bearer");
    assert_eq!(tp.expires_in, 24 * 3600);
    assert!(!tp.access_token.is_empty());

    // The token names the registered identity.
    let codec = JwtTokenService::new(JwtConfig::new(String::from("service-test-secret"), 24));
    let claims = codec.validate(&tp.access_token).unwrap();
    assert_eq!(claims.sub, user.id);
    assert_eq!(claims.email, "alice@x.com");
}

#[test]
fn login_failures_are_indistinguishable() {
    let mut svc = new_service();
    register_alice(&mut svc);

    let unknown_email = svc
        .login(String::from("nobody@x.com"), String::from("longpassword1"))
        .unwrap_err();
    let wrong_password = svc
        .login(String::from("alice@x.com"), String::from("wrongpassword9"))
        .unwrap_err();

    assert_eq!(unknown_email, wrong_password);
    assert_eq!(
        unknown_email,
        ApplicationError::Domain(DomainError::Unauthorized(String::from("Invalid credentials")))
    );

    // Externally both map to the same status and code.
    let a1 = ApiError::from_application(unknown_email);
    let a2 = ApiError::from_application(wrong_password);
    assert_eq!(a1.status(), 401);
    assert_eq!(a2.status(), 401);
    assert_eq!(a1.code(), "UNAUTHORIZED");
    assert_eq!(a1.code(), a2.code());
    assert_eq!(a1.message(), a2.message());
}

#[test]
fn store_failures_classify_by_code_and_kind() {
    assert!(is_unique_violation(Some(&String::from("23505"))));
    assert!(!is_unique_violation(Some(&String::from("40001"))));
    assert!(!is_unique_violation(None));

    assert_eq!(
        map_store_error(Some(&String::from("23505")), false, "User", String::from("dup key")),
        DomainError::Conflict(String::from("User already exists"))
    );
    assert_eq!(
        map_store_error(None, true, "User", String::from("no rows")),
        DomainError::NotFound { entity: "User", id: String::from("unknown") }
    );
    assert_eq!(
        map_store_error(Some(&String::from("40001")), false, "User", String::from("retry me")),
        DomainError::Internal(String::from("retry me"))
    );
}

#[test]
fn user_service_finds_registered_user_by_id() {
    let mut repo = InMemoryUserRepository::new();
    let u = auth_core::domain::User {
        id: String::from("id-9"),
        username: String::from("carol"),
        email: String::from("carol@x.com"),
        password_hash: String::from("$h"),
        created_at: 7,
    };
    repo.create(&u).unwrap();
    let users = UserServiceImpl::new(repo);
    let found = users.get_user(&String::from("id-9")).unwrap().unwrap();
    assert_eq!(found.username, "carol");
    assert!(users.get_user(&String::from("id-missing")).unwrap().is_none());
}
