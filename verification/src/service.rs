//! Orchestration: registration (validate, hash, persist) and login
//! (lookup, verify, issue token), generic over the user store port.

use vstd::prelude::*;
use vstd::string::StringExecFns;
use vstd::utf8::encode_utf8;

use crate::application::{
    ApplicationError, ApplicationErrorView, PasswordHasher, TokenService,
};
use crate::domain::{
    claims_wf, current_unix_time, DomainError, DomainErrorView, TokenPair, User, UserView,
};
use crate::hashing::{hash_parses, password_matches, ArgonPasswordHasher};
use crate::store::{emails_unique, has_email, has_id, lemma_unique_after_push, UserRepository};
use crate::token::{decoded_of, default_roles, JwtTokenService};

verus! {

/// The single error every rejected login yields, whether the email is
/// unknown or the password wrong: no user-enumeration oracle.
pub open spec fn invalid_credentials_error() -> DomainErrorView {
    DomainErrorView::Unauthorized("Invalid credentials"@)
}

/// Why a registration request is rejected before any store access, if it
/// is: empty username, then empty email, then a password shorter than 8
/// bytes.
pub open spec fn registration_rejection(
    username: Seq<char>,
    email: Seq<char>,
    password: Seq<char>,
) -> Option<DomainErrorView> {
    if username.len() == 0 {
        Some(DomainErrorView::Validation("Username cannot be empty"@))
    } else if email.len() == 0 {
        Some(DomainErrorView::Validation("Email cannot be empty"@))
    } else if encode_utf8(password).len() < 8 {
        Some(DomainErrorView::Validation("Password must be at least 8 characters"@))
    } else {
        None
    }
}

/// Some stored user carries `email`, a parseable password hash, and a hash
/// that verifies `password`: exactly the users login accepts.
pub open spec fn credentials_ok(
    users: Seq<UserView>,
    email: Seq<char>,
    password: Seq<char>,
) -> bool {
    exists|i: int|
        0 <= i < users.len() && #[trigger] users[i].email == email && hash_parses(
            users[i].password_hash,
        ) && password_matches(password, users[i].password_hash)
}

/// Some stored user carries `email` together with a stored hash that PHC
/// parsing rejects: login must then surface an internal failure, never the
/// uniform credentials error.
pub open spec fn email_hash_unparseable(users: Seq<UserView>, email: Seq<char>) -> bool {
    exists|i: int|
        0 <= i < users.len() && #[trigger] users[i].email == email && !hash_parses(
            users[i].password_hash,
        )
}

/// Some stored user carries both `email` and the id `sub`.
pub open spec fn user_id_for(users: Seq<UserView>, email: Seq<char>, sub: Seq<char>) -> bool {
    exists|i: int|
        0 <= i < users.len() && #[trigger] users[i].email == email && users[i].id == sub
}

/// An application error wrapping an internal domain failure.
pub open spec fn is_internal_app(a: ApplicationErrorView) -> bool {
    a matches ApplicationErrorView::Domain(d) && d is Internal
}

/// Check the registration inputs; returns the first rule they break, if
/// any.
pub fn validate_registration(username: &String, email: &String, password: &String) -> (r: Option<
    DomainError,
>)
    ensures
        match r {
            Some(e) => registration_rejection(username@, email@, password@) == Some(e@),
            None => registration_rejection(username@, email@, password@) is None,
        },
{
    if username.as_str().is_empty() {
        Some(DomainError::validation(String::from_str("Username cannot be empty")))
    } else if email.as_str().is_empty() {
        Some(DomainError::validation(String::from_str("Email cannot be empty")))
    } else if password.as_str().as_bytes().len() < 8 {
        Some(DomainError::validation(String::from_str("Password must be at least 8 characters")))
    } else {
        None
    }
}

/// Read-side user queries over the user store port.
pub struct UserServiceImpl<R: UserRepository> {
    repository: R,
}

impl<R: UserRepository> UserServiceImpl<R> {
    /// The stored users, for specifications only.
    pub closed spec fn users(&self) -> Seq<UserView> {
        self.repository.users()
    }

    pub fn new(repository: R) -> (r: Self)
        ensures
            r.users() == repository.users(),
    {
        UserServiceImpl { repository }
    }

    /// Look one user up by id.
    pub fn get_user(&self, id: &String) -> (r: Result<Option<User>, ApplicationError>)
        ensures
            match r {
                Ok(found) => match found {
                    Some(u) => self.users().contains(u@) && u@.id == id@,
                    None => !has_id(self.users(), id@),
                },
                Err(a) => is_internal_app(a@),
            },
    {
        match self.repository.find_by_id(id) {
            Ok(found) => Ok(found),
            Err(e) => Err(ApplicationError::Domain(e)),
        }
    }
}

/// Registration and login over a pluggable user store, a password hasher,
/// and a token codec.
pub struct AuthServiceImpl<R: UserRepository> {
    repository: R,
    password_hasher: ArgonPasswordHasher,
    token_service: JwtTokenService,
}

impl<R: UserRepository> AuthServiceImpl<R> {
    /// The stored users, for specifications only.
    pub closed spec fn users(&self) -> Seq<UserView> {
        self.repository.users()
    }

    /// The configured signing secret, for specifications only.
    pub closed spec fn secret(&self) -> Seq<char> {
        self.token_service.secret_chars()
    }

    /// The configured token lifetime in hours.
    pub closed spec fn hours(&self) -> int {
        self.token_service.hours()
    }

    /// Usable when stored emails are unique and the token lifetime is
    /// positive and small enough that expiry arithmetic cannot overflow.
    pub open spec fn wf(&self) -> bool {
        &&& emails_unique(self.users())
        &&& 1 <= self.hours() <= 1_000_000
    }

    pub fn new(
        repository: R,
        password_hasher: ArgonPasswordHasher,
        token_service: JwtTokenService,
    ) -> (r: Self)
        ensures
            r.users() == repository.users(),
            r.secret() == token_service.secret_chars(),
            r.hours() == token_service.hours(),
    {
        AuthServiceImpl { repository, password_hasher, token_service }
    }

    /// Register a new identity: validate the inputs, reject an email that
    /// is already taken with a conflict, otherwise hash the password and
    /// persist a fresh user. The store is unchanged on every failure.
    pub fn register(&mut self, username: String, email: String, password: String) -> (r: Result<
        User,
        ApplicationError,
    >)
        requires
            old(self).wf(),
        ensures
            final(self).wf(),
            final(self).secret() == old(self).secret(),
            final(self).hours() == old(self).hours(),
            r is Err ==> final(self).users() == old(self).users(),
            registration_rejection(username@, email@, password@) matches Some(d) ==> r matches Err(
                a,
            ) && a@ == ApplicationErrorView::Domain(d),
            r matches Ok(u) ==> {
                &&& registration_rejection(username@, email@, password@) is None
                &&& !has_email(old(self).users(), email@)
                &&& u@.username == username@
                &&& u@.email == email@
                &&& hash_parses(u@.password_hash)
                &&& password_matches(password@, u@.password_hash)
                &&& final(self).users() == old(self).users().push(u@)
            },
            registration_rejection(username@, email@, password@) is None && has_email(
                old(self).users(),
                email@,
            ) ==> (r matches Err(a) && (a@ == ApplicationErrorView::Domain(
                DomainErrorView::Conflict("Email already registered"@),
            ) || is_internal_app(a@))),
            registration_rejection(username@, email@, password@) is None && !has_email(
                old(self).users(),
                email@,
            ) && r is Err ==> is_internal_app(r->Err_0@),
    {
        match validate_registration(&username, &email, &password) {
            Some(e) => Err(ApplicationError::Domain(e)),
            None => {
                match self.repository.find_by_email(&email) {
                    Err(e) => Err(ApplicationError::Domain(e)),
                    Ok(Some(_)) => Err(
                        ApplicationError::Domain(
                            DomainError::conflict(String::from_str("Email already registered")),
                        ),
                    ),
                    Ok(None) => {
                        match self.password_hasher.hash(password.as_str()) {
                            Err(e) => Err(ApplicationError::Domain(e)),
                            Ok(password_hash) => {
                                let user = User::new(username, email, password_hash);
                                match self.repository.create(&user) {
                                    Err(e) => Err(ApplicationError::Domain(e)),
                                    Ok(created) => {
                                        proof {
                                            lemma_unique_after_push(
                                                old(self).users(),
                                                user@,
                                            );
                                        }
                                        Ok(created)
                                    },
                                }
                            },
                        }
                    },
                }
            },
        }
    }

    /// Log an identity in: an unknown email and a wrong password yield one
    /// and the same error; matching credentials yield a bearer token that
    /// decodes to claims for that user, freshly issued and unexpired.
    pub fn login(&self, email: String, password: String) -> (r: Result<TokenPair, ApplicationError>)
        requires
            self.wf(),
        ensures
            r matches Ok(tp) ==> {
                &&& credentials_ok(self.users(), email@, password@)
                &&& tp.token_type@ == "Bearer"@
                &&& tp.expires_in == self.hours() * 3600
                &&& tp.access_token@.len() > 0
                &&& decoded_of(tp.access_token@, self.secret()) matches Some(c) && c.email
                    == email@ && c.roles == default_roles() && claims_wf(c) && user_id_for(
                    self.users(),
                    email@,
                    c.sub,
                )
            },
            r matches Err(a) ==> a@ == ApplicationErrorView::Domain(invalid_credentials_error())
                || is_internal_app(a@),
            r matches Err(a) && a@ == ApplicationErrorView::Domain(invalid_credentials_error())
                ==> !credentials_ok(self.users(), email@, password@),
            credentials_ok(self.users(), email@, password@) && r is Err ==> is_internal_app(
                r->Err_0@,
            ),
            email_hash_unparseable(self.users(), email@) && r is Err ==> is_internal_app(
                r->Err_0@,
            ),
    {
        let found = match self.repository.find_by_email(&email) {
            Err(e) => {
                return Err(ApplicationError::Domain(e));
            },
            Ok(found) => found,
        };
        let user = match found {
            None => {
                proof {
                    if credentials_ok(self.users(), email@, password@) {
                        let j = choose|j: int|
                            0 <= j < self.users().len() && #[trigger] self.users()[j].email
                                == email@ && hash_parses(self.users()[j].password_hash)
                                && password_matches(password@, self.users()[j].password_hash);
                        assert(has_email(self.users(), email@));
                    }
                    if email_hash_unparseable(self.users(), email@) {
                        let j = choose|j: int|
                            0 <= j < self.users().len() && #[trigger] self.users()[j].email
                                == email@ && !hash_parses(self.users()[j].password_hash);
                        assert(has_email(self.users(), email@));
                    }
                }
                return Err(
                    ApplicationError::Domain(
                        DomainError::unauthorized(String::from_str("Invalid credentials")),
                    ),
                );
            },
            Some(user) => user,
        };
        let valid = match self.password_hasher.verify(password.as_str(), user.password_hash.as_str()) {
            Err(e) => {
                return Err(ApplicationError::Domain(e));
            },
            Ok(valid) => valid,
        };
        if !valid {
            proof {
                self.lemma_no_other_credentials(user@, email@, password@);
                self.lemma_no_unparseable_carrier(user@, email@);
            }
            return Err(
                ApplicationError::Domain(
                    DomainError::unauthorized(String::from_str("Invalid credentials")),
                ),
            );
        }
        let now = current_unix_time();
        let mut roles: Vec<String> = Vec::new();
        roles.push(String::from_str("user"));
        proof {
            assert(roles.deep_view() =~= default_roles());
            let k = choose|k: int|
                0 <= k < self.users().len() && #[trigger] self.users()[k] == user@;
            assert(credentials_ok(self.users(), email@, password@)) by {
                assert(self.users()[k].email == email@);
            }
            assert(self.hours() * 3600 >= 3600);
        }
        match self.token_service.generate_at(&user, roles, now) {
            Err(e) => Err(ApplicationError::Domain(e)),
            Ok(tp) => {
                proof {
                    let k = choose|k: int|
                        0 <= k < self.users().len() && #[trigger] self.users()[k] == user@;
                    assert(user_id_for(self.users(), email@, user@.id)) by {
                        assert(self.users()[k].email == email@ && self.users()[k].id == user@.id);
                    }
                }
                Ok(tp)
            },
        }
    }

    /// With unique emails, every stored user carrying `email` is the one
    /// already found to carry it.
    proof fn lemma_unique_carrier(&self, found: UserView, email: Seq<char>)
        requires
            self.wf(),
            self.users().contains(found),
            found.email == email,
        ensures
            forall|j: int|
                0 <= j < self.users().len() && #[trigger] self.users()[j].email == email
                    ==> self.users()[j] == found,
    {
        let k = choose|k: int| 0 <= k < self.users().len() && #[trigger] self.users()[k] == found;
        assert forall|j: int|
            0 <= j < self.users().len() && #[trigger] self.users()[j].email == email
                implies self.users()[j] == found by {
            if j != k {
                assert(self.users()[j].email == self.users()[k].email);
                assert(false);
            }
        }
    }

    /// If the one user carrying the email has a hash that does not verify
    /// the password, no stored user witnesses matching credentials.
    proof fn lemma_no_other_credentials(&self, found: UserView, email: Seq<char>, password: Seq<char>)
        requires
            self.wf(),
            self.users().contains(found),
            found.email == email,
            !password_matches(password, found.password_hash),
        ensures
            !credentials_ok(self.users(), email, password),
    {
        self.lemma_unique_carrier(found, email);
        if credentials_ok(self.users(), email, password) {
            let j = choose|j: int|
                0 <= j < self.users().len() && #[trigger] self.users()[j].email == email
                    && hash_parses(self.users()[j].password_hash) && password_matches(
                    password,
                    self.users()[j].password_hash,
                );
            assert(false);
        }
    }

    /// If the one user carrying the email has a hash that parses, no stored
    /// user carries the email with an unparseable hash.
    proof fn lemma_no_unparseable_carrier(&self, found: UserView, email: Seq<char>)
        requires
            self.wf(),
            self.users().contains(found),
            found.email == email,
            hash_parses(found.password_hash),
        ensures
            !email_hash_unparseable(self.users(), email),
    {
        self.lemma_unique_carrier(found, email);
        if email_hash_unparseable(self.users(), email) {
            let j = choose|j: int|
                0 <= j < self.users().len() && #[trigger] self.users()[j].email == email
                    && !hash_parses(self.users()[j].password_hash);
            assert(false);
        }
    }
}

/// Law: a successful registration makes the very credentials it was given
/// valid: the user it appends carries the email and a hash that parses and
/// verifies the password, so a following login finds matching credentials.
pub proof fn lemma_registered_user_can_login(
    users: Seq<UserView>,
    u: UserView,
    password: Seq<char>,
)
    requires
        hash_parses(u.password_hash),
        password_matches(password, u.password_hash),
    ensures
        credentials_ok(users.push(u), u.email, password),
{
    assert(users.push(u)[users.len() as int] == u);
}

/// Law: rejected logins are uniform. Whatever made the credentials bad —
/// no user with the email, or a wrong password — login's contract pins the
/// same error value, and its external translation carries one status and
/// one code.
pub proof fn lemma_login_rejection_uniform(
    users: Seq<UserView>,
    email_unknown: Seq<char>,
    email_known: Seq<char>,
    password1: Seq<char>,
    password2: Seq<char>,
)
    requires
        !has_email(users, email_unknown),
        !credentials_ok(users, email_known, password2),
    ensures
        !credentials_ok(users, email_unknown, password1),
{
    if credentials_ok(users, email_unknown, password1) {
        let j = choose|j: int|
            0 <= j < users.len() && #[trigger] users[j].email == email_unknown && hash_parses(
                users[j].password_hash,
            ) && password_matches(password1, users[j].password_hash);
        assert(has_email(users, email_unknown));
    }
}

}
