//! Use-case layer: the application failure wrapper and the ports through
//! which orchestration reaches password hashing and token signing.

use vstd::prelude::*;

use crate::domain::{Claims, ClaimsView, DomainError, DomainErrorView, TokenPair, User};

verus! {

/// Application-level failure: a domain failure carried through unchanged,
/// or a use-case specific message.
#[derive(Debug, PartialEq, Eq)]
pub enum ApplicationError {
    Domain(DomainError),
    UseCase(String),
}

/// Mathematical image of an `ApplicationError`.
pub enum ApplicationErrorView {
    Domain(DomainErrorView),
    UseCase(Seq<char>),
}

impl View for ApplicationError {
    type V = ApplicationErrorView;

    open spec fn view(&self) -> ApplicationErrorView {
        match self {
            ApplicationError::Domain(d) => ApplicationErrorView::Domain(d@),
            ApplicationError::UseCase(m) => ApplicationErrorView::UseCase(m@),
        }
    }
}

impl ApplicationError {
    /// Build a use-case specific error.
    pub fn use_case(message: String) -> (r: Self)
        ensures
            r@ == ApplicationErrorView::UseCase(message@),
    {
        ApplicationError::UseCase(message)
    }
}

/// Port for one-way password hashing and constant-time verification.
pub trait PasswordHasher {
    /// Whether `password` verifies against the encoded hash `hash` under
    /// this hasher.
    spec fn spec_matches(&self, password: Seq<char>, hash: Seq<char>) -> bool;

    /// Hash a password into a self-describing encoded string that verifies
    /// against the same password; fails only on catastrophic internal error.
    fn hash(&self, password: &str) -> (r: Result<String, DomainError>)
        ensures
            r matches Ok(h) ==> self.spec_matches(password@, h@),
            r matches Err(e) ==> e@ is Internal,
    ;

    /// Check a password against an encoded hash. A mismatch is `Ok(false)`;
    /// an error means the stored hash string itself was rejected.
    fn verify(&self, password: &str, hash: &str) -> (r: Result<bool, DomainError>)
        ensures
            r matches Ok(b) ==> b == self.spec_matches(password@, hash@),
            r matches Err(e) ==> e@ is Internal,
    ;
}

/// Port for signed-token issuance and validation.
pub trait TokenService {
    /// Whether the service's configuration is usable.
    spec fn wf(&self) -> bool;

    /// The claims this service's validation recovers from a token string,
    /// independent of any clock; `None` when the token is rejected outright.
    spec fn spec_decoded(&self, token: Seq<char>) -> Option<ClaimsView>;

    /// Issue a signed token for a user; on success the token decodes back
    /// to claims whose subject is that user's id.
    fn generate(&self, user: &User) -> (r: Result<TokenPair, DomainError>)
        requires
            self.wf(),
        ensures
            r matches Ok(tp) ==> {
                &&& tp.token_type@ == "Bearer"@
                &&& tp.expires_in > 0
                &&& tp.access_token@.len() > 0
                &&& self.spec_decoded(tp.access_token@) matches Some(c) && c.sub == user@.id
                    && c.email == user@.email && c.iat < c.exp
            },
            r matches Err(e) ==> e@ is Internal,
    ;

    /// Validate a token string; on success the returned claims are exactly
    /// what the token decodes to.
    fn validate(&self, token: &str) -> (r: Result<Claims, DomainError>)
        ensures
            r matches Ok(c) ==> self.spec_decoded(token@) == Some(c@),
            r matches Err(e) ==> e@ is Unauthorized,
    ;
}

}
