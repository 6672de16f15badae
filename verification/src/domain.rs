//! Domain model: the failure taxonomy, the user entity, credentials, token
//! pairs, claims, and pagination values.

use vstd::prelude::*;
use vstd::string::StringExecFns;

verus! {

// ===========================================================================
// Failure taxonomy
// ===========================================================================

/// Internal failure kinds, stable across all layers.
#[derive(Debug, PartialEq, Eq)]
pub enum DomainError {
    /// An entity of the named kind with the given id does not exist.
    NotFound { entity: &'static str, id: String },
    /// The input was rejected by a validation rule.
    Validation(String),
    /// The operation conflicts with existing state, such as a duplicate
    /// unique key.
    Conflict(String),
    /// An unexpected internal failure, such as a storage fault.
    Internal(String),
    /// Authentication or authorization failed.
    Unauthorized(String),
}

/// Mathematical image of a `DomainError`: every message as a `Seq<char>`.
pub enum DomainErrorView {
    NotFound { entity: Seq<char>, id: Seq<char> },
    Validation(Seq<char>),
    Conflict(Seq<char>),
    Internal(Seq<char>),
    Unauthorized(Seq<char>),
}

impl View for DomainError {
    type V = DomainErrorView;

    open spec fn view(&self) -> DomainErrorView {
        match self {
            DomainError::NotFound { entity, id } => DomainErrorView::NotFound {
                entity: entity@,
                id: id@,
            },
            DomainError::Validation(m) => DomainErrorView::Validation(m@),
            DomainError::Conflict(m) => DomainErrorView::Conflict(m@),
            DomainError::Internal(m) => DomainErrorView::Internal(m@),
            DomainError::Unauthorized(m) => DomainErrorView::Unauthorized(m@),
        }
    }
}

/// The single rendering of each failure kind as human-readable text.
pub open spec fn spec_render(d: DomainErrorView) -> Seq<char> {
    match d {
        DomainErrorView::NotFound { entity, id } => "Entity not found: "@ + entity + " with id "@
            + id,
        DomainErrorView::Validation(m) => "Validation failed: "@ + m,
        DomainErrorView::Conflict(m) => "Conflict: "@ + m,
        DomainErrorView::Internal(m) => "Internal error: "@ + m,
        DomainErrorView::Unauthorized(m) => "Unauthorized: "@ + m,
    }
}

impl DomainError {
    /// Build a `NotFound` error for one entity kind and id.
    pub fn not_found(entity: &'static str, id: String) -> (r: Self)
        ensures
            r@ == (DomainErrorView::NotFound { entity: entity@, id: id@ }),
    {
        DomainError::NotFound { entity, id }
    }

    /// Build a validation error.
    pub fn validation(message: String) -> (r: Self)
        ensures
            r@ == DomainErrorView::Validation(message@),
    {
        DomainError::Validation(message)
    }

    /// Build a conflict error, for duplicate entries and the like.
    pub fn conflict(message: String) -> (r: Self)
        ensures
            r@ == DomainErrorView::Conflict(message@),
    {
        DomainError::Conflict(message)
    }

    /// Build an internal error.
    pub fn internal(message: String) -> (r: Self)
        ensures
            r@ == DomainErrorView::Internal(message@),
    {
        DomainError::Internal(message)
    }

    /// Build an unauthorized error.
    pub fn unauthorized(message: String) -> (r: Self)
        ensures
            r@ == DomainErrorView::Unauthorized(message@),
    {
        DomainError::Unauthorized(message)
    }

    /// Render the error as the text a caller-facing layer shows; the one
    /// place each kind's wording is decided.
    pub fn render(&self) -> (r: String)
        ensures
            r@ == spec_render(self@),
    {
        match self {
            DomainError::NotFound { entity, id } => String::from_str("Entity not found: ").concat(
                entity,
            ).concat(" with id ").concat(id.as_str()),
            DomainError::Validation(m) => String::from_str("Validation failed: ").concat(
                m.as_str(),
            ),
            DomainError::Conflict(m) => String::from_str("Conflict: ").concat(m.as_str()),
            DomainError::Internal(m) => String::from_str("Internal error: ").concat(m.as_str()),
            DomainError::Unauthorized(m) => String::from_str("Unauthorized: ").concat(m.as_str()),
        }
    }
}

// ===========================================================================
// Entities
// ===========================================================================

/// A registered identity. The password hash is an opaque self-describing
/// string; it must never appear in any outward-facing projection.
#[derive(Debug)]
pub struct User {
    pub id: String,
    pub username: String,
    pub email: String,
    pub password_hash: String,
    /// Creation time as Unix seconds.
    pub created_at: i64,
}

/// Mathematical image of a `User`.
pub struct UserView {
    pub id: Seq<char>,
    pub username: Seq<char>,
    pub email: Seq<char>,
    pub password_hash: Seq<char>,
    pub created_at: int,
}

impl View for User {
    type V = UserView;

    open spec fn view(&self) -> UserView {
        UserView {
            id: self.id@,
            username: self.username@,
            email: self.email@,
            password_hash: self.password_hash@,
            created_at: self.created_at as int,
        }
    }
}

impl Clone for User {
    fn clone(&self) -> (r: Self)
        ensures
            r == *self,
    {
        User {
            id: self.id.clone(),
            username: self.username.clone(),
            email: self.email.clone(),
            password_hash: self.password_hash.clone(),
            created_at: self.created_at,
        }
    }
}

impl User {
    /// Assemble a new identity with a freshly drawn id and the current time.
    pub fn new(username: String, email: String, password_hash: String) -> (r: Self)
        ensures
            r@.username == username@,
            r@.email == email@,
            r@.password_hash == password_hash@,
            0 <= r@.created_at <= 10_000_000_000_000,
    {
        User {
            id: fresh_uuid(),
            username,
            email,
            password_hash,
            created_at: current_unix_time(),
        }
    }
}

/// Anything stored under a unique id.
pub trait Entity {
    type Id;

    /// The entity's id, for specifications only.
    spec fn spec_id(&self) -> Self::Id;

    /// The entity's id.
    fn id(&self) -> (r: Self::Id)
        ensures
            r == self.spec_id(),
    ;
}

impl Entity for User {
    type Id = String;

    open spec fn spec_id(&self) -> String {
        self.id
    }

    fn id(&self) -> (r: String)
        ensures
            r == self.spec_id(),
    {
        self.id.clone()
    }
}

/// A login attempt's input: an email and the ephemeral plaintext password.
#[derive(Debug)]
pub struct Credentials {
    pub email: String,
    pub password: String,
}

// ===========================================================================
// Tokens and claims
// ===========================================================================

/// What a successful login hands back: the signed token, its fixed type tag,
/// and its lifetime in seconds.
#[derive(Debug)]
pub struct TokenPair {
    pub access_token: String,
    pub token_type: String,
    pub expires_in: i64,
}

impl TokenPair {
    /// Pair a signed token with the fixed `"Bearer"` tag and its lifetime.
    pub fn new(access_token: String, expires_in: i64) -> (r: Self)
        ensures
            r.access_token@ == access_token@,
            r.token_type@ == "Bearer"@,
            r.expires_in == expires_in,
    {
        TokenPair { access_token, token_type: String::from_str("Bearer"), expires_in }
    }
}

/// The payload embedded in a signed token: subject id, email, role names,
/// and the expiry and issue instants as Unix seconds.
#[derive(Debug)]
pub struct Claims {
    pub sub: String,
    pub email: String,
    pub roles: Vec<String>,
    pub exp: i64,
    pub iat: i64,
}

/// Mathematical image of a `Claims` value.
pub struct ClaimsView {
    pub sub: Seq<char>,
    pub email: Seq<char>,
    pub roles: Seq<Seq<char>>,
    pub exp: int,
    pub iat: int,
}

impl View for Claims {
    type V = ClaimsView;

    open spec fn view(&self) -> ClaimsView {
        ClaimsView {
            sub: self.sub@,
            email: self.email@,
            roles: self.roles.deep_view(),
            exp: self.exp as int,
            iat: self.iat as int,
        }
    }
}

/// Claims are well-formed when they were issued strictly before they expire.
pub open spec fn claims_wf(c: ClaimsView) -> bool {
    c.iat < c.exp
}

impl Clone for Claims {
    fn clone(&self) -> (r: Self)
        ensures
            r@ == self@,
    {
        let roles = self.roles.clone();
        proof {
            assert forall|i: int| 0 <= i < roles@.len() implies roles@[i]@ == self.roles@[i]@ by {
                assert(cloned::<String>(self.roles@[i], roles@[i]));
            }
            assert(roles.deep_view() =~= self.roles.deep_view());
        }
        Claims {
            sub: self.sub.clone(),
            email: self.email.clone(),
            roles,
            exp: self.exp,
            iat: self.iat,
        }
    }
}

// ===========================================================================
// Pagination
// ===========================================================================

/// The default page number for list queries.
pub fn default_page() -> (r: u32)
    ensures
        r == 1,
{
    1
}

/// The default page size for list queries.
pub fn default_per_page() -> (r: u32)
    ensures
        r == 20,
{
    20
}

/// Pagination parameters for list queries: a 1-indexed page number and a
/// page size capped at 100.
#[derive(Debug, Clone, Copy)]
pub struct PaginationParams {
    pub page: u32,
    pub per_page: u32,
}

impl PaginationParams {
    /// Normalise raw parameters: the page is at least 1 and the page size is
    /// clamped to 1..=100.
    pub fn new(page: u32, per_page: u32) -> (r: Self)
        ensures
            r.page == if page == 0 { 1u32 } else { page },
            r.per_page == if per_page == 0 { 1u32 } else if per_page > 100 { 100u32 } else { per_page },
    {
        let p: u32 = if page == 0 { 1 } else { page };
        let pp: u32 = if per_page == 0 { 1 } else if per_page > 100 { 100 } else { per_page };
        PaginationParams { page: p, per_page: pp }
    }

    /// The row offset a store should skip: `(page - 1) * per_page`,
    /// saturating at zero for a page number of zero.
    pub fn offset(&self) -> (r: u32)
        requires
            (if self.page == 0 { 0int } else { (self.page - 1) * self.per_page as int }) <= u32::MAX as int,
        ensures
            r == if self.page == 0 { 0int } else { (self.page - 1) * self.per_page as int },
    {
        let base: u32 = if self.page == 0 { 0 } else { self.page - 1 };
        base * self.per_page
    }

    /// The row limit a store should apply: the page size, capped at 100.
    pub fn limit(&self) -> (r: u32)
        ensures
            r == if self.per_page > 100 { 100u32 } else { self.per_page },
    {
        if self.per_page > 100 {
            100
        } else {
            self.per_page
        }
    }
}

/// Number of pages needed for `total` items at `per_page` items a page,
/// rounding up.
pub open spec fn spec_total_pages(total: int, per_page: int) -> int {
    (total + per_page - 1) / per_page
}

/// One page of a listing, together with the counts a caller needs to page
/// further.
#[derive(Debug)]
pub struct Page<T> {
    pub items: Vec<T>,
    pub total: u64,
    pub page: u32,
    pub per_page: u32,
    pub total_pages: u32,
}

impl<T> Page<T> {
    /// Wrap one page of items; the page count is the total divided by the
    /// page size, rounded up.
    pub fn new(items: Vec<T>, total: u64, params: &PaginationParams) -> (r: Self)
        requires
            params.per_page >= 1,
            total + params.per_page <= u64::MAX,
            spec_total_pages(total as int, params.per_page as int) <= u32::MAX as int,
        ensures
            r.items == items,
            r.total == total,
            r.page == params.page,
            r.per_page == params.per_page,
            r.total_pages == spec_total_pages(total as int, params.per_page as int),
    {
        let per: u64 = params.per_page as u64;
        let pages64: u64 = (total + per - 1) / per;
        Page {
            items,
            total,
            page: params.page,
            per_page: params.per_page,
            total_pages: pages64 as u32,
        }
    }
}

// ===========================================================================
// Outside calls
// ===========================================================================

/// Relies on `uuid::Uuid::new_v4` and its `Display` form: a fresh random
/// version-4 UUID in the standard hyphenated text form. The result is
/// random, so nothing is stated of it.
#[verifier::external_body]
pub(crate) fn fresh_uuid() -> String {
    uuid::Uuid::new_v4().to_string()
}

/// Relies on `chrono::Utc::now`: the current Unix timestamp in seconds.
/// `Utc::now` panics rather than answer for a system clock set before the
/// Unix epoch, so the result is never negative; and chrono documents that
/// every representable datetime lies within about ±262,000 years of the
/// common era, so the timestamp stays well inside the stated range.
#[verifier::external_body]
pub(crate) fn current_unix_time() -> (r: i64)
    ensures
        0 <= r <= 10_000_000_000_000,
{
    chrono::Utc::now().timestamp()
}

}
