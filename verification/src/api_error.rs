//! Translation of internal failure kinds into the stable external error
//! shape: one status class and one machine-readable code per kind, with
//! internal detail kept out of the external message.

use vstd::prelude::*;
use vstd::string::StringExecFns;

use crate::application::{ApplicationError, ApplicationErrorView};
use crate::domain::{spec_render, DomainError, DomainErrorView};
use crate::service::invalid_credentials_error;
use crate::token::spec_validate_error;

verus! {

/// The externally visible shape of a failure: an HTTP-style status, a
/// stable machine-readable code, and a human-readable message.
#[derive(Debug)]
pub struct ApiError {
    status: u16,
    code: String,
    message: String,
}

/// Mathematical image of an `ApiError`.
pub struct ApiErrorView {
    pub status: int,
    pub code: Seq<char>,
    pub message: Seq<char>,
}

impl View for ApiError {
    type V = ApiErrorView;

    closed spec fn view(&self) -> ApiErrorView {
        ApiErrorView { status: self.status as int, code: self.code@, message: self.message@ }
    }
}

/// The response body an `ApiError` renders to.
#[derive(Debug)]
pub struct ErrorResponse {
    pub error: ErrorBody,
}

/// The inner error object: code and message.
#[derive(Debug)]
pub struct ErrorBody {
    pub code: String,
    pub message: String,
}

/// How each internal failure kind translates: not-found is 404, validation
/// 400, conflict 409, unauthorized 401, internal 500. Every kind renders
/// its message verbatim except the internal kind, whose detail never
/// reaches the outside.
pub open spec fn api_of_domain(d: DomainErrorView) -> ApiErrorView {
    match d {
        DomainErrorView::NotFound { entity: _, id: _ } => ApiErrorView {
            status: 404,
            code: "NOT_FOUND"@,
            message: spec_render(d),
        },
        DomainErrorView::Validation(_) => ApiErrorView {
            status: 400,
            code: "BAD_REQUEST"@,
            message: spec_render(d),
        },
        DomainErrorView::Conflict(_) => ApiErrorView {
            status: 409,
            code: "CONFLICT"@,
            message: spec_render(d),
        },
        DomainErrorView::Internal(_) => ApiErrorView {
            status: 500,
            code: "INTERNAL_ERROR"@,
            message: "An internal error occurred"@,
        },
        DomainErrorView::Unauthorized(_) => ApiErrorView {
            status: 401,
            code: "UNAUTHORIZED"@,
            message: spec_render(d),
        },
    }
}

/// How an application-level failure translates: a wrapped domain failure
/// goes through `api_of_domain`; a use-case message is a 400 shown
/// verbatim.
pub open spec fn api_of_application(a: ApplicationErrorView) -> ApiErrorView {
    match a {
        ApplicationErrorView::Domain(d) => api_of_domain(d),
        ApplicationErrorView::UseCase(m) => ApiErrorView {
            status: 400,
            code: "BAD_REQUEST"@,
            message: m,
        },
    }
}

impl ApiError {
    /// The HTTP-style status.
    pub fn status(&self) -> (r: u16)
        ensures
            r as int == self@.status,
    {
        self.status
    }

    /// The stable machine-readable code.
    pub fn code(&self) -> (r: &String)
        ensures
            r@ == self@.code,
    {
        &self.code
    }

    /// The human-readable message.
    pub fn message(&self) -> (r: &String)
        ensures
            r@ == self@.message,
    {
        &self.message
    }

    pub fn new(status: u16, code: String, message: String) -> (r: Self)
        ensures
            r@ == (ApiErrorView { status: status as int, code: code@, message: message@ }),
    {
        ApiError { status, code, message }
    }

    pub fn not_found(message: String) -> (r: Self)
        ensures
            r@ == (ApiErrorView { status: 404, code: "NOT_FOUND"@, message: message@ }),
    {
        ApiError::new(404, String::from_str("NOT_FOUND"), message)
    }

    pub fn bad_request(message: String) -> (r: Self)
        ensures
            r@ == (ApiErrorView { status: 400, code: "BAD_REQUEST"@, message: message@ }),
    {
        ApiError::new(400, String::from_str("BAD_REQUEST"), message)
    }

    pub fn conflict(message: String) -> (r: Self)
        ensures
            r@ == (ApiErrorView { status: 409, code: "CONFLICT"@, message: message@ }),
    {
        ApiError::new(409, String::from_str("CONFLICT"), message)
    }

    pub fn internal(message: String) -> (r: Self)
        ensures
            r@ == (ApiErrorView { status: 500, code: "INTERNAL_ERROR"@, message: message@ }),
    {
        ApiError::new(500, String::from_str("INTERNAL_ERROR"), message)
    }

    pub fn unauthorized(message: String) -> (r: Self)
        ensures
            r@ == (ApiErrorView { status: 401, code: "UNAUTHORIZED"@, message: message@ }),
    {
        ApiError::new(401, String::from_str("UNAUTHORIZED"), message)
    }

    /// Translate a domain failure into its one external shape.
    pub fn from_domain(err: DomainError) -> (r: Self)
        ensures
            r@ == api_of_domain(err@),
    {
        match &err {
            DomainError::NotFound { entity: _, id: _ } => ApiError::not_found(err.render()),
            DomainError::Validation(_) => ApiError::bad_request(err.render()),
            DomainError::Conflict(_) => ApiError::conflict(err.render()),
            DomainError::Internal(_) => ApiError::internal(
                String::from_str("An internal error occurred"),
            ),
            DomainError::Unauthorized(_) => ApiError::unauthorized(err.render()),
        }
    }

    /// Translate an application failure into its one external shape.
    pub fn from_application(err: ApplicationError) -> (r: Self)
        ensures
            r@ == api_of_application(err@),
    {
        match err {
            ApplicationError::Domain(d) => ApiError::from_domain(d),
            ApplicationError::UseCase(m) => ApiError::bad_request(m),
        }
    }

    /// Split into the status and the response body the HTTP layer sends.
    pub fn into_parts(self) -> (r: (u16, ErrorResponse))
        ensures
            r.0 as int == self@.status,
            r.1.error.code@ == self@.code,
            r.1.error.message@ == self@.message,
    {
        (self.status, ErrorResponse { error: ErrorBody { code: self.code, message: self.message } })
    }
}

/// Law: the two causes of a rejected login — unknown email, wrong password
/// — and the several causes of a rejected token — malformed, bad
/// signature, expired — each collapse to a single error value, and the
/// translations of those values expose one status and one code: 401 and
/// `UNAUTHORIZED`. No caller can distinguish the underlying cause.
pub proof fn lemma_rejection_translation_uniform()
    ensures
        api_of_domain(invalid_credentials_error()).status == 401,
        api_of_domain(invalid_credentials_error()).code == "UNAUTHORIZED"@,
        api_of_domain(spec_validate_error()).status == 401,
        api_of_domain(spec_validate_error()).code == "UNAUTHORIZED"@,
{
}

}
