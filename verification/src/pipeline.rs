//! Request-time pipeline stages: bearer-credential extraction, token
//! validation against the clock, and role gating. Each stage either hands
//! an enriched value to the next or short-circuits with the mapped error;
//! a protected operation is never reached on a failed stage.

use vstd::prelude::*;
use vstd::string::StringExecFns;

use crate::api_error::ApiError;
use crate::domain::{current_unix_time, Claims, DomainError, DomainErrorView, spec_render};
use crate::token::{
    decoded_of, spec_validate_error, token_accepted, JwtTokenService,
};

verus! {

/// A per-request correlation id, assigned before authentication so that
/// authentication failures still carry a traceable id.
#[derive(Debug)]
pub struct RequestId(pub String);

impl Clone for RequestId {
    fn clone(&self) -> (r: Self)
        ensures
            r.0@ == self.0@,
    {
        RequestId(self.0.clone())
    }
}

/// The claims attached to one in-flight request, owned by that request
/// alone.
#[derive(Debug)]
pub struct AuthUser(pub Claims);

/// Claims that may or may not have been attached: `None` on an
/// unauthenticated request.
#[derive(Debug)]
pub struct OptionalAuthUser(pub Option<Claims>);

impl OptionalAuthUser {
    /// Wrap whatever claims a middleware attached; never fails.
    pub fn from_claims(claims: Option<Claims>) -> (r: OptionalAuthUser)
        ensures
            r.0 == claims,
    {
        OptionalAuthUser(claims)
    }
}

/// Whether a header value is a well-formed bearer credential: the exact
/// prefix `"Bearer "` followed by the token.
pub open spec fn is_bearer(header: Seq<char>) -> bool {
    header.len() >= 7 && header.subrange(0, 7) == "Bearer "@
}

/// The token carried by a well-formed bearer header.
pub open spec fn bearer_token_of(header: Seq<char>) -> Seq<char> {
    header.skip(7)
}

/// The error for a request without an authorization header.
pub open spec fn missing_header_error() -> DomainErrorView {
    DomainErrorView::Unauthorized("Missing Authorization header"@)
}

/// The error for an authorization header without the bearer prefix.
pub open spec fn malformed_header_error() -> DomainErrorView {
    DomainErrorView::Unauthorized("Invalid Authorization header format. Use: Bearer <token>"@)
}

/// Pull the bearer token out of the authorization header: absence and a
/// missing `"Bearer "` prefix are distinct unauthorized errors.
pub fn extract_bearer_token(header: Option<&String>) -> (r: Result<String, DomainError>)
    ensures
        match r {
            Ok(t) => header matches Some(h) && is_bearer(h@) && t@ == bearer_token_of(h@),
            Err(e) => match header {
                Some(h) => !is_bearer(h@) && e@ == malformed_header_error(),
                None => e@ == missing_header_error(),
            },
        },
{
    let h = match header {
        None => {
            return Err(
                DomainError::unauthorized(String::from_str("Missing Authorization header")),
            );
        },
        Some(h) => h,
    };
    let s = h.as_str();
    let n = s.unicode_len();
    let prefixed: bool = if n < 7 {
        false
    } else {
        s.get_char(0) == 'B' && s.get_char(1) == 'e' && s.get_char(2) == 'a' && s.get_char(3)
            == 'r' && s.get_char(4) == 'e' && s.get_char(5) == 'r' && s.get_char(6) == ' '
    };
    proof {
        reveal_strlit("Bearer ");
        if prefixed {
            assert(h@.subrange(0, 7) =~= "Bearer "@);
        } else if h@.len() >= 7 && h@.subrange(0, 7) == "Bearer "@ {
            assert forall|i: int| 0 <= i < 7 implies h@[i] == "Bearer "@[i] by {
                assert(h@.subrange(0, 7)[i] == h@[i]);
            }
            assert(false);
        }
    }
    if prefixed {
        let t = s.substring_char(7, n);
        proof {
            assert(t@ =~= bearer_token_of(h@));
        }
        Ok(t.to_owned())
    } else {
        Err(
            DomainError::unauthorized(
                String::from_str("Invalid Authorization header format. Use: Bearer <token>"),
            ),
        )
    }
}

/// Authenticate one request at time `now`: extract the bearer credential,
/// validate it, and hand back the claims to attach to the request context.
/// Every failure is a 401 with the code `UNAUTHORIZED`; the message says
/// whether the header was missing or malformed, but never why a present
/// token was rejected.
pub fn authenticate_request(service: &JwtTokenService, header: Option<&String>, now: i64) -> (r:
    Result<Claims, ApiError>)
    ensures
        r is Ok <==> (header matches Some(h) && is_bearer(h@) && token_accepted(
            bearer_token_of(h@),
            service.secret_chars(),
            now as int,
        )),
        r matches Ok(c) ==> (header matches Some(h) && decoded_of(
            bearer_token_of(h@),
            service.secret_chars(),
        ) == Some(c@) && c@.exp > now),
        r matches Err(a) ==> a@.status == 401 && a@.code == "UNAUTHORIZED"@,
        r matches Err(a) ==> a@.message == (match header {
            None => "Missing Authorization header"@,
            Some(h) => if !is_bearer(h@) {
                "Invalid Authorization header format. Use: Bearer <token>"@
            } else {
                spec_render(spec_validate_error())
            },
        }),
{
    let token = match extract_bearer_token(header) {
        Ok(t) => t,
        Err(_) => {
            return match header {
                None => Err(
                    ApiError::unauthorized(String::from_str("Missing Authorization header")),
                ),
                Some(_) => Err(
                    ApiError::unauthorized(
                        String::from_str(
                            "Invalid Authorization header format. Use: Bearer <token>",
                        ),
                    ),
                ),
            };
        },
    };
    match service.validate_at(token.as_str(), now) {
        Ok(c) => Ok(c),
        Err(e) => Err(ApiError::unauthorized(e.render())),
    }
}

/// Authenticate one request against the current clock.
pub fn authenticate_request_now(service: &JwtTokenService, header: Option<&String>) -> (r: Result<
    Claims,
    ApiError,
>)
    ensures
        r matches Ok(c) ==> (header matches Some(h) && decoded_of(
            bearer_token_of(h@),
            service.secret_chars(),
        ) == Some(c@)),
        r matches Err(a) ==> a@.status == 401 && a@.code == "UNAUTHORIZED"@,
{
    let now = current_unix_time();
    authenticate_request(service, header, now)
}

/// Whether a role list names a role.
pub open spec fn roles_contain(roles: Seq<Seq<char>>, role: Seq<char>) -> bool {
    exists|i: int| 0 <= i < roles.len() && #[trigger] roles[i] == role
}

/// Take the claims a middleware attached to the request; their absence is
/// an authentication failure, not a crash.
impl AuthUser {
    pub fn from_claims(claims: Option<Claims>) -> (r: Result<AuthUser, ApiError>)
        ensures
            match r {
                Ok(a) => claims matches Some(c) && a.0 == c,
                Err(e) => claims is None && e@.status == 401 && e@.code == "UNAUTHORIZED"@
                    && e@.message == "Authentication required"@,
            },
    {
        match claims {
            Some(c) => Ok(AuthUser(c)),
            None => Err(ApiError::unauthorized(String::from_str("Authentication required"))),
        }
    }
}

/// Gate an operation on a role: no attached identity is an authentication
/// failure (401); an identity without the role is a forbidden failure
/// (403) naming the missing role.
pub fn require_role(claims: Option<&Claims>, required_role: &String) -> (r: Result<(), ApiError>)
    ensures
        match r {
            Ok(_) => claims matches Some(c) && roles_contain(c@.roles, required_role@),
            Err(a) => match claims {
                None => a@.status == 401 && a@.code == "UNAUTHORIZED"@ && a@.message
                    == "Authentication required"@,
                Some(c) => !roles_contain(c@.roles, required_role@) && a@.status == 403
                    && a@.code == "FORBIDDEN"@ && a@.message == "Required role '"@
                    + required_role@ + "' not found"@,
            },
        },
{
    match claims {
        None => Err(ApiError::unauthorized(String::from_str("Authentication required"))),
        Some(c) => {
            let n = c.roles.len();
            let mut i: usize = 0;
            while i < n
                invariant
                    claims == Some(c),
                    n == c.roles.len(),
                    i <= n,
                    forall|k: int| 0 <= k < i ==> #[trigger] c@.roles[k] != required_role@,
                decreases n - i,
            {
                if c.roles[i] == *required_role {
                    proof {
                        assert(c@.roles[i as int] == required_role@);
                        assert(roles_contain(c@.roles, required_role@));
                    }
                    return Ok(());
                }
                i += 1;
            }
            Err(
                ApiError::new(
                    403,
                    String::from_str("FORBIDDEN"),
                    String::from_str("Required role '").concat(required_role.as_str()).concat(
                        "' not found",
                    ),
                ),
            )
        },
    }
}

}
