//! Token codec: HS256-signed, self-contained claims with embedded expiry.
//! Signature handling is delegated to jsonwebtoken behind two named facts;
//! the expiry check is this library's own and is verified exactly.

use vstd::prelude::*;
use vstd::string::StringExecFns;

use jsonwebtoken::{decode, encode, Algorithm, DecodingKey, EncodingKey, Header, Validation};
use serde_json::{Map as JsonMap, Value};

use crate::application::TokenService;
use crate::domain::{
    Claims, ClaimsView, DomainError, DomainErrorView, TokenPair, User, UserView, claims_wf,
    current_unix_time,
};

verus! {

/// The token jsonwebtoken's `encode` produces, with the default HS256
/// header, for given claims and signing secret: a function of those alone.
pub uninterp spec fn token_of(claims: ClaimsView, secret: Seq<char>) -> Seq<char>;

/// The claims the trusted decoding routine below recovers from a token
/// string under a signing secret, `None` when the token's shape or its
/// signature is rejected: a function of the two alone.
pub uninterp spec fn decoded_of(token: Seq<char>, secret: Seq<char>) -> Option<ClaimsView>;

/// Relies on jsonwebtoken's `encode` with the default HS256 header, applied
/// to a JSON object holding exactly the five claim fields. For HS256 the
/// signer accepts a secret of any length and both JSON parts serialize
/// infallibly, so `encode` always succeeds here. JSON encoding and HMAC
/// signing are deterministic in the claims and the secret, so the result is
/// `token_of`; jsonwebtoken documents that `decode` under the same secret
/// recovers the encoded claims, so the token also decodes back to them —
/// provided the expiry is non-negative, since the decoding side reads
/// `exp` as an unsigned number. A JWT is three dot-separated segments and
/// is never empty.
#[verifier::external_body]
fn jwt_encode(
    sub: &String,
    email: &String,
    roles: &Vec<String>,
    exp: i64,
    iat: i64,
    secret: &str,
) -> (r: Result<String, String>)
    requires
        0 <= exp,
    ensures
        r is Ok,
        r matches Ok(t) ==> ({
            let c = (ClaimsView {
                sub: sub@,
                email: email@,
                roles: roles.deep_view(),
                exp: exp as int,
                iat: iat as int,
            });
            &&& t@ == token_of(c, secret@)
            &&& decoded_of(t@, secret@) == Some(c)
            &&& t@.len() > 0
        }),
{
    let mut m = JsonMap::new();
    m.insert("sub".into(), sub.as_str().into());
    m.insert("email".into(), email.as_str().into());
    m.insert("roles".into(), roles.clone().into());
    m.insert("exp".into(), exp.into());
    m.insert("iat".into(), iat.into());
    let key = EncodingKey::from_secret(secret.as_bytes());
    encode(&Header::default(), &Value::Object(m), &key).map_err(|e| e.to_string())
}

/// Relies on jsonwebtoken's `decode` into a `serde_json` value, with HS256
/// signature verification only — the expiry is checked by the caller
/// against its own clock — followed by reads of the five claim fields.
/// Every step is a function of the token and the secret alone, which
/// `decoded_of` names.
#[verifier::external_body]
fn jwt_decode(token: &str, secret: &str) -> (r: Option<Claims>)
    ensures
        r is Some <==> decoded_of(token@, secret@) is Some,
        r matches Some(c) ==> decoded_of(token@, secret@) == Some(c@),
{
    let mut v = Validation::new(Algorithm::HS256);
    v.validate_exp = false;
    let key = DecodingKey::from_secret(secret.as_bytes());
    let c = decode::<Value>(token, &key, &v).ok()?.claims;
    let sub = c["sub"].as_str()?.to_string();
    let email = c["email"].as_str()?.to_string();
    let mut roles: Vec<String> = Vec::new();
    for x in c["roles"].as_array()? {
        roles.push(x.as_str()?.to_string());
    }
    Some(Claims { sub, email, roles, exp: c["exp"].as_i64()?, iat: c["iat"].as_i64()? })
}

/// Process-wide signing configuration: the symmetric secret and the token
/// lifetime in hours. Rotating the secret invalidates all outstanding
/// tokens.
#[derive(Debug)]
pub struct JwtConfig {
    pub secret: String,
    pub expiration_hours: i64,
}

impl JwtConfig {
    pub fn new(secret: String, expiration_hours: i64) -> (r: Self)
        ensures
            r.secret@ == secret@,
            r.expiration_hours == expiration_hours,
    {
        JwtConfig { secret, expiration_hours }
    }
}

/// The claims a token issued for `user` with `roles` at time `now` carries:
/// issued at `now`, expiring `hours` hours later.
pub open spec fn claims_for(user: UserView, roles: Seq<Seq<char>>, now: int, hours: int) -> ClaimsView {
    ClaimsView { sub: user.id, email: user.email, roles, exp: now + hours * 3600, iat: now }
}

/// Whether validation under `secret` accepts `token` at time `now`: the
/// token must decode and its embedded expiry must lie strictly after `now`.
pub open spec fn token_accepted(token: Seq<char>, secret: Seq<char>, now: int) -> bool {
    match decoded_of(token, secret) {
        Some(c) => c.exp > now,
        None => false,
    }
}

/// The one error value every rejected token produces, whatever the reason
/// for the rejection.
pub open spec fn spec_validate_error() -> DomainErrorView {
    DomainErrorView::Unauthorized("Invalid token"@)
}

/// The single role every issued token carries while no richer role system
/// is configured.
pub open spec fn default_roles() -> Seq<Seq<char>> {
    seq!["user"@]
}

/// Signs and validates claims with a shared symmetric secret.
#[derive(Debug)]
pub struct JwtTokenService {
    config: JwtConfig,
}

impl JwtTokenService {
    /// The signing secret, for specifications only.
    pub closed spec fn secret_chars(&self) -> Seq<char> {
        self.config.secret@
    }

    /// The configured token lifetime in hours.
    pub closed spec fn hours(&self) -> int {
        self.config.expiration_hours as int
    }

    pub fn new(config: JwtConfig) -> (r: Self)
        ensures
            r.secret_chars() == config.secret@,
            r.hours() == config.expiration_hours as int,
    {
        JwtTokenService { config }
    }

    /// Issue a token for `user` carrying `roles`, stamped at `now`: issued
    /// at `now`, expiring after the configured lifetime. HS256 signing
    /// cannot fail, so issuance always succeeds.
    pub fn generate_at(&self, user: &User, roles: Vec<String>, now: i64) -> (r: Result<
        TokenPair,
        DomainError,
    >)
        requires
            self.wf(),
            0 <= now <= 10_000_000_000_000,
        ensures
            r is Ok,
            r matches Ok(tp) ==> ({
                let c = claims_for(user@, roles.deep_view(), now as int, self.hours());
                &&& tp.access_token@ == token_of(c, self.secret_chars())
                &&& decoded_of(tp.access_token@, self.secret_chars()) == Some(c)
                &&& tp.token_type@ == "Bearer"@
                &&& tp.expires_in == self.hours() * 3600
                &&& tp.access_token@.len() > 0
            }),
    {
        let exp: i64 = now + self.config.expiration_hours * 3600;
        match jwt_encode(&user.id, &user.email, &roles, exp, now, self.config.secret.as_str()) {
            Ok(t) => Ok(TokenPair::new(t, self.config.expiration_hours * 3600)),
            Err(e) => Err(
                DomainError::internal(
                    String::from_str("Token generation failed: ").concat(e.as_str()),
                ),
            ),
        }
    }

    /// Validate a token at time `now`: the signature must verify and the
    /// embedded expiry must lie strictly in the future. Every rejection —
    /// malformed token, wrong signature, or expired claims — is one and the
    /// same error value, so a caller cannot tell why a token was refused.
    pub fn validate_at(&self, token: &str, now: i64) -> (r: Result<Claims, DomainError>)
        ensures
            r is Ok <==> token_accepted(token@, self.secret_chars(), now as int),
            r matches Ok(c) ==> decoded_of(token@, self.secret_chars()) == Some(c@),
            r matches Err(e) ==> e@ == spec_validate_error(),
    {
        match jwt_decode(token, self.config.secret.as_str()) {
            Some(c) => {
                if c.exp > now {
                    Ok(c)
                } else {
                    Err(DomainError::unauthorized(String::from_str("Invalid token")))
                }
            },
            None => Err(DomainError::unauthorized(String::from_str("Invalid token"))),
        }
    }
}

impl TokenService for JwtTokenService {
    open spec fn wf(&self) -> bool {
        1 <= self.hours() <= 1_000_000
    }

    open spec fn spec_decoded(&self, token: Seq<char>) -> Option<ClaimsView> {
        decoded_of(token, self.secret_chars())
    }

    /// Issue a token for `user` at the current time, carrying the single
    /// default role.
    fn generate(&self, user: &User) -> (r: Result<TokenPair, DomainError>)
        ensures
            r is Ok,
            r matches Ok(tp) ==> tp.expires_in == self.hours() * 3600,
            r matches Ok(tp) ==> ({
                self.spec_decoded(tp.access_token@) matches Some(c) && c.roles == default_roles()
            }),
    {
        let now = current_unix_time();
        let mut roles: Vec<String> = Vec::new();
        roles.push(String::from_str("user"));
        proof {
            assert(roles.deep_view() =~= default_roles());
        }
        self.generate_at(user, roles, now)
    }

    /// Validate a token against the current time.
    fn validate(&self, token: &str) -> (r: Result<Claims, DomainError>)
        ensures
            r matches Err(e) ==> e@ == spec_validate_error(),
    {
        let now = current_unix_time();
        self.validate_at(token, now)
    }
}

/// Law: a token issued at time `now` is immediately accepted by validation
/// at that same time, and the claims it decodes to carry the issuing user's
/// id as their subject and are well-formed.
pub proof fn lemma_issued_token_validates(
    user: UserView,
    roles: Seq<Seq<char>>,
    now: int,
    hours: int,
    secret: Seq<char>,
    token: Seq<char>,
)
    requires
        decoded_of(token, secret) == Some(claims_for(user, roles, now, hours)),
        1 <= hours,
    ensures
        token_accepted(token, secret, now),
        decoded_of(token, secret) matches Some(c) && c.sub == user.id && claims_wf(c),
{
    assert(hours * 3600 >= 3600);
}

/// Law: an expired token and a token that does not decode at all are both
/// rejected; `validate_at` then returns the same error value for either, so
/// the two causes are externally indistinguishable.
pub proof fn lemma_rejections_indistinguishable(
    expired: Seq<char>,
    corrupt: Seq<char>,
    secret: Seq<char>,
    now: int,
)
    requires
        decoded_of(expired, secret) matches Some(c) && c.exp <= now,
        decoded_of(corrupt, secret) is None,
    ensures
        !token_accepted(expired, secret, now),
        !token_accepted(corrupt, secret, now),
{
}

}
