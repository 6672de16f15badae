//! Request and response shapes exchanged with the HTTP layer, and the
//! projections that build them. The user projection excludes the password
//! hash by construction.

use vstd::prelude::*;

use crate::domain::{TokenPair, User};

verus! {

/// Body of a registration request.
#[derive(Debug)]
pub struct RegisterRequest {
    pub username: String,
    pub email: String,
    pub password: String,
}

/// Body of a login request.
#[derive(Debug)]
pub struct LoginRequest {
    pub email: String,
    pub password: String,
}

/// Public projection of a user: id, username and email, and nothing else.
#[derive(Debug)]
pub struct UserDto {
    pub id: String,
    pub username: String,
    pub email: String,
}

impl UserDto {
    /// Project a user for the outside: the password hash has no field to
    /// land in.
    pub fn of_user(user: &User) -> (r: UserDto)
        ensures
            r.id@ == user@.id,
            r.username@ == user@.username,
            r.email@ == user@.email,
    {
        UserDto {
            id: user.id.clone(),
            username: user.username.clone(),
            email: user.email.clone(),
        }
    }
}

/// Body of a successful registration response.
#[derive(Debug)]
pub struct AuthResponse {
    pub user: UserDto,
}

impl AuthResponse {
    /// Wrap the public projection of a freshly registered user.
    pub fn of_user(user: &User) -> (r: AuthResponse)
        ensures
            r.user.id@ == user@.id,
            r.user.username@ == user@.username,
            r.user.email@ == user@.email,
    {
        AuthResponse { user: UserDto::of_user(user) }
    }
}

/// Body of a successful login response.
#[derive(Debug)]
pub struct TokenResponse {
    pub access_token: String,
    pub token_type: String,
    pub expires_in: i64,
}

impl TokenResponse {
    /// Carry a token pair outward unchanged.
    pub fn of_token_pair(token: TokenPair) -> (r: TokenResponse)
        ensures
            r.access_token@ == token.access_token@,
            r.token_type@ == token.token_type@,
            r.expires_in == token.expires_in,
    {
        TokenResponse {
            access_token: token.access_token,
            token_type: token.token_type,
            expires_in: token.expires_in,
        }
    }
}

}
