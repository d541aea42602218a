//! Shapes of the authentication surface: token payloads, claims, and
//! the login and user management requests with their validation rules.
//! Hashing, token signing and the clock live outside the library.

use vstd::prelude::*;

verus! {

/// Errors of the authentication stage.
#[derive(Debug, Clone, Copy, PartialEq, Eq, Structural)]
pub enum AuthError {
    /// The presented token is invalid.
    InvalidToken,
    /// A token could not be created.
    TokenCreation,
    /// No authentication was presented.
    MissingAuth,
}

impl AuthError {
    /// The HTTP status and message the error maps to.
    pub fn code(&self) -> (r: (u16, String))
        ensures
            match self {
                AuthError::InvalidToken => r.0 == 401u16 && r.1@ == "Invalid authentication token"@,
                AuthError::TokenCreation => r.0 == 500u16 && r.1@
                    == "Failed to create authentication token"@,
                AuthError::MissingAuth => r.0 == 401u16 && r.1@ == "Authentication required"@,
            },
    {
        match self {
            AuthError::InvalidToken => (401, String::from_str("Invalid authentication token")),
            AuthError::TokenCreation => (
                500,
                String::from_str("Failed to create authentication token"),
            ),
            AuthError::MissingAuth => (401, String::from_str("Authentication required")),
        }
    }
}

/// A presented bearer token.
#[derive(Debug, Clone)]
pub struct AuthPayload {
    pub token: String,
}

/// An issued bearer token.
#[derive(Debug, Clone)]
pub struct AuthBody {
    pub token: String,
    pub token_type: String,
}

impl AuthBody {
    /// Wrap an issued token as a bearer credential.
    pub fn new(token: String) -> (r: AuthBody)
        ensures
            r.token == token,
            r.token_type@ == "Bearer"@,
    {
        AuthBody { token, token_type: String::from_str("Bearer") }
    }
}

/// The claims of an issued token.
#[derive(Debug, Clone)]
pub struct JwtClaims {
    /// Subject.
    pub sub: String,
    /// Expiration time, seconds since the epoch.
    pub exp: i64,
    /// Issuer.
    pub iss: String,
    /// Not before, seconds since the epoch.
    pub nbf: i64,
}

impl JwtClaims {
    /// Claims for a subject, valid from `now` for the configured
    /// number of hours.
    pub fn new(sub: String, now_secs: i64, expiry_hours: u64) -> (r: JwtClaims)
        requires
            0 <= now_secs,
            expiry_hours * 3600 + now_secs <= i64::MAX,
        ensures
            r.sub == sub,
            r.nbf == now_secs,
            r.exp == now_secs + expiry_hours * 3600,
            r.iss@ == "ComikNet"@,
    {
        JwtClaims {
            sub,
            exp: now_secs + (expiry_hours as i64) * 3600,
            iss: String::from_str("ComikNet"),
            nbf: now_secs,
        }
    }

    /// Whether the claims admit a request at `now`: not before `nbf`
    /// and strictly before `exp`.
    pub fn valid_at(&self, now_secs: i64) -> (r: bool)
        ensures
            r == (self.nbf <= now_secs < self.exp),
    {
        self.nbf <= now_secs && now_secs < self.exp
    }
}

/// A login request.
#[derive(Debug, Clone)]
pub struct LoginPayload {
    pub username: String,
    pub password: String,
}

impl LoginPayload {
    /// The username needs at least three characters and the password
    /// at least six.
    pub fn validate(&self) -> (r: bool)
        ensures
            r == (self.username@.len() >= 3 && self.password@.len() >= 6),
    {
        self.username.as_str().unicode_len() >= 3 && self.password.as_str().unicode_len() >= 6
    }
}

/// Request model for creating a new user.
#[derive(Debug, Clone)]
pub struct CreateUserPayload {
    /// Unique username (required).
    pub username: String,
    /// User's email address (required).
    pub email: String,
    /// User's password (required, hashed before storage).
    pub password: String,
    /// Display name (optional).
    pub display_name: Option<String>,
    /// Avatar URL (optional).
    pub avatar: Option<String>,
}

/// Request model for updating an existing user.
#[derive(Debug, Clone)]
pub struct UpdateUserPayload {
    /// User's email address (optional).
    pub email: Option<String>,
    /// User's password (optional, hashed before storage).
    pub password: Option<String>,
    /// Display name (optional).
    pub display_name: Option<String>,
    /// Avatar URL (optional).
    pub avatar: Option<String>,
}

} // verus!
