//! The account-facing response types. Identity itself — sessions, tokens,
//! password handling — lives outside the library; what is verified here is
//! how a user's data is projected into each response, and who may touch the
//! settings.

use vstd::prelude::*;

verus! {

/// A user's role.
#[derive(Clone, Copy, Debug, PartialEq, Eq, Structural)]
pub enum UserRole {
    Admin,
    User,
}

/// The user data the responses are built from: the identity the auth service
/// resolved, as plain values.
pub struct User {
    pub pid: String,
    pub username: String,
    pub email: String,
    pub api_key: String,
    pub role: UserRole,
    pub email_verified_at: Option<i64>,
}

/// A login request's credentials.
pub struct LoginInfo {
    pub username: String,
    pub password: String,
}

/// The claims carried by a session token.
pub struct Claims {
    pub sub: String,
    pub exp: i64,
}

/// What a successful login answers.
pub struct LoginResponse {
    pub pid: String,
    pub role: UserRole,
    pub username: String,
    pub is_verified: bool,
}

impl LoginResponse {
    pub fn new(user: &User) -> (r: LoginResponse)
        ensures
            r.pid@ == user.pid@,
            r.role == user.role,
            r.username@ == user.username@,
            r.is_verified == (user.email_verified_at is Some),
    {
        LoginResponse {
            pid: user.pid.clone(),
            role: user.role,
            username: user.username.clone(),
            is_verified: matches!(user.email_verified_at, Some(_)),
        }
    }
}

/// The API key of the current user.
pub struct ApiKeyResponse {
    pub key: String,
}

/// Who the current session belongs to.
pub struct CurrentResponse {
    pub pid: String,
    pub role: UserRole,
    pub username: String,
    pub email: String,
}

impl CurrentResponse {
    pub fn new(user: &User) -> (r: CurrentResponse)
        ensures
            r.pid@ == user.pid@,
            r.role == user.role,
            r.username@ == user.username@,
            r.email@ == user.email@,
    {
        CurrentResponse {
            pid: user.pid.clone(),
            role: user.role,
            username: user.username.clone(),
            email: user.email.clone(),
        }
    }
}

/// The profile endpoint's response.
pub struct UserProfileResponse {
    pub email: String,
    pub name: String,
    pub api_token: String,
}

/// Projects a user into the profile response.
pub fn user_profile_response(user: &User) -> (r: UserProfileResponse)
    ensures
        r.email@ == user.email@,
        r.name@ == user.username@,
        r.api_token@ == user.api_key@,
{
    UserProfileResponse {
        email: user.email.clone(),
        name: user.username.clone(),
        api_token: user.api_key.clone(),
    }
}

/// Only an administrator may change settings.
pub fn may_update_settings(user: Option<&User>) -> (r: bool)
    ensures
        r == (user matches Some(u) && u.role == UserRole::Admin),
{
    match user {
        Some(u) => matches!(u.role, UserRole::Admin),
        None => false,
    }
}

} // verus!
