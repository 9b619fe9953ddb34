//! What is exchanged when a user signs in, and the claims that a token
//! carries.

use crate::clock::{clock_range, now};
use crate::ids::{hyphenated, parse_uuid, uuid_of, uuid_text, UserId};
use crate::message::Timestamp;
use vstd::prelude::*;

verus! {

#[derive(Debug, PartialEq, Eq)]
pub struct LoginRequest {
    pub username: String,
    pub password: String,
}

#[derive(Debug, PartialEq, Eq)]
pub struct RegisterRequest {
    pub full_name: String,
    pub username: String,
    pub email: String,
    pub password: String,
}

#[derive(Debug, PartialEq, Eq)]
pub struct UserInfo {
    pub id: UserId,
    pub full_name: String,
    pub username: String,
    pub email: String,
}

#[derive(Debug, PartialEq, Eq)]
pub struct AuthResponse {
    pub token: String,
    pub user: UserInfo,
}

/// The claims of a token.
#[derive(Debug, PartialEq, Eq)]
pub struct Claims {
    /// The user's id in its hyphenated form.
    pub sub: String,
    pub username: String,
    /// The second at which the token expires.
    pub exp: i64,
    /// The second at which the token was issued.
    pub iat: i64,
}

/// Seconds for which a token is good: a day.
pub const TOKEN_LIFETIME: i64 = 86_400;

impl Claims {
    /// The claims of a token that is issued to `user_id` at the second
    /// `issued_at`.
    pub fn issued(user_id: UserId, username: String, issued_at: i64) -> (claims: Self)
        requires
            issued_at + TOKEN_LIFETIME <= i64::MAX,
        ensures
            claims.sub@ == hyphenated(user_id),
            claims.username == username,
            claims.iat == issued_at,
            claims.exp == issued_at + TOKEN_LIFETIME,
    {
        Claims { sub: uuid_text(user_id), username, exp: issued_at + TOKEN_LIFETIME, iat: issued_at }
    }

    /// The claims of a token that is issued to `user_id` now; it is good for
    /// a day from the second that `iat` holds.
    pub fn new(user_id: UserId, username: String) -> (claims: Self)
        ensures
            claims.sub@ == hyphenated(user_id),
            claims.username == username,
            claims.exp == claims.iat + TOKEN_LIFETIME,
            clock_range(Timestamp { secs: claims.iat, nanos: 0 }),
    {
        let at = now();
        Self::issued(user_id, username, at.secs)
    }
}

/// The user on whose behalf a request runs: what a valid token says of them.
#[derive(Debug, PartialEq, Eq)]
pub struct AuthenticatedUser {
    pub user_id: UserId,
    pub username: String,
}

impl AuthenticatedUser {
    pub fn new(user_id: UserId, username: String) -> (user: Self)
        ensures
            user.user_id == user_id,
            user.username == username,
    {
        AuthenticatedUser { user_id, username }
    }

    /// The user that `claims` speak of, or `None` where their subject is
    /// not the text of a UUID.
    pub fn from_claims(claims: Claims) -> (user: Option<Self>)
        ensures
            match user {
                Some(u) => uuid_of(claims.sub@) == Some(u.user_id) && u.username == claims.username,
                None => uuid_of(claims.sub@) is None,
            },
    {
        match parse_uuid(claims.sub.as_str()) {
            Some(user_id) => Some(AuthenticatedUser { user_id, username: claims.username }),
            None => None,
        }
    }
}

} // verus!
