//! Small models the routes exchange, and the access-token guard that
//! protects the routes of a logged-in user.

use vstd::prelude::*;

use crate::ids::{uuid_text, uuid_to_string};
use crate::token::{access_verdict, check_access_claims, get_token, request_token, AuthError, TokenClaims};

verus! {

/// What the server tells about a user.
#[derive(Debug, Clone)]
pub struct FilteredUser {
    pub id: String,
    pub name: String,
    pub email: String,
}

impl FilteredUser {
    /// The public view of the user with id `id`, name and email.
    pub fn from_user(id: u128, name: String, email: String) -> (r: FilteredUser)
        ensures
            r.id@ == uuid_text(id),
            r.name == name,
            r.email == email,
    {
        FilteredUser { id: uuid_to_string(id), name, email }
    }
}

/// A login by email and password.
#[derive(Debug, Clone)]
pub struct LoginSchema {
    pub email: String,
    pub password: String,
}

/// An authorization token as the server lists it to its owner.
#[derive(Debug, Clone, PartialEq, Eq)]
pub struct ResponseAuthorizationToken {
    pub id: String,
    pub token: String,
    pub use_once: bool,
    pub name: String,
    /// Seconds since the epoch.
    pub created_at: i64,
    pub last_used_at: Option<i64>,
}

/// What a charger sends along with a charge log to mail to a user.
#[derive(Debug, Clone)]
pub struct SendChargelogMetadata {
    pub charger_uuid: String,
    pub password: String,
    pub user_uuid: String,
    pub filename: String,
    pub display_name: String,
    pub monthly_send: bool,
}

/// The guard on the routes of a logged-in user: a request passes with a
/// valid access token, and the route learns the user's id from it.
#[derive(Debug, Clone, Copy)]
pub struct JwtMiddleware;

impl JwtMiddleware {
    /// The access token of a request: the `access_token` cookie, else the
    /// bearer token of the `Authorization` header; refused when missing.
    pub fn token(&self, cookie: Option<&str>, authorization: Option<&str>) -> (r: Result<String, AuthError>)
        ensures
            match request_token(
                match cookie { Some(c) => Some(c@), None => None },
                match authorization { Some(a) => Some(a@), None => None },
            ) {
                Some(t) => r matches Ok(s) && s@ == t,
                None => r == Err::<String, AuthError>(AuthError::AccessTokenMissing),
            },
    {
        match get_token(cookie, authorization) {
            Some(t) => Ok(t),
            None => Err(AuthError::AccessTokenMissing),
        }
    }

    /// The user a decoded access token (`None` when it did not decode or
    /// its signature failed) lets in at `now`.
    pub fn user(&self, decoded: Option<TokenClaims>, now: i64) -> (r: Result<u128, AuthError>)
        ensures
            r == access_verdict(decoded, now),
    {
        check_access_claims(decoded, now)
    }
}

/// The guard wrapped around a service.
#[derive(Debug, Clone)]
pub struct JwtService<S> {
    service: S,
}

impl<S> JwtService<S> {
    /// Wrap `service`.
    pub fn new(service: S) -> (r: Self)
        ensures
            r.inner() == service,
    {
        JwtService { service }
    }

    /// The wrapped service.
    pub closed spec fn inner(&self) -> S {
        self.service
    }

    /// The wrapped service, which a request reaches once the guard let it
    /// pass.
    pub fn service(&self) -> (r: &S)
        ensures
            *r == self.inner(),
    {
        &self.service
    }
}

} // verus!
