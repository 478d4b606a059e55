//! Finding the token of a request and judging its claims.

use vstd::prelude::*;
use vstd::string::*;

use crate::ids::{parse_uuid, uuid_parsed};

verus! {

/// The claims of an access or refresh token.
#[derive(Debug, Clone)]
pub struct TokenClaims {
    pub iat: usize,
    pub exp: usize,
    pub sub: String,
}

/// Why a request's token was refused.
#[derive(Debug, Clone, Copy, PartialEq, Eq)]
pub enum AuthError {
    /// No access token came with the request.
    AccessTokenMissing,
    /// The token did not decode or its signature did not check.
    InvalidToken,
    /// The access token's expiry lies in the past.
    TokenExpired,
    /// The subject of an access token is not a UUID.
    InvalidUserId,
    /// No refresh token came with the request.
    RefreshTokenMissing,
    /// The subject of a refresh token is not a UUID.
    InvalidSessionId,
    /// The refresh token's expiry lies in the past.
    SessionExpired,
}

/// The HTTP status code each refusal is answered with.
pub open spec fn auth_error_status(e: AuthError) -> u16 {
    match e {
        AuthError::InvalidUserId => 500,
        _ => 401,
    }
}

/// The body each refusal is answered with.
pub open spec fn auth_error_text(e: AuthError) -> Seq<char> {
    match e {
        AuthError::AccessTokenMissing => "Jwt-Token is missing"@,
        AuthError::InvalidToken => "Invalid jwt token"@,
        AuthError::TokenExpired => "Jwt token expired"@,
        AuthError::InvalidUserId => ""@,
        AuthError::RefreshTokenMissing => "Refresh-Token is missing"@,
        AuthError::InvalidSessionId => "Invalid session id"@,
        AuthError::SessionExpired => "Session expired"@,
    }
}

impl AuthError {
    /// The HTTP status code of the refusal.
    pub fn status_code(&self) -> (code: u16)
        ensures
            code == auth_error_status(*self),
    {
        match self {
            AuthError::InvalidUserId => 500,
            _ => 401,
        }
    }

    /// The body of the refusal.
    pub fn message(&self) -> (s: &'static str)
        ensures
            s@ == auth_error_text(*self),
    {
        match self {
            AuthError::AccessTokenMissing => "Jwt-Token is missing",
            AuthError::InvalidToken => "Invalid jwt token",
            AuthError::TokenExpired => "Jwt token expired",
            AuthError::InvalidUserId => "",
            AuthError::RefreshTokenMissing => "Refresh-Token is missing",
            AuthError::InvalidSessionId => "Invalid session id",
            AuthError::SessionExpired => "Session expired",
        }
    }
}

/// The prefix of an `Authorization` header that carries a token.
pub open spec fn bearer_prefix() -> Seq<char> {
    seq!['B', 'e', 'a', 'r', 'e', 'r', ' ']
}

/// The token an `Authorization` header value carries: what follows
/// `"Bearer "`, if the value starts with it.
pub open spec fn bearer_token_of(header: Seq<char>) -> Option<Seq<char>> {
    if header.len() >= 7 && header.take(7) == bearer_prefix() {
        Some(header.skip(7))
    } else {
        None
    }
}

/// The token of a request: the cookie's value if the cookie is present,
/// else the bearer token of the `Authorization` header.
pub open spec fn request_token(cookie: Option<Seq<char>>, authorization: Option<Seq<char>>) -> Option<Seq<char>> {
    match cookie {
        Some(c) => Some(c),
        None => match authorization {
            Some(h) => bearer_token_of(h),
            None => None,
        },
    }
}

/// The token that an `Authorization` header value carries.
pub fn bearer_token(header: &str) -> (r: Option<String>)
    ensures
        match r {
            Some(t) => bearer_token_of(header@) == Some(t@),
            None => bearer_token_of(header@) is None,
        },
{
    let n = header.unicode_len();
    if n < 7 {
        return None;
    }
    let prefix = ['B', 'e', 'a', 'r', 'e', 'r', ' '];
    let mut i: usize = 0;
    while i < 7
        invariant
            n == header@.len(),
            n >= 7,
            i <= 7,
            prefix@ == bearer_prefix(),
            forall|j: int| 0 <= j < i ==> header@[j] == bearer_prefix()[j],
        decreases 7 - i,
    {
        if header.get_char(i) != prefix[i] {
            assert(header@.take(7)[i as int] != bearer_prefix()[i as int]);
            return None;
        }
        i = i + 1;
    }
    assert(header@.take(7) =~= bearer_prefix());
    let rest = header.substring_char(7, n);
    assert(rest@ =~= header@.skip(7));
    Some(rest.to_owned())
}

/// The token of a request, given the value of its cookie of the token's
/// name (if present) and its `Authorization` header (if present and text).
/// The cookie takes priority.
pub fn get_token(cookie: Option<&str>, authorization: Option<&str>) -> (r: Option<String>)
    ensures
        match r {
            Some(t) => request_token(
                match cookie { Some(c) => Some(c@), None => None },
                match authorization { Some(h) => Some(h@), None => None },
            ) == Some(t@),
            None => request_token(
                match cookie { Some(c) => Some(c@), None => None },
                match authorization { Some(h) => Some(h@), None => None },
            ) is None,
        },
{
    match cookie {
        Some(c) => Some(c.to_owned()),
        None => match authorization {
            Some(h) => bearer_token(h),
            None => None,
        },
    }
}

/// The verdict on an access token: its decoding (`None` when decoding or
/// its signature check failed), then its expiry against `now`, then its
/// subject, which must be a UUID.
pub open spec fn access_verdict(decoded: Option<TokenClaims>, now: i64) -> Result<u128, AuthError> {
    match decoded {
        None => Err(AuthError::InvalidToken),
        Some(claims) => if (now as usize) > claims.exp {
            Err(AuthError::TokenExpired)
        } else {
            match uuid_parsed(claims.sub@) {
                Some(id) => Ok(id),
                None => Err(AuthError::InvalidUserId),
            }
        },
    }
}

/// Judge the claims of an access token at time `now` (seconds since the
/// epoch) and give the id of the user it was issued for.
pub fn check_access_claims(decoded: Option<TokenClaims>, now: i64) -> (r: Result<u128, AuthError>)
    ensures
        r == access_verdict(decoded, now),
{
    match decoded {
        None => Err(AuthError::InvalidToken),
        Some(claims) => {
            if (now as usize) > claims.exp {
                return Err(AuthError::TokenExpired);
            }
            match parse_uuid(claims.sub.as_str()) {
                Some(id) => Ok(id),
                None => Err(AuthError::InvalidUserId),
            }
        },
    }
}

/// The verdict on a refresh token's claims: the session id in its subject
/// and its expiry.
pub open spec fn refresh_verdict(decoded: Option<TokenClaims>) -> Result<(u128, usize), AuthError> {
    match decoded {
        None => Err(AuthError::InvalidToken),
        Some(claims) => match uuid_parsed(claims.sub@) {
            Some(id) => Ok((id, claims.exp)),
            None => Err(AuthError::InvalidSessionId),
        },
    }
}

/// Read the session id and expiry of a refresh token from its claims.
pub fn extract_token(decoded: Option<TokenClaims>) -> (r: Result<(u128, usize), AuthError>)
    ensures
        r == refresh_verdict(decoded),
{
    match decoded {
        None => Err(AuthError::InvalidToken),
        Some(claims) => match parse_uuid(claims.sub.as_str()) {
            Some(id) => Ok((id, claims.exp)),
            None => Err(AuthError::InvalidSessionId),
        },
    }
}

/// A refresh session has expired when its expiry lies before `now`.
pub fn check_session_expiry(exp: usize, now: i64) -> (r: Result<(), AuthError>)
    ensures
        r == (if exp < (now as usize) { Err(AuthError::SessionExpired) } else { Ok(()) }),
{
    if exp < (now as usize) {
        Err(AuthError::SessionExpired)
    } else {
        Ok(())
    }
}

} // verus!
