use backend::models::{JwtMiddleware, JwtService};
use backend::token::{
    bearer_token, check_access_claims, check_session_expiry, extract_token, get_token, AuthError,
    TokenClaims,
};

const USER: &str = "67e55044-10b1-426f-9247-bb680e5fe0c8";

fn claims(exp: usize, sub: &str) -> TokenClaims {
    TokenClaims { iat: 0, exp, sub: sub.to_string() }
}

#[test]
fn test_get_token_from_cookie() {
    assert_eq!(get_token(Some("mytoken"), None), Some("mytoken".to_string()));
}

#[test]
fn test_get_token_from_bearer_header() {
    assert_eq!(get_token(None, Some("Bearer mytoken")), Some("mytoken".to_string()));
}

#[test]
fn test_get_token_rejects_non_bearer_auth() {
    assert_eq!(get_token(None, Some("Basic dXNlcjpwYXNz")), None);
}

#[test]
fn test_get_token_short_header_no_panic() {
    assert_eq!(get_token(None, Some("abc")), None);
}

#[test]
fn test_get_token_empty_header_no_panic() {
    assert_eq!(get_token(None, Some("")), None);
}

#[test]
fn test_get_token_cookie_takes_priority() {
    assert_eq!(
        get_token(Some("cookie_token"), Some("Bearer header_token")),
        Some("cookie_token".to_string())
    );
}

#[test]
fn test_get_token_no_cookie_no_header() {
    assert_eq!(get_token(None, None), None);
}

#[test]
fn bearer_prefix_is_case_sensitive_and_may_carry_an_empty_token() {
    assert_eq!(bearer_token("bearer abc"), None);
    assert_eq!(bearer_token("Bearer "), Some(String::new()));
    assert_eq!(bearer_token("Bearer a b"), Some("a b".to_string()));
}

#[test]
fn access_claims_are_judged_by_decoding_then_expiry_then_subject() {
    assert_eq!(check_access_claims(None, 10), Err(AuthError::InvalidToken));
    assert_eq!(check_access_claims(Some(claims(9, USER)), 10), Err(AuthError::TokenExpired));
    assert_eq!(
        check_access_claims(Some(claims(10, USER)), 10),
        Ok(0x67e55044_10b1_426f_9247_bb680e5fe0c8)
    );
    assert_eq!(check_access_claims(Some(claims(10, "not-a-uuid")), 10), Err(AuthError::InvalidUserId));
    // An expired token is refused as expired even when its subject is bad.
    assert_eq!(check_access_claims(Some(claims(9, "not-a-uuid")), 10), Err(AuthError::TokenExpired));
}

#[test]
fn refresh_claims_give_session_and_expiry() {
    assert_eq!(extract_token(None), Err(AuthError::InvalidToken));
    assert_eq!(extract_token(Some(claims(77, "x"))), Err(AuthError::InvalidSessionId));
    assert_eq!(
        extract_token(Some(claims(77, USER))),
        Ok((0x67e55044_10b1_426f_9247_bb680e5fe0c8, 77))
    );
}

#[test]
fn session_expires_strictly_before_now() {
    assert_eq!(check_session_expiry(100, 100), Ok(()));
    assert_eq!(check_session_expiry(99, 100), Err(AuthError::SessionExpired));
    assert_eq!(check_session_expiry(101, 100), Ok(()));
}

#[test]
fn auth_errors_have_their_status_and_text() {
    assert_eq!(AuthError::AccessTokenMissing.status_code(), 401);
    assert_eq!(AuthError::AccessTokenMissing.message(), "Jwt-Token is missing");
    assert_eq!(AuthError::InvalidToken.message(), "Invalid jwt token");
    assert_eq!(AuthError::TokenExpired.message(), "Jwt token expired");
    assert_eq!(AuthError::InvalidUserId.status_code(), 500);
    assert_eq!(AuthError::RefreshTokenMissing.message(), "Refresh-Token is missing");
    assert_eq!(AuthError::InvalidSessionId.message(), "Invalid session id");
    assert_eq!(AuthError::SessionExpired.message(), "Session expired");
    assert_eq!(AuthError::SessionExpired.status_code(), 401);
}

#[test]
fn guard_finds_token_and_user() {
    let guard = JwtMiddleware;
    assert_eq!(guard.token(None, None), Err(AuthError::AccessTokenMissing));
    assert_eq!(guard.token(Some("c"), None), Ok("c".to_string()));
    assert_eq!(guard.token(None, Some("Bearer h")), Ok("h".to_string()));
    assert_eq!(guard.user(Some(claims(50, USER)), 40), Ok(0x67e55044_10b1_426f_9247_bb680e5fe0c8));
    assert_eq!(guard.user(Some(claims(30, USER)), 40), Err(AuthError::TokenExpired));
    let service = JwtService::new(7u8);
    assert_eq!(*service.service(), 7u8);
}
