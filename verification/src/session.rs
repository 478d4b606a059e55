//! The cookies that carry a session: what a login sets, and what a logout
//! or a failed refresh clears.

use vstd::prelude::*;

use crate::text::{concat, decimal_text, joined};

verus! {

/// The text of a cookie as the `cookie` crate writes it (`Display`) for a
/// cookie built with a path of `/`, `HttpOnly`, the given `Max-Age`, and
/// optionally `SameSite=Strict` and `Secure`: the name, `=`, the value, then
/// the attributes in the crate's fixed order.
pub open spec fn cookie_text(name: Seq<char>, value: Seq<char>, max_age_secs: i64, strict: bool, secure: bool) -> Seq<char> {
    name + "="@ + value + "; HttpOnly"@
        + (if strict { "; SameSite=Strict"@ } else { Seq::<char>::empty() })
        + (if secure { "; Secure"@ } else { Seq::<char>::empty() })
        + "; Path=/"@ + "; Max-Age="@ + decimal_text(max_age_secs as int)
}

/// Builds the cookie with `actix_web::cookie::Cookie::build(name, value)`,
/// `.path("/")`, `.max_age(Duration::seconds(max_age_secs))`,
/// `.http_only(true)`, `.secure(secure)`, sets `SameSite=Strict` when
/// `strict` (none otherwise), and writes it with `to_string`. Trusted: the
/// text is as the crate's `Display` writes it (see `cookie_text`; the crate
/// writes name and value as they are, and the `SameSite` value `Strict`
/// never adds `Secure` by itself).
#[verifier::external_body]
fn build_cookie(name: &str, value: &str, max_age_secs: i64, strict: bool, secure: bool) -> (r: String)
    ensures
        r@ == cookie_text(name@, value@, max_age_secs, strict, secure),
{
    let mut cookie = actix_web::cookie::Cookie::build(name.to_owned(), value.to_owned())
        .path("/")
        .max_age(actix_web::cookie::time::Duration::seconds(max_age_secs))
        .http_only(true)
        .secure(secure)
        .finish();
    cookie.set_same_site(strict.then_some(actix_web::cookie::SameSite::Strict));
    cookie.to_string()
}

/// Seconds the access cookie lives: six minutes.
pub const ACCESS_COOKIE_MAX_AGE_SECS: i64 = 360;

/// Seconds the refresh cookie lives: sixty days.
pub const REFRESH_COOKIE_MAX_AGE_SECS: i64 = 5184000;

/// The `Set-Cookie` value that hands out the access token: strict, secure,
/// partitioned, for six minutes.
pub fn access_cookie(token: &str) -> (r: String)
    ensures
        r@ == cookie_text("access_token"@, token@, ACCESS_COOKIE_MAX_AGE_SECS, true, true) + "; Partitioned;"@,
{
    let c = build_cookie("access_token", token, ACCESS_COOKIE_MAX_AGE_SECS, true, true);
    let parts: [&str; 2] = [c.as_str(), "; Partitioned;"];
    let r = concat(&parts);
    proof {
        assert(parts@.map_values(|p: &str| p@) == seq![c@, "; Partitioned;"@]);
        reveal_with_fuel(joined, 3);
    }
    r
}

/// The `Set-Cookie` value that hands out the refresh token: strict,
/// secure, partitioned, for sixty days.
pub fn refresh_cookie(token: &str) -> (r: String)
    ensures
        r@ == cookie_text("refresh_token"@, token@, REFRESH_COOKIE_MAX_AGE_SECS, true, true) + "; Partitioned;"@,
{
    let c = build_cookie("refresh_token", token, REFRESH_COOKIE_MAX_AGE_SECS, true, true);
    let parts: [&str; 2] = [c.as_str(), "; Partitioned;"];
    let r = concat(&parts);
    proof {
        assert(parts@.map_values(|p: &str| p@) == seq![c@, "; Partitioned;"@]);
        reveal_with_fuel(joined, 3);
    }
    r
}

/// The cookies a failed refresh answers with: both session cookies empty
/// and already expired, strict, not marked secure.
pub fn cleared_session_cookies() -> (r: (String, String))
    ensures
        r.0@ == cookie_text("access_token"@, ""@, -1i64, true, false),
        r.1@ == cookie_text("refresh_token"@, ""@, -1i64, true, false),
{
    (build_cookie("access_token", "", -1, true, false), build_cookie("refresh_token", "", -1, true, false))
}

/// The cookie a logout answers with: the access cookie empty and already
/// expired, without `SameSite`, not marked secure.
pub fn logout_cookie() -> (r: String)
    ensures
        r@ == cookie_text("access_token"@, ""@, -1i64, false, false),
{
    build_cookie("access_token", "", -1, false, false)
}

} // verus!
