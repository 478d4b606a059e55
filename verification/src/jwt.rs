//! Signing tokens and reading them back, with HS256 and the server's
//! secret, and the verdicts on what a request's token carries.

use jsonwebtoken::{DecodingKey, EncodingKey, Header, Validation};
use vstd::prelude::*;

use crate::token::{access_verdict, check_access_claims, extract_token, refresh_verdict, AuthError, TokenClaims};

verus! {

/// Name for the token that `jsonwebtoken::encode` gives for the claims
/// `iat`, `exp` and `sub` under the default header (HS256) and the key made
/// from the bytes of `secret`, or `None` when encoding fails.
pub uninterp spec fn jwt_signed(iat: usize, exp: usize, sub: Seq<char>, secret: Seq<char>) -> Option<Seq<char>>;

/// Name for the claims `iat`, `exp` and `sub` that `token` carries when its
/// HS256 signature under the key made from `secret` checks out and it
/// passes the checks of `jsonwebtoken::Validation::default()` that do not
/// depend on the current time; `None` otherwise.
pub uninterp spec fn jwt_payload(token: Seq<char>, secret: Seq<char>) -> Option<(usize, usize, Seq<char>)>;

/// The claims as the token carries them.
pub open spec fn claims_tuple(c: TokenClaims) -> (usize, usize, Seq<char>) {
    (c.iat, c.exp, c.sub@)
}

/// Signs the claims with `jsonwebtoken::encode` under `Header::default()`
/// and `EncodingKey::from_secret`, writing them as a JSON object with the
/// fields `iat`, `exp` and `sub`. Trusted: the result is the named token,
/// and that token, read with the same secret, carries the claims signed
/// (decoding checks the HMAC that encoding made with the same key bytes,
/// and the header and the required `exp` claim are those encoding wrote).
#[verifier::external_body]
fn sign_claims(claims: &TokenClaims, secret: &str) -> (r: Option<String>)
    ensures
        match r {
            Some(t) => jwt_signed(claims.iat, claims.exp, claims.sub@, secret@) == Some(t@)
                && jwt_payload(t@, secret@) == Some(claims_tuple(*claims)),
            None => jwt_signed(claims.iat, claims.exp, claims.sub@, secret@) is None,
        },
{
    let mut map = serde_json::Map::new();
    map.insert(String::from("iat"), serde_json::Value::from(claims.iat));
    map.insert(String::from("exp"), serde_json::Value::from(claims.exp));
    map.insert(String::from("sub"), serde_json::Value::from(claims.sub.clone()));
    jsonwebtoken::encode(&Header::default(), &map, &EncodingKey::from_secret(secret.as_bytes())).ok()
}

/// Reads a token with `jsonwebtoken::decode` under
/// `DecodingKey::from_secret` and `Validation::default()`, taking the
/// fields `iat`, `exp` and `sub` of its claims. Trusted: claims that come
/// back are those the token carries (`jwt_payload`). Whether a token that
/// carries claims comes back depends on the time of the call (its expiry is
/// checked against the clock, with a minute of leeway), so that is left
/// unsaid.
#[verifier::external_body]
fn read_claims(token: &str, secret: &str) -> (r: Option<TokenClaims>)
    ensures
        r matches Some(c) ==> jwt_payload(token@, secret@) == Some(claims_tuple(c)),
{
    let data = jsonwebtoken::decode::<serde_json::Map<String, serde_json::Value>>(
        token,
        &DecodingKey::from_secret(secret.as_bytes()),
        &Validation::default(),
    ).ok()?;
    let iat = data.claims.get("iat")?.as_u64()?;
    let exp = data.claims.get("exp")?.as_u64()?;
    let sub = data.claims.get("sub")?.as_str()?;
    Some(TokenClaims { iat: iat as usize, exp: exp as usize, sub: String::from(sub) })
}

/// Sign the claims of a token with the server's secret. The token read
/// back with the same secret carries these claims.
pub fn sign_token(claims: &TokenClaims, secret: &str) -> (r: Option<String>)
    ensures
        match r {
            Some(t) => jwt_signed(claims.iat, claims.exp, claims.sub@, secret@) == Some(t@)
                && jwt_payload(t@, secret@) == Some(claims_tuple(*claims)),
            None => jwt_signed(claims.iat, claims.exp, claims.sub@, secret@) is None,
        },
{
    sign_claims(claims, secret)
}

/// Whether the verdict `r` on an access token can come from reading it at
/// `now`: either nothing was read, or the claims it carries.
pub open spec fn access_outcome(token: Seq<char>, secret: Seq<char>, now: i64, r: Result<u128, AuthError>) -> bool {
    ||| r == access_verdict(None, now)
    ||| exists|c: TokenClaims| jwt_payload(token, secret) == Some(claims_tuple(c)) && r == access_verdict(Some(c), now)
}

/// Check an access token of a request at `now` and give its user. A token
/// that carries no claims under `secret` is refused as invalid; a token
/// that is let in carries claims that `access_verdict` lets in.
pub fn validate_access_token(token: &str, secret: &str, now: i64) -> (r: Result<u128, AuthError>)
    ensures
        access_outcome(token@, secret@, now, r),
        jwt_payload(token@, secret@) is None ==> r == Err::<u128, AuthError>(AuthError::InvalidToken),
{
    let decoded = read_claims(token, secret);
    check_access_claims(decoded, now)
}

/// Read the session id and expiry of a refresh token. A token that carries
/// no claims under `secret` is refused as invalid; what is read comes from
/// the claims it carries.
pub fn read_refresh_token(token: &str, secret: &str) -> (r: Result<(u128, usize), AuthError>)
    ensures
        jwt_payload(token@, secret@) is None ==> r == Err::<(u128, usize), AuthError>(AuthError::InvalidToken),
        r is Ok ==> exists|c: TokenClaims| jwt_payload(token@, secret@) == Some(claims_tuple(c))
            && r == refresh_verdict(Some(c)),
{
    let decoded = read_claims(token, secret);
    extract_token(decoded)
}

} // verus!
