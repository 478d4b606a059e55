//! Accounts: registering, verifying the address, resending the
//! verification, recovering access, and the claims of the tokens a login
//! hands out.

use validator::ValidateEmail;
use vstd::prelude::*;

use crate::calendar::{chrono_max_timestamp, MAX_TIMESTAMP};
use crate::cleanup::EmailState;
use crate::error::Error;
use crate::ids::{new_uuid, parse_uuid, uuid_parsed, uuid_text, uuid_to_string};
use crate::password::{argon2_hashed, hash_key, password_verdict};
use crate::text::{lowercased, to_lowercase};
use crate::password::{login_verdict, UserCredentials};
use crate::jwt::{access_outcome, claims_tuple, jwt_payload, jwt_signed, sign_token};
use crate::token::{access_verdict, refresh_verdict, AuthError, TokenClaims};

verus! {

/// Name for what `validator::ValidateEmail::validate_email` answers for
/// the text `s` (the HTML5 rule for addresses, with IDN domains).
pub uninterp spec fn valid_email(s: Seq<char>) -> bool;

/// Calls `validate_email` of `validator::ValidateEmail` on `s`. Trusted:
/// the answer is the named one, and (as the crate's source returns early)
/// an empty text or one without `@` is no address.
#[verifier::external_body]
fn email_is_valid(s: &str) -> (r: bool)
    ensures
        r == valid_email(s@),
        (s@.len() == 0 || !s@.contains('@')) ==> !r,
{
    s.validate_email()
}

/// A registration request.
#[derive(Debug, Clone)]
pub struct RegisterSchema {
    pub name: String,
    pub email: String,
    pub login_key: Vec<u8>,
    pub login_salt: Vec<u8>,
    pub secret: Vec<u8>,
    pub secret_nonce: Vec<u8>,
    pub secret_salt: Vec<u8>,
}

/// The fields of a registration request that fail validation.
#[derive(Debug, Clone, Copy, PartialEq, Eq)]
pub struct RegisterProblems {
    /// The name has fewer than three characters.
    pub name_too_short: bool,
    /// The email is no address.
    pub invalid_email: bool,
}

/// The problems of a registration request.
pub open spec fn register_problems(schema: RegisterSchema) -> RegisterProblems {
    RegisterProblems { name_too_short: schema.name@.len() < 3, invalid_email: !valid_email(schema.email@) }
}

/// Whether a request has any problem.
pub open spec fn has_problem(p: RegisterProblems) -> bool {
    p.name_too_short || p.invalid_email
}

/// Validate a registration request: a name of at least three characters
/// and an email address (an empty text, or one without `@`, is none).
pub fn validate_register_schema(schema: &RegisterSchema) -> (r: RegisterProblems)
    ensures
        r == register_problems(*schema),
        r.name_too_short == (schema.name@.len() < 3),
        r.invalid_email == !valid_email(schema.email@),
        (schema.email@.len() == 0 || !schema.email@.contains('@')) ==> r.invalid_email,
{
    let name_len = schema.name.as_str().unicode_len();
    RegisterProblems {
        name_too_short: name_len < 3,
        invalid_email: !email_is_valid(schema.email.as_str()),
    }
}

/// The address an account is registered and looked up under: the email in
/// lower case.
pub fn account_email(email: &str) -> (r: String)
    ensures
        r@ == lowercased(email@),
{
    to_lowercase(email)
}

/// A login request: the address and the login key derived from the
/// password.
#[derive(Debug, Clone)]
pub struct LoginSchema {
    pub email: String,
    pub login_key: Vec<u8>,
}

impl LoginSchema {
    /// The address the login is rate limited and looked up under: the
    /// email in lower case.
    pub fn account_email(&self) -> (r: String)
        ensures
            r@ == lowercased(self.email@),
    {
        to_lowercase(self.email.as_str())
    }
}

/// A new account as it is stored.
#[derive(Debug, Clone)]
pub struct NewUser {
    pub id: u128,
    pub name: String,
    pub email: String,
    /// Argon2 hash of the login key.
    pub login_key: String,
    pub email_verified: bool,
    pub secret: Vec<u8>,
    pub secret_nonce: Vec<u8>,
    pub login_salt: Vec<u8>,
    pub secret_salt: Vec<u8>,
}

/// What a registration stores: the account and the id of its pending
/// verification.
#[derive(Debug, Clone)]
pub struct Registration {
    pub user: NewUser,
    pub verification: u128,
}

/// The account and verification a registration stores, given the hash of
/// the login key and the ids drawn for the account and its verification:
/// the account is not yet verified, stores the lower-cased email and the
/// hash, and takes the rest of the request as it is.
pub fn new_registration(schema: RegisterSchema, key_hash: String, id: u128, verification: u128) -> (r: Registration)
    ensures
        r.user.id == id,
        r.verification == verification,
        r.user.name == schema.name,
        r.user.email@ == lowercased(schema.email@),
        r.user.login_key == key_hash,
        !r.user.email_verified,
        r.user.secret == schema.secret,
        r.user.secret_nonce == schema.secret_nonce,
        r.user.login_salt == schema.login_salt,
        r.user.secret_salt == schema.secret_salt,
{
    let email = to_lowercase(schema.email.as_str());
    let user = NewUser {
        id,
        name: schema.name,
        email,
        login_key: key_hash,
        email_verified: false,
        secret: schema.secret,
        secret_nonce: schema.secret_nonce,
        login_salt: schema.login_salt,
        secret_salt: schema.secret_salt,
    };
    Registration { user, verification }
}

/// Register the account of `schema`. `already_registered` tells whether an
/// account exists under the lower-cased email. The login key is hashed with
/// a fresh salt (see `hash_key`, whose salt draw alone can fail for a key
/// that fits Argon2) and the account is `new_registration` of the request
/// with fresh ids.
pub fn register_user(schema: RegisterSchema, already_registered: bool) -> (r: Result<Registration, Error>)
    ensures
        already_registered ==> r == Err::<Registration, Error>(Error::UserAlreadyExists),
        !already_registered ==> match r {
            Err(e) => e == Error::InternalError,
            Ok(reg) => {
                &&& reg.user.name == schema.name
                &&& reg.user.email@ == lowercased(schema.email@)
                &&& password_verdict(reg.user.login_key@, schema.login_key@) == Ok::<bool, Error>(true)
                &&& exists|salt: Seq<u8>| salt.len() == 16 && argon2_hashed(schema.login_key@, salt) == Some(reg.user.login_key@)
                &&& !reg.user.email_verified
                &&& reg.user.secret == schema.secret
                &&& reg.user.secret_nonce == schema.secret_nonce
                &&& reg.user.login_salt == schema.login_salt
                &&& reg.user.secret_salt == schema.secret_salt
            },
        },
{
    if already_registered {
        return Err(Error::UserAlreadyExists);
    }
    let key_hash = match hash_key(schema.login_key.as_slice()) {
        Ok(h) => h,
        Err(_) => return Err(Error::InternalError),
    };
    let id = new_uuid();
    let verification = new_uuid();
    Ok(new_registration(schema, key_hash, id, verification))
}

/// Why a registration was refused.
#[derive(Debug, Clone, Copy, PartialEq, Eq)]
pub enum RegisterError {
    /// The request fails validation (answered as a bad request).
    Invalid(RegisterProblems),
    /// The route's error.
    Route(Error),
}

/// Register the account of a request: a request that fails validation is
/// refused with its problems before anything is looked up or stored; else
/// as `register_user`.
pub fn register(schema: RegisterSchema, already_registered: bool) -> (r: Result<Registration, RegisterError>)
    ensures
        has_problem(register_problems(schema)) ==> r == Err::<Registration, RegisterError>(
            RegisterError::Invalid(register_problems(schema)),
        ),
        !has_problem(register_problems(schema)) && already_registered ==> r == Err::<Registration, RegisterError>(
            RegisterError::Route(Error::UserAlreadyExists),
        ),
        !has_problem(register_problems(schema)) && !already_registered ==> match r {
            Err(e) => e == RegisterError::Route(Error::InternalError),
            Ok(reg) => {
                &&& reg.user.name == schema.name
                &&& reg.user.email@ == lowercased(schema.email@)
                &&& password_verdict(reg.user.login_key@, schema.login_key@) == Ok::<bool, Error>(true)
                &&& !reg.user.email_verified
                &&& reg.user.secret == schema.secret
                &&& reg.user.secret_nonce == schema.secret_nonce
                &&& reg.user.login_salt == schema.login_salt
                &&& reg.user.secret_salt == schema.secret_salt
            },
        },
{
    let problems = validate_register_schema(&schema);
    if problems.name_too_short || problems.invalid_email {
        return Err(RegisterError::Invalid(problems));
    }
    match register_user(schema, already_registered) {
        Ok(reg) => Ok(reg),
        Err(e) => Err(RegisterError::Route(e)),
    }
}

/// Why a verification link was refused.
#[derive(Debug, Clone, Copy, PartialEq, Eq)]
pub enum VerifyError {
    /// The id in the link is no UUID.
    MalformedId,
    /// No verification has that id: the account was verified already or
    /// does not exist.
    UnknownVerification,
}

impl VerifyError {
    /// The text the refusal is answered with; a malformed id is answered
    /// with the UUID parser's own message, which the caller holds.
    pub fn message(&self) -> (s: Option<&'static str>)
        ensures
            *self == VerifyError::UnknownVerification ==> (s matches Some(t) && t@ == "Account was already verified or does not exist"@),
            *self == VerifyError::MalformedId ==> s is None,
    {
        match self {
            VerifyError::MalformedId => None,
            VerifyError::UnknownVerification => Some("Account was already verified or does not exist"),
        }
    }
}

/// The id of the verification a link names.
pub fn verification_id(id: &str) -> (r: Result<u128, VerifyError>)
    ensures
        r == match uuid_parsed(id@) {
            Some(v) => Ok::<u128, VerifyError>(v),
            None => Err(VerifyError::MalformedId),
        },
{
    match parse_uuid(id) {
        Some(v) => Ok(v),
        None => Err(VerifyError::MalformedId),
    }
}

/// The account that a verification (as looked up) confirms; confirming
/// also drops the addresses an email change replaced, and deletes the
/// verification.
pub fn verified_account(verification_user: Option<u128>) -> (r: Result<u128, VerifyError>)
    ensures
        r == match verification_user {
            Some(u) => Ok::<u128, VerifyError>(u),
            None => Err(VerifyError::UnknownVerification),
        },
{
    match verification_user {
        Some(u) => Ok(u),
        None => Err(VerifyError::UnknownVerification),
    }
}

/// What confirming a verification writes to the account: it counts as
/// verified and the addresses an email change replaced are dropped; the
/// current addresses stay.
pub fn verified_email_state(state: EmailState) -> (r: EmailState)
    ensures
        r.email == state.email,
        r.delivery_email == state.delivery_email,
        r.old_email is None,
        r.old_delivery_email is None,
        r.email_verified,
{
    EmailState {
        email: state.email,
        delivery_email: state.delivery_email,
        old_email: None,
        old_delivery_email: None,
        email_verified: true,
    }
}

/// Days a verification stays valid.
pub const VERIFICATION_EXPIRATION_DAYS: u64 = 1;

/// A verification to store for `user` at `now`: it expires a day later.
#[derive(Debug, Clone, Copy)]
pub struct PendingVerification {
    pub id: u128,
    pub user: u128,
    /// Seconds since the epoch.
    pub expiration: i64,
}

/// What a resend request does for the account found under the lower-cased
/// email (its id and whether it is verified): an unknown address is
/// refused; a verified account gets nothing, silently; otherwise its old
/// verifications are replaced by one that expires a day after `now`.
pub fn resend_verification(account: Option<(u128, bool)>, now: i64) -> (r: Result<Option<PendingVerification>, Error>)
    ensures
        match account {
            None => r == Err::<Option<PendingVerification>, Error>(Error::UserDoesNotExist),
            Some((id, verified)) => if verified {
                r == Ok::<Option<PendingVerification>, Error>(None)
            } else if now + 86400 > MAX_TIMESTAMP {
                r == Err::<Option<PendingVerification>, Error>(Error::InternalError)
            } else {
                (r matches Ok(Some(p)) && p.user == id && p.expiration == now + 86400)
            },
        },
{
    match account {
        None => Err(Error::UserDoesNotExist),
        Some((id, verified)) => {
            if verified {
                return Ok(None);
            }
            if now > chrono_max_timestamp() - 86400 {
                return Err(Error::InternalError);
            }
            Ok(Some(PendingVerification { id: new_uuid(), user: id, expiration: now + 86400 }))
        },
    }
}

/// A recovery request: the recovery key from the mail and the new secrets.
#[derive(Debug, Clone)]
pub struct RecoverySchema {
    pub recovery_key: String,
    pub new_login_key: Vec<u8>,
    pub new_login_salt: Vec<u8>,
    pub new_secret_nonce: Vec<u8>,
    pub new_secret_salt: Vec<u8>,
    pub new_encrypted_secret: Vec<u8>,
    pub reused_secret: bool,
}

/// Why a recovery was refused.
#[derive(Debug, Clone, Copy, PartialEq, Eq)]
pub enum RecoveryError {
    /// The recovery key is no UUID ("Recovery key has wrong format").
    MalformedKey,
    /// The route's error.
    Route(Error),
}

impl RecoveryError {
    /// The text of a bad request: a malformed key is one, a route error
    /// is answered as that error.
    pub fn bad_request_text(&self) -> (r: Option<&'static str>)
        ensures
            *self == RecoveryError::MalformedKey ==> (r matches Some(t) && t@ == "Recovery key has wrong format"@),
            self is Route ==> r is None,
    {
        match self {
            RecoveryError::MalformedKey => Some("Recovery key has wrong format"),
            RecoveryError::Route(_) => None,
        }
    }
}

/// The recovery token a request names.
pub fn recovery_token_id(schema: &RecoverySchema) -> (r: Result<u128, RecoveryError>)
    ensures
        r == match uuid_parsed(schema.recovery_key@) {
            Some(v) => Ok::<u128, RecoveryError>(v),
            None => Err(RecoveryError::MalformedKey),
        },
{
    match parse_uuid(schema.recovery_key.as_str()) {
        Some(v) => Ok(v),
        None => Err(RecoveryError::MalformedKey),
    }
}

/// What a recovery writes.
#[derive(Debug, Clone)]
pub struct RecoveryPlan {
    /// The recovery token used, deleted so that it cannot serve twice.
    pub consumed_token: u128,
    pub user: u128,
    /// The secret was not kept: the user's keys are deleted and their
    /// accesses to chargers marked invalid.
    pub invalidate_access: bool,
    /// Argon2 hash of the new login key.
    pub login_key: String,
    pub login_salt: Vec<u8>,
    /// The new encrypted secret.
    pub secret: Vec<u8>,
    pub secret_nonce: Vec<u8>,
    pub secret_salt: Vec<u8>,
}

/// The recovery that the token found under the request's key (its id and
/// its user; `None` when no token has that id) allows.
pub fn recovery_plan(schema: &RecoverySchema, token: Option<(u128, u128)>) -> (r: Result<RecoveryPlan, RecoveryError>)
    ensures
        token is None ==> r == Err::<RecoveryPlan, RecoveryError>(RecoveryError::Route(Error::Unauthorized)),
        token matches Some((t, u)) ==> match r {
            Err(e) => e == RecoveryError::Route(Error::InternalError),
            Ok(p) => {
                &&& p.consumed_token == t
                &&& p.user == u
                &&& p.invalidate_access == !schema.reused_secret
                &&& password_verdict(p.login_key@, schema.new_login_key@) == Ok::<bool, Error>(true)
                &&& p.login_salt@ == schema.new_login_salt@
                &&& p.secret@ == schema.new_encrypted_secret@
                &&& p.secret_nonce@ == schema.new_secret_nonce@
                &&& p.secret_salt@ == schema.new_secret_salt@
            },
        },
{
    match token {
        None => Err(RecoveryError::Route(Error::Unauthorized)),
        Some((t, u)) => match hash_key(schema.new_login_key.as_slice()) {
            Ok(h) => Ok(RecoveryPlan {
                consumed_token: t,
                user: u,
                invalidate_access: !schema.reused_secret,
                login_key: h,
                login_salt: schema.new_login_salt.clone(),
                secret: schema.new_encrypted_secret.clone(),
                secret_nonce: schema.new_secret_nonce.clone(),
                secret_salt: schema.new_secret_salt.clone(),
            }),
            Err(_) => Err(RecoveryError::Route(Error::InternalError)),
        },
    }
}

/// A recovery token to store for `user`, created at `now`.
#[derive(Debug, Clone, Copy)]
pub struct RecoveryToken {
    pub id: u128,
    pub user_id: u128,
    pub created: i64,
}

/// The recovery token that starting a recovery stores.
pub fn new_recovery_token(user: u128, now: i64) -> (r: RecoveryToken)
    ensures
        r.user_id == user,
        r.created == now,
{
    RecoveryToken { id: new_uuid(), user_id: user, created: now }
}

/// The kinds of token whose validity can be checked.
#[derive(Debug, Clone, Copy, PartialEq, Eq)]
pub enum TokenType {
    Recovery,
    Verification,
}

/// Minutes an access token lives.
pub const MAX_TOKEN_AGE_MINUTES: i64 = 6;

/// Days a refresh token lives.
pub const MAX_REFRESH_TOKEN_AGE_DAYS: i64 = 60;

/// The claims of a token issued at `now` (seconds since the epoch) that
/// lives `lifetime` seconds, for the subject `subject`; nothing when the
/// expiry does not fit.
pub open spec fn claims_text_ok(c: TokenClaims, now: i64, lifetime: i64, subject: u128) -> bool {
    &&& c.iat == now as usize
    &&& c.exp == (now + lifetime) as usize
    &&& c.sub@ == uuid_text(subject)
    &&& uuid_parsed(c.sub@) == Some(subject)
}

fn token_claims(now: i64, lifetime: i64, subject: u128) -> (r: Option<TokenClaims>)
    requires
        0 < lifetime < MAX_TIMESTAMP,
    ensures
        now + lifetime > MAX_TIMESTAMP ==> r is None,
        now + lifetime <= MAX_TIMESTAMP ==> (r matches Some(c) && claims_text_ok(c, now, lifetime, subject)),
{
    if now > chrono_max_timestamp() - lifetime {
        return None;
    }
    Some(TokenClaims { iat: now as usize, exp: (now + lifetime) as usize, sub: uuid_to_string(subject) })
}

/// The claims of the access token a login (or refresh) at `now` issues
/// for `user`: it expires six minutes later.
pub fn access_token_claims(now: i64, user: u128) -> (r: Option<TokenClaims>)
    ensures
        now + 360 > MAX_TIMESTAMP ==> r is None,
        now + 360 <= MAX_TIMESTAMP ==> (r matches Some(c) && claims_text_ok(c, now, 360, user)),
{
    token_claims(now, MAX_TOKEN_AGE_MINUTES * 60, user)
}

/// The claims of the refresh token a login at `now` issues for the session
/// `token`: it expires sixty days later. The session is stored with that
/// expiry.
pub fn refresh_token_claims(now: i64, token: u128) -> (r: Option<TokenClaims>)
    ensures
        now + 5184000 > MAX_TIMESTAMP ==> r is None,
        now + 5184000 <= MAX_TIMESTAMP ==> (r matches Some(c) && claims_text_ok(c, now, 5184000, token)),
{
    token_claims(now, MAX_REFRESH_TOKEN_AGE_DAYS * 86400, token)
}

/// The signed access token a login (or refresh) at `now` issues for
/// `user`; a time too late for its expiry, or a failure to sign, is an
/// internal error.
pub fn access_token(now: i64, user: u128, secret: &str) -> (r: Result<String, Error>)
    ensures
        now + 360 > MAX_TIMESTAMP ==> r == Err::<String, Error>(Error::InternalError),
        now + 360 <= MAX_TIMESTAMP ==> match jwt_signed(now as usize, (now + 360) as usize, uuid_text(user), secret@) {
            Some(t) => r matches Ok(s) && s@ == t,
            None => r == Err::<String, Error>(Error::InternalError),
        },
        r matches Err(e) ==> e == Error::InternalError,
        r matches Ok(t) ==> exists|c: TokenClaims| claims_text_ok(c, now, 360, user)
            && jwt_payload(t@, secret@) == Some(claims_tuple(c)),
{
    let claims = match access_token_claims(now, user) {
        Some(c) => c,
        None => return Err(Error::InternalError),
    };
    match sign_token(&claims, secret) {
        Some(t) => Ok(t),
        None => Err(Error::InternalError),
    }
}

/// The signed refresh token a login at `now` issues for the session
/// `session`; a time too late for its expiry, or a failure to sign, is an
/// internal error.
pub fn refresh_token(now: i64, session: u128, secret: &str) -> (r: Result<String, Error>)
    ensures
        now + 5184000 > MAX_TIMESTAMP ==> r == Err::<String, Error>(Error::InternalError),
        now + 5184000 <= MAX_TIMESTAMP ==> match jwt_signed(now as usize, (now + 5184000) as usize, uuid_text(session), secret@) {
            Some(t) => r matches Ok(s) && s@ == t,
            None => r == Err::<String, Error>(Error::InternalError),
        },
        r matches Err(e) ==> e == Error::InternalError,
        r matches Ok(t) ==> exists|c: TokenClaims| claims_text_ok(c, now, 5184000, session)
            && jwt_payload(t@, secret@) == Some(claims_tuple(c)),
{
    let claims = match refresh_token_claims(now, session) {
        Some(c) => c,
        None => return Err(Error::InternalError),
    };
    match sign_token(&claims, secret) {
        Some(t) => Ok(t),
        None => Err(Error::InternalError),
    }
}

/// The answer of the service-token route given the configured token (the
/// value of its environment variable, if set): a missing or empty token is
/// an internal error.
pub fn service_token_answer(configured: Option<String>) -> (r: Result<String, Error>)
    ensures
        match configured {
            Some(t) => if t@.len() > 0 { r == Ok::<String, Error>(t) } else { r == Err::<String, Error>(Error::InternalError) },
            None => r == Err::<String, Error>(Error::InternalError),
        },
{
    match configured {
        Some(t) => if t.as_str().unicode_len() > 0 { Ok(t) } else { Err(Error::InternalError) },
        None => Err(Error::InternalError),
    }
}

/// A freshly issued access token lets its user in until it expires, and
/// not after: checked at `t`, from its issue on, the claims a login at `now`
/// issues for `user` give `user` up to six minutes later and an expiry
/// refusal afterwards (times that fit a machine word).
pub proof fn lemma_access_token_lifetime(c: TokenClaims, now: i64, t: i64, user: u128)
    requires
        claims_text_ok(c, now, 360, user),
        0 <= now <= t,
        now + 360 <= usize::MAX,
        t <= usize::MAX,
    ensures
        t <= now + 360 ==> access_verdict(Some(c), t) == Ok::<u128, AuthError>(user),
        t > now + 360 ==> access_verdict(Some(c), t) == Err::<u128, AuthError>(AuthError::TokenExpired),
{
}

/// An issued access token, checked with the same secret, lets in only its
/// own user, and not after it expired: whatever the check at `t` answers
/// for a token that carries the claims a login at `now` issued for `user`,
/// a success names `user` and, past six minutes, there is none.
pub proof fn lemma_issued_access_token(
    token: Seq<char>,
    secret: Seq<char>,
    c: TokenClaims,
    now: i64,
    t: i64,
    user: u128,
    r: Result<u128, AuthError>,
)
    requires
        claims_text_ok(c, now, 360, user),
        jwt_payload(token, secret) == Some(claims_tuple(c)),
        access_outcome(token, secret, t, r),
        0 <= now <= t,
        now + 360 <= usize::MAX,
        t <= usize::MAX,
    ensures
        r is Ok ==> r == Ok::<u128, AuthError>(user),
        t > now + 360 ==> r is Err,
{
    if r != access_verdict(None, t) {
        let d = choose|d: TokenClaims| jwt_payload(token, secret) == Some(claims_tuple(d)) && r == access_verdict(Some(d), t);
        assert(claims_tuple(d) == claims_tuple(c));
        assert(d.exp == c.exp && d.sub@ == c.sub@);
    }
}

/// A refresh token names its session and carries its expiry: the claims a
/// login at `now` issues for session `token` read back as that session,
/// expiring sixty days later (times that fit a machine word).
pub proof fn lemma_refresh_token_names_session(c: TokenClaims, now: i64, token: u128)
    requires
        claims_text_ok(c, now, 5184000, token),
        0 <= now,
        now + 5184000 <= usize::MAX,
    ensures
        refresh_verdict(Some(c)) == Ok::<(u128, usize), AuthError>((token, (now + 5184000) as usize)),
{
}

/// A registered account logs in with the login key it registered once its
/// address is verified, and not before: the stored hash accepts the key
/// (as registering and recovering state), so the login answers with the
/// account's id when verified, and "not verified" otherwise.
pub proof fn lemma_registered_key_logs_in(id: u128, login_key: String, key: Seq<u8>, verified: bool)
    requires
        password_verdict(login_key@, key) == Ok::<bool, Error>(true),
    ensures
        verified ==> login_verdict(Some(UserCredentials { id, email_verified: verified, login_key }), key)
            == Ok::<u128, Error>(id),
        !verified ==> login_verdict(Some(UserCredentials { id, email_verified: verified, login_key }), key)
            == Err::<u128, Error>(Error::NotVerified),
{
}

} // verus!
