//! Rate limiting of the login route, of the routes that chargers call and
//! of requests per IP address. The limiters are `governor` keyed rate
//! limiters; whether a request passes depends on the time of earlier
//! requests, so only the handling around the check is stated.

use std::num::NonZeroU32;

use governor::clock::Clock;

use vstd::prelude::*;

use crate::text::{decimal_text, decimal_u64};

verus! {

/// Requests per second (per minute for chargers) in production.
pub const REQUESTS_PER_SECOND: u32 = 5;

/// Burst size in production.
pub const REQUESTS_BURST: u32 = 25;

/// The key of the login limiter: the email and the client's IP address.
#[derive(Clone, PartialEq, Eq, Hash, Debug)]
pub struct LoginRateLimitKey {
    pub user: String,
    pub ip: String,
}

/// The key of the charger limiter: the charger's id and the client's IP.
#[derive(Clone, PartialEq, Eq, Hash, Debug)]
pub struct ChargerRateLimitKey {
    pub charger_id: String,
    pub ip: String,
}

/// The quota a limiter was built with: `per_period` requests per second
/// (per minute when `per_minute`), in bursts of up to `burst`.
#[derive(Debug, Clone, Copy, PartialEq, Eq)]
pub struct Quota {
    pub per_period: u32,
    pub burst: u32,
    pub per_minute: bool,
}

/// The key a login attempt for `email` from `ip` is limited under.
pub fn login_rate_limit_key(email: String, ip: String) -> (k: LoginRateLimitKey)
    ensures
        k.user == email,
        k.ip == ip,
{
    LoginRateLimitKey { user: email, ip }
}

/// The key a request of charger `charger_id` from `ip` is limited under.
pub fn charger_rate_limit_key(charger_id: String, ip: String) -> (k: ChargerRateLimitKey)
    ensures
        k.charger_id == charger_id,
        k.ip == ip,
{
    ChargerRateLimitKey { charger_id, ip }
}

/// A `governor` keyed rate limiter over keys of type `K` with its default
/// state store (a `DashMap`) and clock, held as a private field.
#[verifier::external_body]
#[verifier::reject_recursive_types(K)]
struct GovernorLimiter<K: Clone + std::hash::Hash + Eq> {
    limiter: governor::DefaultKeyedRateLimiter<K>,
}

/// A keyed rate limiter together with the quota it was built with.
#[verifier::reject_recursive_types(K)]
pub struct KeyedLimiter<K: Clone + std::hash::Hash + Eq> {
    governor: GovernorLimiter<K>,
    quota: Quota,
}

impl<K: Clone + std::hash::Hash + Eq> KeyedLimiter<K> {
    /// The quota the limiter enforces.
    pub closed spec fn quota(&self) -> Quota {
        self.quota
    }
}

/// Calls `governor::RateLimiter::keyed` with the quota
/// `Quota::per_second(per_second).allow_burst(burst)`. Trusted: the limiter
/// records that it was built with exactly this quota.
#[verifier::external_body]
fn keyed_limiter_per_second<K: Clone + std::hash::Hash + Eq>(per_second: u32, burst: u32) -> (r: KeyedLimiter<K>)
    requires
        per_second > 0,
        burst > 0,
    ensures
        r.quota() == (Quota { per_period: per_second, burst, per_minute: false }),
{
    let quota = governor::Quota::per_second(NonZeroU32::new(per_second).unwrap());
    KeyedLimiter {
        governor: GovernorLimiter { limiter: governor::RateLimiter::keyed(quota.allow_burst(NonZeroU32::new(burst).unwrap())) },
        quota: Quota { per_period: per_second, burst, per_minute: false },
    }
}

/// Calls `governor::RateLimiter::keyed` with the quota
/// `Quota::per_minute(per_minute).allow_burst(burst)`. Trusted: the limiter
/// records that it was built with exactly this quota.
#[verifier::external_body]
fn keyed_limiter_per_minute<K: Clone + std::hash::Hash + Eq>(per_minute: u32, burst: u32) -> (r: KeyedLimiter<K>)
    requires
        per_minute > 0,
        burst > 0,
    ensures
        r.quota() == (Quota { per_period: per_minute, burst, per_minute: true }),
{
    let quota = governor::Quota::per_minute(NonZeroU32::new(per_minute).unwrap());
    KeyedLimiter {
        governor: GovernorLimiter { limiter: governor::RateLimiter::keyed(quota.allow_burst(NonZeroU32::new(burst).unwrap())) },
        quota: Quota { per_period: per_minute, burst, per_minute: true },
    }
}

/// Calls `check_key` on the limiter; a refusal becomes the number of whole
/// seconds until the key may pass again (`NotUntil::wait_time_from` the
/// limiter clock's now). Whether the key passes depends on the time of
/// earlier checks, so nothing is stated of the result.
#[verifier::external_body]
fn check_key<K: Clone + std::hash::Hash + Eq>(limiter: &KeyedLimiter<K>, key: &K) -> (r: Result<(), u64>) {
    let governor = &limiter.governor.limiter;
    match governor.check_key(key) {
        Ok(()) => Ok(()),
        Err(not_until) => Err(not_until.wait_time_from(governor.clock().now()).as_secs()),
    }
}

/// Why a rate limited request was refused.
#[derive(Debug, Clone, Copy, PartialEq, Eq)]
pub enum RateLimitError {
    /// The request carries no client address; answered as an internal error.
    NoClientAddress,
    /// Too many requests; the client may retry after this many seconds.
    TooManyRequests { retry_after: u64 },
}

/// The body of a refusal for too many requests.
pub open spec fn retry_text(secs: u64) -> Seq<char> {
    "Retry in "@ + decimal_text(secs as int) + " seconds."@
}

impl RateLimitError {
    /// The HTTP status code of the refusal.
    pub fn status_code(&self) -> (code: u16)
        ensures
            code == (match self {
                RateLimitError::NoClientAddress => 500u16,
                RateLimitError::TooManyRequests { .. } => 429u16,
            }),
    {
        match self {
            RateLimitError::NoClientAddress => 500,
            RateLimitError::TooManyRequests { .. } => 429,
        }
    }

    /// The value of the `retry-after` and `x-retry-after` headers, if any.
    pub fn retry_after_header(&self) -> (r: Option<String>)
        ensures
            match self {
                RateLimitError::NoClientAddress => r is None,
                RateLimitError::TooManyRequests { retry_after } => r matches Some(s)
                    && s@ == decimal_text(*retry_after as int),
            },
    {
        match self {
            RateLimitError::NoClientAddress => None,
            RateLimitError::TooManyRequests { retry_after } => Some(decimal_u64(*retry_after)),
        }
    }

    /// The body of the refusal: "Retry in N seconds." for too many
    /// requests, the internal error text otherwise.
    pub fn message(&self) -> (s: String)
        ensures
            match self {
                RateLimitError::NoClientAddress => s@ == crate::error::error_text(crate::error::Error::InternalError),
                RateLimitError::TooManyRequests { retry_after } => s@ == retry_text(*retry_after),
            },
    {
        match self {
            RateLimitError::NoClientAddress => {
                String::from_str(crate::error::Error::InternalError.message())
            },
            RateLimitError::TooManyRequests { retry_after } => {
                let mut s = String::from_str("Retry in ");
                let n = decimal_u64(*retry_after);
                s.append(n.as_str());
                s.append(" seconds.");
                s
            },
        }
    }
}

/// The outcome of a check given what the limiter answered.
pub open spec fn limit_outcome(answer: Result<(), u64>) -> Result<(), RateLimitError> {
    match answer {
        Ok(()) => Ok(()),
        Err(secs) => Err(RateLimitError::TooManyRequests { retry_after: secs }),
    }
}

/// Turn what the limiter answered into the route's outcome.
pub fn outcome_of_check(answer: Result<(), u64>) -> (r: Result<(), RateLimitError>)
    ensures
        r == limit_outcome(answer),
{
    match answer {
        Ok(()) => Ok(()),
        Err(secs) => Err(RateLimitError::TooManyRequests { retry_after: secs }),
    }
}

/// Rate limiter of the login route, keyed by email and client address.
pub struct LoginRateLimiter {
    limiter: KeyedLimiter<LoginRateLimitKey>,
}

impl LoginRateLimiter {
    /// The quota the limiter enforces.
    pub closed spec fn quota(&self) -> Quota {
        self.limiter.quota()
    }

    /// A limiter with the production quota.
    pub fn new() -> (r: Self)
        ensures
            r.quota() == (Quota { per_period: REQUESTS_PER_SECOND, burst: REQUESTS_BURST, per_minute: false }),
    {
        Self::with_quota(REQUESTS_PER_SECOND, REQUESTS_BURST)
    }

    /// A limiter allowing `per_second` requests per second in bursts of `burst`.
    pub fn with_quota(per_second: u32, burst: u32) -> (r: Self)
        requires
            per_second > 0,
            burst > 0,
        ensures
            r.quota() == (Quota { per_period: per_second, burst, per_minute: false }),
    {
        LoginRateLimiter { limiter: keyed_limiter_per_second(per_second, burst) }
    }

    /// Check a login attempt for `email` from the client address `ip`
    /// (`None` when the request carries none).
    pub fn check(&self, email: String, ip: Option<String>) -> (r: Result<(), RateLimitError>)
        ensures
            ip is None ==> r == Err::<(), RateLimitError>(RateLimitError::NoClientAddress),
            ip is Some ==> (r matches Err(e) ==> e is TooManyRequests),
    {
        let ip = match ip {
            Some(ip) => ip,
            None => return Err(RateLimitError::NoClientAddress),
        };
        let key = login_rate_limit_key(email, ip);
        outcome_of_check(check_key(&self.limiter, &key))
    }
}

/// Rate limiter of the routes that chargers call, keyed by charger id and
/// client address; its quota counts per minute.
pub struct ChargerRateLimiter {
    limiter: KeyedLimiter<ChargerRateLimitKey>,
}

impl ChargerRateLimiter {
    /// The quota the limiter enforces.
    pub closed spec fn quota(&self) -> Quota {
        self.limiter.quota()
    }

    /// A limiter with the production quota.
    pub fn new() -> (r: Self)
        ensures
            r.quota() == (Quota { per_period: REQUESTS_PER_SECOND, burst: REQUESTS_BURST, per_minute: true }),
    {
        Self::with_quota(REQUESTS_PER_SECOND, REQUESTS_BURST)
    }

    /// A limiter allowing `per_minute` requests per minute in bursts of `burst`.
    pub fn with_quota(per_minute: u32, burst: u32) -> (r: Self)
        requires
            per_minute > 0,
            burst > 0,
        ensures
            r.quota() == (Quota { per_period: per_minute, burst, per_minute: true }),
    {
        ChargerRateLimiter { limiter: keyed_limiter_per_minute(per_minute, burst) }
    }

    /// Check a request of the charger `charger_id` from the client address
    /// `ip` (`None` when the request carries none).
    pub fn check(&self, charger_id: String, ip: Option<String>) -> (r: Result<(), RateLimitError>)
        ensures
            ip is None ==> r == Err::<(), RateLimitError>(RateLimitError::NoClientAddress),
            ip is Some ==> (r matches Err(e) ==> e is TooManyRequests),
    {
        let ip = match ip {
            Some(ip) => ip,
            None => return Err(RateLimitError::NoClientAddress),
        };
        let key = charger_rate_limit_key(charger_id, ip);
        outcome_of_check(check_key(&self.limiter, &key))
    }
}

/// Rate limiter keyed by client address alone.
pub struct IPRateLimiter {
    limiter: KeyedLimiter<String>,
}

impl IPRateLimiter {
    /// The quota the limiter enforces.
    pub closed spec fn quota(&self) -> Quota {
        self.limiter.quota()
    }

    /// A limiter with the production quota.
    pub fn new() -> (r: Self)
        ensures
            r.quota() == (Quota { per_period: REQUESTS_PER_SECOND, burst: REQUESTS_BURST, per_minute: false }),
    {
        Self::with_quota(REQUESTS_PER_SECOND, REQUESTS_BURST)
    }

    /// A limiter allowing `per_second` requests per second in bursts of `burst`.
    pub fn with_quota(per_second: u32, burst: u32) -> (r: Self)
        requires
            per_second > 0,
            burst > 0,
        ensures
            r.quota() == (Quota { per_period: per_second, burst, per_minute: false }),
    {
        IPRateLimiter { limiter: keyed_limiter_per_second(per_second, burst) }
    }

    /// Check a request from the client address `ip` (`None` when the
    /// request carries none).
    pub fn check(&self, ip: Option<String>) -> (r: Result<(), RateLimitError>)
        ensures
            ip is None ==> r == Err::<(), RateLimitError>(RateLimitError::NoClientAddress),
            ip is Some ==> (r matches Err(e) ==> e is TooManyRequests),
    {
        let ip = match ip {
            Some(ip) => ip,
            None => return Err(RateLimitError::NoClientAddress),
        };
        outcome_of_check(check_key(&self.limiter, &ip))
    }
}

} // verus!
