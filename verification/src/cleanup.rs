//! What the periodic cleanup removes: stale recovery and refresh tokens,
//! expired verifications with the accounts and email changes that waited
//! on them, and chargers that nobody may reach any more.

use vstd::prelude::*;

use crate::calendar::{chrono_min_timestamp, MIN_TIMESTAMP};

verus! {

/// Seconds a recovery token stays usable.
pub const RECOVERY_TOKEN_MAX_AGE_SECS: i64 = 6 * 3600;

/// A recovery token created at `created` is removed at `now` when it is
/// older than six hours (both in seconds since the epoch). Where `now` is so
/// early that six hours before it no time can be, nothing is removed.
pub open spec fn recovery_token_stale(created: i64, now: i64) -> bool {
    now - RECOVERY_TOKEN_MAX_AGE_SECS >= MIN_TIMESTAMP && created < now - RECOVERY_TOKEN_MAX_AGE_SECS
}

/// Whether the cleanup removes a recovery token created at `created`.
pub fn recovery_token_is_stale(created: i64, now: i64) -> (r: bool)
    ensures
        r == recovery_token_stale(created, now),
{
    if now < chrono_min_timestamp() + RECOVERY_TOKEN_MAX_AGE_SECS {
        return false;
    }
    created < now - RECOVERY_TOKEN_MAX_AGE_SECS
}

/// Whether the cleanup removes a refresh token: its expiry lies before now.
pub fn refresh_token_is_expired(expiration: i64, now: i64) -> (r: bool)
    ensures
        r == (expiration < now),
{
    expiration < now
}

/// A pending email verification.
#[derive(Debug, Clone, Copy)]
pub struct VerificationToken {
    pub id: u128,
    pub user: u128,
    /// Seconds since the epoch.
    pub expiration: i64,
}

/// The parts of an account that the verification cleanup reads.
#[derive(Debug, Clone)]
pub struct AccountState {
    pub id: u128,
    pub email_verified: bool,
    /// The address an unconfirmed email change replaced.
    pub old_email: Option<String>,
}

/// A verification still waits at `now` when it has not expired.
pub open spec fn token_pending(t: VerificationToken, now: i64) -> bool {
    !(t.expiration < now)
}

/// A user waits for a verification when one of the pending tokens is theirs.
pub open spec fn awaiting(tokens: Seq<VerificationToken>, now: i64, user: u128) -> bool {
    exists|i: int| 0 <= i < tokens.len() && token_pending(#[trigger] tokens[i], now) && tokens[i].user == user
}

/// An unconfirmed email change whose verification expired is undone: the
/// old address comes back and the account counts as verified again.
pub open spec fn to_restore(a: AccountState, tokens: Seq<VerificationToken>, now: i64) -> bool {
    !a.email_verified && !awaiting(tokens, now, a.id) && a.old_email is Some
}

/// An account that never confirmed its address and has no pending
/// verification is deleted.
pub open spec fn to_delete(a: AccountState, tokens: Seq<VerificationToken>, now: i64) -> bool {
    !a.email_verified && !awaiting(tokens, now, a.id) && a.old_email is None
}

/// The address fields of an account.
#[derive(Debug, Clone)]
pub struct EmailState {
    pub email: String,
    pub delivery_email: Option<String>,
    /// The address an unconfirmed email change replaced.
    pub old_email: Option<String>,
    /// The delivery address that change replaced.
    pub old_delivery_email: Option<String>,
    pub email_verified: bool,
}

/// Undo an email change whose verification expired: the old address and
/// the old delivery address come back, the old fields are cleared and the
/// account counts as verified.
pub fn restore_email_change(state: EmailState) -> (r: EmailState)
    requires
        state.old_email is Some,
    ensures
        r.email == state.old_email->0,
        r.delivery_email == state.old_delivery_email,
        r.old_email is None,
        r.old_delivery_email is None,
        r.email_verified,
{
    match state.old_email {
        Some(old) => EmailState {
            email: old,
            delivery_email: state.old_delivery_email,
            old_email: None,
            old_delivery_email: None,
            email_verified: true,
        },
        None => state,
    }
}

/// What the verification cleanup does.
#[derive(Debug, Clone)]
pub struct VerificationCleanup {
    /// Ids of the expired verification tokens, deleted.
    pub expired_tokens: Vec<u128>,
    /// Accounts whose email change is undone.
    pub restore: Vec<u128>,
    /// Accounts deleted.
    pub delete: Vec<u128>,
}

fn is_awaiting(tokens: &Vec<VerificationToken>, now: i64, user: u128) -> (r: bool)
    ensures
        r == awaiting(tokens@, now, user),
{
    let mut i: usize = 0;
    while i < tokens.len()
        invariant
            i <= tokens@.len(),
            forall|m: int| 0 <= m < i ==> !(token_pending(#[trigger] tokens@[m], now) && tokens@[m].user == user),
        decreases tokens@.len() - i,
    {
        let t = tokens[i];
        if !(t.expiration < now) && t.user == user {
            assert(token_pending(tokens@[i as int], now) && tokens@[i as int].user == user);
            return true;
        }
        i = i + 1;
    }
    false
}

/// The verification cleanup at `now` over all verification tokens and all
/// accounts: the expired tokens in stored order, then, in stored order of
/// the accounts, those whose email change is undone and those deleted.
pub fn verification_cleanup(
    tokens: &Vec<VerificationToken>,
    accounts: &Vec<AccountState>,
    now: i64,
) -> (r: VerificationCleanup)
    ensures
        r.expired_tokens@ == tokens@.filter(|t: VerificationToken| !token_pending(t, now)).map_values(
            |t: VerificationToken| t.id,
        ),
        r.restore@ == accounts@.filter(|a: AccountState| to_restore(a, tokens@, now)).map_values(
            |a: AccountState| a.id,
        ),
        r.delete@ == accounts@.filter(|a: AccountState| to_delete(a, tokens@, now)).map_values(
            |a: AccountState| a.id,
        ),
{
    let ghost expired = |t: VerificationToken| !token_pending(t, now);
    let ghost tid = |t: VerificationToken| t.id;
    let mut expired_tokens: Vec<u128> = Vec::new();
    let mut i: usize = 0;
    while i < tokens.len()
        invariant
            i <= tokens@.len(),
            expired == (|t: VerificationToken| !token_pending(t, now)),
            tid == (|t: VerificationToken| t.id),
            expired_tokens@ == tokens@.take(i as int).filter(expired).map_values(tid),
        decreases tokens@.len() - i,
    {
        let t = tokens[i];
        let ghost before = tokens@.take(i as int);
        assert(tokens@.take(i as int + 1) == before.push(t));
        assert(tokens@.take(i as int + 1).drop_last() == before);
        proof {
            reveal_with_fuel(Seq::filter, 1);
        }
        if t.expiration < now {
            assert(tokens@.take(i as int + 1).filter(expired) == before.filter(expired).push(t));
            assert(before.filter(expired).push(t).map_values(tid) == before.filter(expired).map_values(tid).push(t.id));
            expired_tokens.push(t.id);
        } else {
            assert(tokens@.take(i as int + 1).filter(expired) == before.filter(expired));
        }
        i = i + 1;
    }
    assert(tokens@.take(tokens@.len() as int) == tokens@);

    let ghost restore_pred = |a: AccountState| to_restore(a, tokens@, now);
    let ghost delete_pred = |a: AccountState| to_delete(a, tokens@, now);
    let ghost aid = |a: AccountState| a.id;
    let mut restore: Vec<u128> = Vec::new();
    let mut delete: Vec<u128> = Vec::new();
    let mut j: usize = 0;
    while j < accounts.len()
        invariant
            j <= accounts@.len(),
            restore_pred == (|a: AccountState| to_restore(a, tokens@, now)),
            delete_pred == (|a: AccountState| to_delete(a, tokens@, now)),
            aid == (|a: AccountState| a.id),
            restore@ == accounts@.take(j as int).filter(restore_pred).map_values(aid),
            delete@ == accounts@.take(j as int).filter(delete_pred).map_values(aid),
        decreases accounts@.len() - j,
    {
        let a = &accounts[j];
        let ghost before = accounts@.take(j as int);
        assert(accounts@.take(j as int + 1) == before.push(*a));
        assert(accounts@.take(j as int + 1).drop_last() == before);
        proof {
            reveal_with_fuel(Seq::filter, 1);
        }
        let waits = is_awaiting(tokens, now, a.id);
        if !a.email_verified && !waits && a.old_email.is_some() {
            assert(restore_pred(*a) && !delete_pred(*a));
            assert(accounts@.take(j as int + 1).filter(restore_pred) == before.filter(restore_pred).push(*a));
            assert(before.filter(restore_pred).push(*a).map_values(aid) == before.filter(restore_pred).map_values(aid).push(a.id));
            assert(accounts@.take(j as int + 1).filter(delete_pred) == before.filter(delete_pred));
            restore.push(a.id);
        } else if !a.email_verified && !waits {
            assert(!restore_pred(*a) && delete_pred(*a));
            assert(accounts@.take(j as int + 1).filter(delete_pred) == before.filter(delete_pred).push(*a));
            assert(before.filter(delete_pred).push(*a).map_values(aid) == before.filter(delete_pred).map_values(aid).push(a.id));
            assert(accounts@.take(j as int + 1).filter(restore_pred) == before.filter(restore_pred));
            delete.push(a.id);
        } else {
            assert(!restore_pred(*a) && !delete_pred(*a));
            assert(accounts@.take(j as int + 1).filter(restore_pred) == before.filter(restore_pred));
            assert(accounts@.take(j as int + 1).filter(delete_pred) == before.filter(delete_pred));
        }
        j = j + 1;
    }
    assert(accounts@.take(accounts@.len() as int) == accounts@);
    VerificationCleanup { expired_tokens, restore, delete }
}

/// The cleanup never touches a verified account, nor one that still waits
/// for its verification: neither is restored nor deleted.
pub proof fn lemma_cleanup_spares_waiting_and_verified(
    accounts: Seq<AccountState>,
    tokens: Seq<VerificationToken>,
    now: i64,
    a: AccountState,
)
    requires
        a.email_verified || awaiting(tokens, now, a.id),
    ensures
        !accounts.filter(|x: AccountState| to_restore(x, tokens, now)).contains(a),
        !accounts.filter(|x: AccountState| to_delete(x, tokens, now)).contains(a),
{
    let pr = |x: AccountState| to_restore(x, tokens, now);
    let pd = |x: AccountState| to_delete(x, tokens, now);
    if accounts.filter(pr).contains(a) {
        let k = choose|k: int| 0 <= k < accounts.filter(pr).len() && accounts.filter(pr)[k] == a;
        accounts.lemma_filter_pred(pr, k);
    }
    if accounts.filter(pd).contains(a) {
        let k = choose|k: int| 0 <= k < accounts.filter(pd).len() && accounts.filter(pd)[k] == a;
        accounts.lemma_filter_pred(pd, k);
    }
}

/// No account that never confirmed its address outlives the cleanup
/// without a pending verification: each such account is either restored
/// (its email change undone) or deleted.
pub proof fn lemma_cleanup_leaves_no_stale_account(
    accounts: Seq<AccountState>,
    tokens: Seq<VerificationToken>,
    now: i64,
    k: int,
)
    requires
        0 <= k < accounts.len(),
        !accounts[k].email_verified,
        !awaiting(tokens, now, accounts[k].id),
    ensures
        accounts.filter(|x: AccountState| to_restore(x, tokens, now)).contains(accounts[k])
            || accounts.filter(|x: AccountState| to_delete(x, tokens, now)).contains(accounts[k]),
{
    let pr = |x: AccountState| to_restore(x, tokens, now);
    let pd = |x: AccountState| to_delete(x, tokens, now);
    if accounts[k].old_email is Some {
        accounts.lemma_filter_contains(pr, k);
    } else {
        accounts.lemma_filter_contains(pd, k);
    }
}

/// The chargers that the cleanup deletes: those, in stored order, that no
/// user may reach any more. `access_charger_ids` holds the charger of every
/// stored access.
pub fn unreachable_chargers(chargers: &Vec<u128>, access_charger_ids: &Vec<u128>) -> (r: Vec<u128>)
    ensures
        r@ == chargers@.filter(|c: u128| !access_charger_ids@.contains(c)),
{
    let ghost pred = |c: u128| !access_charger_ids@.contains(c);
    let mut out: Vec<u128> = Vec::new();
    let mut i: usize = 0;
    while i < chargers.len()
        invariant
            i <= chargers@.len(),
            pred == (|c: u128| !access_charger_ids@.contains(c)),
            out@ == chargers@.take(i as int).filter(pred),
        decreases chargers@.len() - i,
    {
        let c = chargers[i];
        let ghost before = chargers@.take(i as int);
        assert(chargers@.take(i as int + 1) == before.push(c));
        assert(chargers@.take(i as int + 1).drop_last() == before);
        proof {
            reveal_with_fuel(Seq::filter, 1);
        }
        let mut j: usize = 0;
        let mut found = false;
        while j < access_charger_ids.len()
            invariant
                j <= access_charger_ids@.len(),
                found == (exists|m: int| 0 <= m < j && access_charger_ids@[m] == c),
            decreases access_charger_ids@.len() - j,
        {
            if access_charger_ids[j] == c {
                found = true;
            }
            j = j + 1;
        }
        if !found {
            assert(pred(c));
            out.push(c);
        } else {
            let ghost m = choose|m: int| 0 <= m < j && access_charger_ids@[m] == c;
            assert(access_charger_ids@.contains(c));
        }
        i = i + 1;
    }
    assert(chargers@.take(chargers@.len() as int) == chargers@);
    out
}

} // verus!
