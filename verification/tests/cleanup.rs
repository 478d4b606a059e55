use backend::calendar::MIN_TIMESTAMP;
use backend::cleanup::{
    recovery_token_is_stale, refresh_token_is_expired, unreachable_chargers, verification_cleanup,
    AccountState, VerificationToken,
};

#[test]
fn recovery_tokens_live_six_hours() {
    let now = 1_000_000;
    assert!(!recovery_token_is_stale(now - 6 * 3600 + 1, now));
    assert!(!recovery_token_is_stale(now - 6 * 3600, now));
    assert!(recovery_token_is_stale(now - 6 * 3600 - 1, now));
    assert!(recovery_token_is_stale(now - 7 * 3600, now));
    // Too early a clock to take six hours from: nothing is stale.
    assert!(!recovery_token_is_stale(i64::MIN, i64::MIN + 5));
    // Six hours after the earliest time there can be, the cutoff exists.
    assert!(recovery_token_is_stale(MIN_TIMESTAMP - 1, MIN_TIMESTAMP + 6 * 3600));
    assert!(!recovery_token_is_stale(MIN_TIMESTAMP - 1, MIN_TIMESTAMP + 6 * 3600 - 1));
    assert_eq!(
        chrono::DateTime::from_timestamp(MIN_TIMESTAMP, 0).map(|d| d.timestamp()),
        Some(MIN_TIMESTAMP)
    );
    assert!(chrono::DateTime::from_timestamp(MIN_TIMESTAMP - 1, 0).is_none());
}

#[test]
fn refresh_tokens_expire_before_now() {
    assert!(!refresh_token_is_expired(101, 100));
    assert!(!refresh_token_is_expired(100, 100));
    assert!(refresh_token_is_expired(99, 100));
}

#[test]
fn verification_cleanup_spares_pending_and_verified_accounts() {
    let now = 5_000;
    // user 1: expired verification, nothing to restore -> deleted
    // user 2: pending verification -> kept
    // user 3: verified -> kept
    // user 4: expired verification of an email change -> change undone
    let tokens = vec![
        VerificationToken { id: 11, user: 1, expiration: now - 1 },
        VerificationToken { id: 12, user: 2, expiration: now + 1 },
        VerificationToken { id: 14, user: 4, expiration: now - 1 },
    ];
    let accounts = vec![
        AccountState { id: 1, email_verified: false, old_email: None },
        AccountState { id: 2, email_verified: false, old_email: None },
        AccountState { id: 3, email_verified: true, old_email: None },
        AccountState { id: 4, email_verified: false, old_email: Some("old@invalid".to_string()) },
    ];
    let plan = verification_cleanup(&tokens, &accounts, now);
    assert_eq!(plan.expired_tokens, vec![11, 14]);
    assert_eq!(plan.restore, vec![4]);
    assert_eq!(plan.delete, vec![1]);
}

#[test]
fn verification_expiring_now_is_still_pending() {
    let tokens = vec![VerificationToken { id: 1, user: 7, expiration: 100 }];
    let accounts = vec![AccountState { id: 7, email_verified: false, old_email: None }];
    let plan = verification_cleanup(&tokens, &accounts, 100);
    assert!(plan.expired_tokens.is_empty());
    assert!(plan.delete.is_empty());
    assert!(plan.restore.is_empty());
}

#[test]
fn chargers_nobody_may_reach_are_removed() {
    let chargers = vec![1, 2, 3, 4];
    let accesses = vec![2, 2, 4];
    assert_eq!(unreachable_chargers(&chargers, &accesses), vec![1, 3]);
    assert!(unreachable_chargers(&chargers, &vec![1, 2, 3, 4]).is_empty());
}
