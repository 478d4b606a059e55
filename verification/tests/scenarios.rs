use backend::accounts::{register_user, RegisterError, RegisterProblems, resend_verification, service_token_answer, validate_register_schema, RegisterSchema};
use backend::chargers::{key_for_connection, removal_plan, selfdestruct_identity, ChargerIdentity, RemovalPlan};
use backend::charger_uid::{encode_charger_uid, ZBASE32_UID_THRESHOLD};
use backend::cleanup::{
    recovery_token_is_stale, refresh_token_is_expired, unreachable_chargers, verification_cleanup,
    AccountState, VerificationToken,
};
use backend::devices::{list_devices, DeviceAccess, DeviceRecord};
use backend::error::Error;
use backend::grouping::{edit_grouping_plan, new_grouping, GroupingError, GroupingRecord};
use backend::validation::{validate_add_charger_schema, validate_wg_key, AddChargerSchema, ChargerSchema, Keys};
use base64::prelude::BASE64_STANDARD;
use base64::Engine;

fn random_secret() -> [u8; 32] {
    let mut bytes = [0u8; 32];
    for (i, b) in bytes.iter_mut().enumerate() {
        *b = rand::random::<u8>() ^ (i as u8);
    }
    bytes
}

fn public_key_text() -> String {
    let secret = boringtun::x25519::StaticSecret::from(random_secret());
    BASE64_STANDARD.encode(boringtun::x25519::PublicKey::from(&secret).as_bytes())
}

#[test]
fn test_key_validator_valid_key() {
    let key = boringtun::x25519::StaticSecret::from(random_secret());
    let key = BASE64_STANDARD.encode(key.to_bytes());
    assert_eq!(Ok(()), validate_wg_key(key.as_str()));
}

#[test]
fn test_key_validator_invalid_key() {
    let key = boringtun::x25519::StaticSecret::from(random_secret());
    let key = BASE64_STANDARD.encode(key.to_bytes());
    assert!(validate_wg_key(&key[0..key.len() - 2]).is_err());
    let key = BASE64_STANDARD.encode(vec![0u8; 20]);
    assert!(validate_wg_key(&key).is_err());
    let key = BASE64_STANDARD.encode(vec![0u8; 50]);
    assert!(validate_wg_key(&key).is_err());
}

fn random_keys() -> [Keys; 5] {
    std::array::from_fn(|i| Keys {
        web_private: random_secret().to_vec(),
        psk: random_secret().to_vec(),
        charger_public: public_key_text(),
        web_address: "0.0.0.0/0".to_string(),
        charger_address: "0.0.0.0/0".to_string(),
        connection_no: i as u16,
    })
}

fn add_schema(uid: String) -> AddChargerSchema {
    let keys = random_keys();
    AddChargerSchema {
        charger: ChargerSchema {
            uid,
            charger_pub: keys[0].charger_public.clone(),
            wg_charger_ip: "0.0.0.0/0".to_string(),
            wg_server_ip: "0.0.0.0/0".to_string(),
            psk: String::new(),
        },
        keys,
        name: String::new(),
        note: String::new(),
    }
}

#[test]
fn test_validate_add_charger_schema() {
    let uid = (rand::random::<u32>() % (ZBASE32_UID_THRESHOLD + 1)) as i32;
    assert!(validate_add_charger_schema(&add_schema(encode_charger_uid(uid))).is_ok());
}

#[test]
fn test_validate_add_charger_schema_with_zbase32_uid() {
    let uid = ZBASE32_UID_THRESHOLD as i32 + 1 + (rand::random::<u32>() % 1_000_000) as i32;
    assert!(validate_add_charger_schema(&add_schema(encode_charger_uid(uid))).is_ok());
}

fn device(id: u128) -> DeviceRecord {
    DeviceRecord {
        id,
        uid: id as i32,
        name: None,
        webinterface_port: 0,
        last_state_change: None,
        firmware_version: String::new(),
    }
}

fn access(charger_id: u128, added_at: Option<i64>) -> DeviceAccess {
    DeviceAccess { charger_id, name: None, note: None, valid: true, added_at }
}

#[test]
fn test_get_devices() {
    // The user owns five chargers and five more are shared with them; five
    // further chargers exist that they may not reach.
    let devices: Vec<DeviceRecord> = (1..=15).map(device).collect();
    let accesses: Vec<DeviceAccess> = (1..=10).map(|id| access(id, None)).collect();
    assert_eq!(list_devices(&devices, &accesses, &Vec::new()).len(), 10);
}

#[test]
fn test_shared_device_has_account_specific_added_time() {
    let devices = vec![device(1)];
    let owner = vec![access(1, Some(1_700_000_000))];
    let guest = vec![access(1, Some(1_710_000_000))];
    assert_eq!(list_devices(&devices, &owner, &Vec::new())[0].added_at, Some(1_700_000_000));
    assert_eq!(list_devices(&devices, &guest, &Vec::new())[0].added_at, Some(1_710_000_000));
}

#[test]
fn test_race_condition_allowed_user_deleted_between_queries() {
    // The first charger lost its access between the two reads.
    let devices = vec![device(1), device(2)];
    let accesses = vec![access(2, None)];
    let resp = list_devices(&devices, &accesses, &Vec::new());
    assert_eq!(resp.len(), 1);
    assert_eq!(resp[0].id, uuid::Uuid::from_u128(2).to_string());
}

fn grouping(id: u128, user: u128, is_default: bool) -> GroupingRecord {
    GroupingRecord { id, name: "g".to_string(), user_id: user, is_default }
}

#[test]
fn test_edit_grouping_no_fields() {
    assert_eq!(edit_grouping_plan(Some(grouping(1, 1, false)), 1, None, None).unwrap_err(), GroupingError::InvalidPayload);
}

#[test]
fn test_edit_grouping_not_found() {
    assert_eq!(edit_grouping_plan(None, 1, Some("x".to_string()), None).unwrap_err(), GroupingError::NotFound);
}

#[test]
fn test_edit_grouping_unauthorized() {
    assert_eq!(
        edit_grouping_plan(Some(grouping(1, 2, false)), 1, Some("x".to_string()), None).unwrap_err(),
        GroupingError::Unauthorized
    );
}

#[test]
fn test_edit_grouping_promote_clears_previous_default() {
    let plan = edit_grouping_plan(Some(grouping(2, 1, false)), 1, None, Some(true)).unwrap();
    assert!(plan.clear_other_defaults);
    assert_eq!(plan.is_default, Some(true));
}

#[test]
fn test_edit_grouping_clear_default() {
    let plan = edit_grouping_plan(Some(grouping(2, 1, true)), 1, None, Some(false)).unwrap();
    assert!(!plan.clear_other_defaults);
    assert_eq!(plan.is_default, Some(false));
}

#[test]
fn test_create_grouping_as_default_clears_existing_default() {
    let (g, clear) = new_grouping(3, "n".to_string(), 1, true);
    assert!(g.is_default);
    assert!(clear);
}

#[test]
fn test_returns_configured_token() {
    assert_eq!(service_token_answer(Some("service-token".to_string())), Ok("service-token".to_string()));
}

#[test]
fn test_missing_env_var_returns_500() {
    let e = service_token_answer(None).unwrap_err();
    assert_eq!(e.status_code(), 500);
}

#[test]
fn test_empty_env_var_returns_500() {
    let e = service_token_answer(Some(String::new())).unwrap_err();
    assert_eq!(e.status_code(), 500);
}

#[test]
fn test_resend_unverified() {
    assert!(resend_verification(Some((1, false)), 0).unwrap().is_some());
}

#[test]
fn test_resend_verified() {
    assert!(resend_verification(Some((1, true)), 0).unwrap().is_none());
}

#[test]
fn test_resend_missing() {
    assert_eq!(resend_verification(None, 0).unwrap_err(), Error::UserDoesNotExist);
}

fn register(name: &str, email: &str) -> RegisterSchema {
    RegisterSchema {
        name: name.to_string(),
        email: email.to_string(),
        login_key: vec![1; 24],
        login_salt: vec![2; 24],
        secret: vec![3; 24],
        secret_nonce: vec![4; 16],
        secret_salt: vec![5; 24],
    }
}

#[test]
fn test_invalid_email() {
    assert!(validate_register_schema(&register("Test", "invalid_mail")).invalid_email);
    assert_eq!(
        backend::accounts::register(register("Test", "Testtest.de"), false).map(|_| ()),
        Err(RegisterError::Invalid(RegisterProblems { name_too_short: false, invalid_email: true }))
    );
}

#[test]
fn test_short_username() {
    assert!(validate_register_schema(&register("Te", "valid@example.com")).name_too_short);
    assert_eq!(
        backend::accounts::register(register("Te", "Test@test.invalid"), false).map(|_| ()),
        Err(RegisterError::Invalid(RegisterProblems { name_too_short: true, invalid_email: false }))
    );
}

#[test]
fn test_existing_user() {
    assert_eq!(register_user(register("Test", "valid@example.com"), true).unwrap_err().status_code(), 409);
}

#[test]
fn test_get_key_none_left() {
    assert_eq!(key_for_connection(5, None).unwrap_err(), Error::AllKeysInUse);
    assert_eq!(Error::AllKeysInUse.status_code(), 404);
}

#[test]
fn test_valid_remove() {
    assert_eq!(removal_plan(1), RemovalPlan::DeleteCharger);
}

#[test]
fn test_valid_remove_with_allowed_user() {
    assert_eq!(removal_plan(2), RemovalPlan::RemoveOwnAccess);
}

#[test]
fn test_selfdestruction_depricated() {
    let (ident, key) = selfdestruct_identity(Some(4242), &None, &"password".to_string());
    assert!(matches!(ident, ChargerIdentity::ByUid { uid: 4242, .. }));
    assert_eq!(key, Some("4242".to_string()));
}

#[test]
fn test_clean_recovery_tokens() {
    let now = 1_700_000_000;
    let tokens = [now - 6 * 3600 + 1, now - 6 * 3600 - 1, now - 7 * 3600];
    let kept: Vec<i64> = tokens.iter().copied().filter(|c| !recovery_token_is_stale(*c, now)).collect();
    assert_eq!(kept, vec![now - 6 * 3600 + 1]);
}

#[test]
fn test_clean_refresh_tokens() {
    let now = 1_700_000_000;
    let tokens = [now + 1, now - 1];
    let kept: Vec<i64> = tokens.iter().copied().filter(|e| !refresh_token_is_expired(*e, now)).collect();
    assert_eq!(kept, vec![now + 1]);
}

#[test]
fn test_clean_verification_tokens() {
    let now = 1_700_000_000;
    let tokens = vec![
        VerificationToken { id: 10, user: 1, expiration: now - 1 },
        VerificationToken { id: 20, user: 2, expiration: now + 1 },
        VerificationToken { id: 40, user: 4, expiration: now - 1 },
    ];
    let accounts = vec![
        AccountState { id: 1, email_verified: false, old_email: None },
        AccountState { id: 2, email_verified: false, old_email: None },
        AccountState { id: 3, email_verified: true, old_email: None },
        AccountState { id: 4, email_verified: false, old_email: Some("old@invalid".to_string()) },
    ];
    let plan = verification_cleanup(&tokens, &accounts, now);
    // Only the pending verification stays.
    assert_eq!(plan.expired_tokens, vec![10, 40]);
    // The unverified account without a pending verification goes; the
    // unconfirmed email change is undone; the others stay.
    assert_eq!(plan.delete, vec![1]);
    assert_eq!(plan.restore, vec![4]);
}

#[test]
fn test_charger_cleanup() {
    assert_eq!(unreachable_chargers(&vec![1, 2], &vec![2]), vec![1]);
}
