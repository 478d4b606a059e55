use backend::accounts::{
    access_token, account_email, new_registration, refresh_token, register, verified_email_state, RegisterError, RegisterProblems,
    RegisterSchema,
};
use backend::calendar::{chrono_max_timestamp, chrono_min_timestamp, MAX_TIMESTAMP, MIN_TIMESTAMP};
use backend::charger_uid::{decode_charger_uid, encode_charger_uid};
use backend::chargers::{
    allow_access, allow_user_decision, charger_info_decision, new_charger_registration, AccessRow, charger_selfdestruct_check, remove_decision, selfdestruct_decision,
    AllowUserError, ChargerIdentity, RemovalPlan,
};
use backend::cleanup::{restore_email_change, EmailState};
use backend::error::{login_status_code, Error};
use backend::grouping::{delete_grouping, GroupingError, GroupingRecord, GroupingRoute};
use backend::jwt::{read_refresh_token, sign_token, validate_access_token};
use backend::mail::{chargelog_mail, chargelog_month};
use backend::management::{
    bridge_after_report, check_charger_password, configured_users_answer, management_decision, management_report, ManagementDataVersion,
    ManagementDataVersion1, ManagementDataVersion2, ManagementSchema, RemoteConnKey, ServerUser, StoredCharger,
};
use backend::password::{hash_key, key_matches, login_decision, UserCredentials};
use backend::rate_limit::{charger_rate_limit_key, login_rate_limit_key};
use backend::salt_cache::{login_salt, salt_cache, SALT_CACHE_CAPACITY};
use backend::token::{AuthError, TokenClaims};
use backend::validation::{AddChargerSchema, ChargerSchema, Keys};
use base64::Engine;

fn hash(p: &str) -> String {
    hash_key(p.as_bytes()).unwrap()
}

fn uuid_string(v: u128) -> String {
    uuid::Uuid::from_u128(v).to_string()
}

#[test]
fn an_oversized_base58_uid_is_refused() {
    assert_eq!(decode_charger_uid("2111111"), None);
    assert!(decode_charger_uid("855c").is_some());
}

#[test]
fn login_errors_carry_the_documented_codes() {
    assert_eq!(login_status_code(Error::NotVerified), 403);
    assert_eq!(login_status_code(Error::WrongCredentials), 401);
    assert_eq!(login_status_code(Error::InternalError), 500);
    let h = hash("right");
    let user = |verified: bool| Some(UserCredentials { id: 5, email_verified: verified, login_key: h.clone() });
    assert_eq!(login_decision(b"wrong", user(false)), Err((Error::NotVerified, 403)));
    assert_eq!(login_decision(b"right", user(false)), Err((Error::NotVerified, 403)));
    assert_eq!(login_decision(b"wrong", user(true)), Err((Error::WrongCredentials, 401)));
    assert_eq!(login_decision(b"right", None), Err((Error::WrongCredentials, 401)));
    assert_eq!(login_decision(b"right", user(true)), Ok(5));
}

#[test]
fn an_unreadable_hash_is_an_internal_error() {
    assert_eq!(key_matches(b"key", "not a hash"), Err(Error::InternalError));
    assert_eq!(key_matches(b"key", &hash("key")), Ok(true));
    assert_eq!(key_matches(b"other", &hash("key")), Ok(false));
}

#[test]
fn grouping_refusals_follow_the_routes() {
    assert_eq!(GroupingError::NotFound.status_code(GroupingRoute::Delete), 404);
    assert_eq!(GroupingError::NotFound.status_code(GroupingRoute::AddDevice), 404);
    assert_eq!(GroupingError::NotFound.status_code(GroupingRoute::Edit), 400);
    assert_eq!(GroupingError::NotFound.status_code(GroupingRoute::RemoveDevice), 400);
    assert_eq!(GroupingError::Unauthorized.status_code(GroupingRoute::Delete), 401);
    assert_eq!(GroupingError::AlreadyInGrouping.status_code(GroupingRoute::AddDevice), 409);
    let g = GroupingRecord { id: 1, name: String::from("g"), user_id: 7, is_default: false };
    assert_eq!(delete_grouping(None, 7), Err(GroupingError::NotFound));
    assert_eq!(delete_grouping(Some(g.clone()), 8), Err(GroupingError::Unauthorized));
    assert_eq!(delete_grouping(Some(g), 7), Ok(()));
}

#[test]
fn rate_limit_keys_hold_what_they_limit() {
    let k = login_rate_limit_key(String::from("a@b.c"), String::from("1.2.3.4"));
    assert_eq!(k.user, "a@b.c");
    assert_eq!(k.ip, "1.2.3.4");
    let k = charger_rate_limit_key(String::from("charger"), String::from("1.2.3.4"));
    assert_eq!(k.charger_id, "charger");
    assert_eq!(k.ip, "1.2.3.4");
}

fn v1() -> ManagementDataVersion {
    ManagementDataVersion::V1(ManagementDataVersion1 {
        port: 80,
        firmware_version: String::from("2.0"),
        configured_connections: vec![],
    })
}

fn v2(id: &str, password: &str) -> ManagementDataVersion {
    ManagementDataVersion::V2(ManagementDataVersion2 {
        id: id.to_string(),
        password: password.to_string(),
        port: 80,
        firmware_version: String::from("2.0"),
        configured_users: vec![],
        mtu: None,
    })
}

#[test]
fn management_reports_are_identified() {
    let stored = StoredCharger { id: 11, uid: 100, password: hash("pw") };
    let no_id = ManagementSchema { id: None, password: Some(String::from("pw")), data: v1() };
    assert_eq!(management_decision(&no_id, Some(stored.clone())).unwrap_err(), Error::ChargerCredentialsWrong);
    let by_uid = ManagementSchema { id: Some(100), password: Some(String::from("pw")), data: v1() };
    let m = management_decision(&by_uid, Some(stored.clone())).unwrap();
    assert_eq!(m.charger, 11);
    assert_eq!(m.answered_uuid, Some(uuid_string(11)));
    let wrong = ManagementSchema { id: Some(100), password: Some(String::from("nope")), data: v1() };
    assert_eq!(management_decision(&wrong, Some(stored.clone())).unwrap_err(), Error::ChargerCredentialsWrong);
    let by_id = ManagementSchema { id: None, password: None, data: v2(&uuid_string(11), "pw") };
    let m = management_decision(&by_id, Some(stored.clone())).unwrap();
    assert_eq!(m.charger, 11);
    assert_eq!(m.answered_uuid, None);
    let by_id_wrong = ManagementSchema { id: None, password: None, data: v2(&uuid_string(11), "nope") };
    assert_eq!(management_decision(&by_id_wrong, Some(stored.clone())).unwrap_err(), Error::ChargerCredentialsWrong);
    let unreadable = StoredCharger { id: 11, uid: 100, password: String::from("garbage") };
    assert_eq!(management_decision(&by_uid, Some(unreadable)).unwrap_err(), Error::InternalError);
    assert_eq!(management_decision(&by_uid, None).unwrap_err(), Error::ChargerCredentialsWrong);
}

#[test]
fn first_version_reports_list_no_users() {
    let server = vec![ServerUser { id: 1, email: String::from("a@b.c") }];
    let (ids, uuids, emails) = configured_users_answer(&v1(), &vec![1], &server);
    assert!(ids.is_empty() && uuids.is_empty() && emails.is_empty());
}

#[test]
fn a_report_moves_live_connections_to_the_lost_ones() {
    let conns = vec![
        (RemoteConnKey { charger_id: 1, conn_no: 0 }, 10),
        (RemoteConnKey { charger_id: 2, conn_no: 1 }, 11),
        (RemoteConnKey { charger_id: 1, conn_no: 2 }, 12),
    ];
    let (kept, lost, clients) = bridge_after_report(&conns, 1, &vec![11, 12]);
    assert_eq!(kept, vec![(RemoteConnKey { charger_id: 2, conn_no: 1 }, 11)]);
    assert_eq!(lost, vec![(2, 12)]);
    assert_eq!(clients, vec![11]);
    let shared = vec![
        (RemoteConnKey { charger_id: 1, conn_no: 0 }, 12),
        (RemoteConnKey { charger_id: 1, conn_no: 3 }, 12),
    ];
    let (kept, lost, clients) = bridge_after_report(&shared, 1, &vec![12]);
    assert!(kept.is_empty());
    assert_eq!(lost, vec![(0, 12)]);
    assert!(clients.is_empty());
}

fn email_state() -> EmailState {
    EmailState {
        email: String::from("new@b.c"),
        delivery_email: Some(String::from("new-d@b.c")),
        old_email: Some(String::from("old@b.c")),
        old_delivery_email: Some(String::from("old-d@b.c")),
        email_verified: false,
    }
}

#[test]
fn an_expired_email_change_is_undone() {
    let r = restore_email_change(email_state());
    assert_eq!(r.email, "old@b.c");
    assert_eq!(r.delivery_email, Some(String::from("old-d@b.c")));
    assert_eq!(r.old_email, None);
    assert_eq!(r.old_delivery_email, None);
    assert!(r.email_verified);
}

#[test]
fn verifying_keeps_the_new_address() {
    let r = verified_email_state(email_state());
    assert_eq!(r.email, "new@b.c");
    assert_eq!(r.delivery_email, Some(String::from("new-d@b.c")));
    assert_eq!(r.old_email, None);
    assert_eq!(r.old_delivery_email, None);
    assert!(r.email_verified);
}

#[test]
fn removal_needs_access() {
    assert_eq!(remove_decision(false, 1), Err(Error::Unauthorized));
    assert_eq!(remove_decision(true, 1), Ok(RemovalPlan::DeleteCharger));
    assert_eq!(remove_decision(true, 2), Ok(RemovalPlan::RemoveOwnAccess));
}

#[test]
fn allowing_a_user_needs_the_charger_password() {
    let charger = hash("charger-pw");
    let login = base64::prelude::BASE64_STANDARD.encode(b"login");
    let user = Some(UserCredentials { id: 9, email_verified: true, login_key: hash("login") });
    assert_eq!(allow_user_decision("wrong", &charger, &login, user.clone()), Err(AllowUserError::Route(Error::Unauthorized)));
    assert_eq!(allow_user_decision("charger-pw", "garbage", &login, user.clone()), Err(AllowUserError::Route(Error::InternalError)));
    assert_eq!(allow_user_decision("charger-pw", &charger, "!!", user.clone()), Err(AllowUserError::LoginKeyNotBase64));
    assert_eq!(allow_user_decision("charger-pw", &charger, &login, user), Ok(9));
}

#[test]
fn chargers_delete_themselves_with_their_password() {
    let h = hash("pw");
    assert_eq!(charger_selfdestruct_check("pw", &h), Ok(()));
    assert_eq!(charger_selfdestruct_check("nope", &h), Err(Error::Unauthorized));
    let stored = StoredCharger { id: 11, uid: 100, password: h };
    let by_id = ChargerIdentity::ByUuid { id: 11, password: String::from("pw") };
    assert_eq!(selfdestruct_decision(&by_id, Some(stored.clone())), Ok(11));
    let by_uid = ChargerIdentity::ByUid { uid: 100, password: String::from("nope") };
    assert_eq!(selfdestruct_decision(&by_uid, Some(stored.clone())), Err(Error::ChargerCredentialsWrong));
    assert_eq!(selfdestruct_decision(&ChargerIdentity::NoCredentials, Some(stored.clone())), Err(Error::ChargerCredentialsWrong));
    assert_eq!(selfdestruct_decision(&ChargerIdentity::InvalidUuid, Some(stored)), Err(Error::InvalidUuid));
    assert_eq!(check_charger_password("pw", "garbage", Error::Unauthorized), Err(Error::InternalError));
}

#[test]
fn charger_info_needs_access() {
    assert_eq!(charger_info_decision(42, None, 80, true).unwrap_err(), Error::ChargerDoesNotExist);
    let info = charger_info_decision(42, Some(Some(String::from("garage"))), 80, true).unwrap();
    assert_eq!(info.id, "00000000-0000-0000-0000-00000000002a");
    assert_eq!(info.name, Some(String::from("garage")));
    assert_eq!(info.configured_port, 80);
    assert!(info.connected);
}

#[test]
fn a_charge_log_goes_out_once_to_the_user() {
    let h = hash("pw");
    let to = || String::from("user@b.c");
    let file = || String::from("log.pdf");
    assert_eq!(chargelog_mail("nope", &h, to(), file(), "Box", "en", true, 2024, 3).unwrap_err(), Error::ChargerCredentialsWrong);
    assert_eq!(chargelog_mail("pw", "garbage", to(), file(), "Box", "en", true, 2024, 3).unwrap_err(), Error::InternalError);
    assert_eq!(chargelog_mail("pw", &h, to(), file(), "Box", "en", true, 2024, 13).unwrap_err(), Error::InternalError);
    let m = chargelog_mail("pw", &h, to(), file(), "Box", "en", true, 2024, 3).unwrap();
    assert_eq!(m.to, "user@b.c");
    assert_eq!(m.attachment_name, "log.pdf");
    assert_eq!(m.month, "February 2024");
    assert_eq!(m.subject, "Your Charge Log for February 2024 from Box");
    let m = chargelog_mail("pw", &h, to(), file(), "Box", "de", false, 2024, 1).unwrap();
    assert_eq!(m.month, "Dezember 2023");
    assert_eq!(m.subject, "Dein Ladelog von Box");
}

fn now() -> i64 {
    std::time::SystemTime::now().duration_since(std::time::UNIX_EPOCH).unwrap().as_secs() as i64
}

#[test]
fn a_signed_token_reads_back_with_its_secret_only() {
    let n = now();
    let claims = TokenClaims { iat: n as usize, exp: (n + 360) as usize, sub: uuid_string(5) };
    let t = sign_token(&claims, "secret").unwrap();
    assert_eq!(validate_access_token(&t, "secret", n), Ok(5));
    assert_eq!(validate_access_token(&t, "other", n), Err(AuthError::InvalidToken));
    assert_eq!(validate_access_token("garbage", "secret", n), Err(AuthError::InvalidToken));
    assert_eq!(read_refresh_token(&t, "secret"), Ok((5, (n + 360) as usize)));
    assert_eq!(read_refresh_token(&t, "other"), Err(AuthError::InvalidToken));
    let bad_sub = TokenClaims { iat: n as usize, exp: (n + 360) as usize, sub: String::from("x") };
    let t = sign_token(&bad_sub, "secret").unwrap();
    assert_eq!(validate_access_token(&t, "secret", n), Err(AuthError::InvalidUserId));
    assert_eq!(read_refresh_token(&t, "secret"), Err(AuthError::InvalidSessionId));
}

#[test]
fn issued_tokens_name_their_subject() {
    let n = now();
    let t = access_token(n, 5, "secret").unwrap();
    assert_eq!(validate_access_token(&t, "secret", n), Ok(5));
    let t = refresh_token(n, 6, "secret").unwrap();
    assert_eq!(read_refresh_token(&t, "secret"), Ok((6, (n + 5_184_000) as usize)));
    assert_eq!(access_token(MAX_TIMESTAMP, 5, "secret"), Err(Error::InternalError));
    let claims = TokenClaims { iat: n as usize, exp: (n + 360) as usize, sub: uuid_string(5) };
    assert_eq!(access_token(n, 5, "secret"), Ok(sign_token(&claims, "secret").unwrap()));
}

#[test]
fn the_calendar_bounds_are_chronos() {
    assert_eq!(chrono_max_timestamp(), MAX_TIMESTAMP);
    assert_eq!(chrono_min_timestamp(), MIN_TIMESTAMP);
}

#[test]
fn a_management_report_updates_the_relay() {
    let stored = StoredCharger { id: 11, uid: 100, password: hash("pw") };
    let report = ManagementSchema { id: None, password: None, data: v2(&uuid_string(11), "pw") };
    let conns = vec![
        (RemoteConnKey { charger_id: 11, conn_no: 4 }, 20),
        (RemoteConnKey { charger_id: 12, conn_no: 5 }, 21),
    ];
    let clients = vec![20, 21];
    let sockets = vec![(11, 30), (12, 31)];
    let addrs = vec![30, 31];
    let bad_id = ManagementSchema { id: None, password: None, data: v2("not-a-uuid", "pw") };
    assert_eq!(
        management_report(&bad_id, Some(stored.clone()), Some("123.123.123.3"), None, &sockets, &addrs, &conns, &clients)
            .unwrap_err(),
        Error::InvalidUuid
    );
    assert_eq!(Error::InvalidUuid.status_code(), 400);
    assert_eq!(
        management_report(&report, Some(stored.clone()), None, None, &sockets, &addrs, &conns, &clients).unwrap_err(),
        Error::NoValidIp
    );
    let wrong = ManagementSchema { id: None, password: None, data: v2(&uuid_string(11), "nope") };
    assert_eq!(
        management_report(&wrong, Some(stored.clone()), Some("123.123.123.3"), None, &sockets, &addrs, &conns, &clients).unwrap_err(),
        Error::ChargerCredentialsWrong
    );
    assert_eq!(
        management_report(&report, Some(stored.clone()), Some("not an ip"), None, &sockets, &addrs, &conns, &clients).unwrap_err(),
        Error::InternalError
    );
    let p = management_report(
        &report,
        Some(stored.clone()),
        Some("123.123.123.3"),
        Some("ESP32 HTTP Client/1.0"),
        &sockets,
        &addrs,
        &conns,
        &clients,
    )
    .unwrap();
    assert_eq!(p.charger, 11);
    assert_eq!(p.answered_uuid, None);
    assert_eq!(p.undiscovered_network, "123.123.123.3/32");
    assert_eq!(p.undiscovered_charger, 11);
    assert_eq!(p.management_sockets, vec![(12, 31)]);
    assert_eq!(p.management_addresses, vec![31]);
    assert_eq!(p.kept, vec![(RemoteConnKey { charger_id: 12, conn_no: 5 }, 21)]);
    assert_eq!(p.lost, vec![(4, 20)]);
    assert_eq!(p.clients, vec![21]);
    assert_eq!(p.firmware_version, "2.0");
    assert_eq!(p.port, 80);
    assert_eq!(p.device_type, None);
    let p = management_report(&report, Some(stored), Some("123.123.123.3"), Some("curl"), &sockets, &addrs, &conns, &clients)
        .unwrap();
    assert_eq!(p.device_type, Some(String::from("curl")));
}

#[test]
fn month_labels_pad_and_sign_the_year() {
    assert_eq!(chargelog_month(2024, 4, "de"), Some(String::from("März 2024")));
    assert_eq!(chargelog_month(1, 1, "en"), Some(String::from("December 0000")));
    assert_eq!(chargelog_month(1000, 2, "en"), Some(String::from("January 1000")));
    assert_eq!(chargelog_month(100, 2, "en"), Some(String::from("January 0100")));
    assert_eq!(chargelog_month(10002, 1, "en"), Some(String::from("December +10001")));
    assert_eq!(chargelog_month(0, 1, "de"), Some(String::from("Dezember -0001")));
    assert_eq!(chargelog_month(2024, 0, "en"), None);
}

#[test]
fn registering_refuses_invalid_requests_and_stores_the_account() {
    let schema = |name: &str, email: &str| RegisterSchema {
        name: name.to_string(),
        email: email.to_string(),
        login_key: b"key".to_vec(),
        login_salt: vec![1],
        secret: vec![2],
        secret_nonce: vec![3],
        secret_salt: vec![4],
    };
    assert_eq!(
        register(schema("Ann", ""), false).map(|_| ()),
        Err(RegisterError::Invalid(RegisterProblems { name_too_short: false, invalid_email: true }))
    );
    assert_eq!(register(schema("Ann", "a@b.c"), true).map(|_| ()), Err(RegisterError::Route(Error::UserAlreadyExists)));
    let reg = register(schema("Ann", "Ann@Example.org"), false).unwrap();
    assert_eq!(reg.user.email, "ann@example.org");
    assert_eq!(key_matches(b"key", &reg.user.login_key), Ok(true));
    let reg = new_registration(schema("Ann", "Ann@Example.org"), String::from("hash"), 7, 8);
    assert_eq!(reg.user.id, 7);
    assert_eq!(reg.verification, 8);
    assert_eq!(reg.user.login_key, "hash");
    assert_eq!(reg.user.email, "ann@example.org");
    assert!(!reg.user.email_verified);
    assert_eq!(reg.user.secret, vec![2]);
}

#[test]
fn a_charger_registration_is_built_from_its_drawn_parts() {
    let s = charger_schema();
    let password = String::from("abcdefghijklmnopqrstuvwxyzABCDEF");
    let h = hash(&password);
    let secret = [9u8; 32];
    let private_key = base64::prelude::BASE64_STANDARD.encode(secret);
    let public = boringtun::x25519::PublicKey::from(&boringtun::x25519::StaticSecret::from(secret));
    let public_key = base64::prelude::BASE64_STANDARD.encode(public.as_bytes());
    let reg = new_charger_registration(&s, 42, None, 5, 257_900, password.clone(), h.clone(), private_key.clone(), public_key.clone(), 77, 78);
    assert!(!reg.is_update);
    assert_eq!(reg.charger.id, 77);
    assert_eq!(reg.charger.password, h);
    assert_eq!(reg.response.charger_password, password);
    assert_eq!(reg.response.management_pub, public_key);
    assert_eq!(reg.new_access.unwrap().id, 78);
    let reg = new_charger_registration(&s, 42, Some(70), 5, 257_900, password, h, private_key, public_key, 77, 78);
    assert_eq!(reg.charger.id, 70);
    assert_eq!(reg.revalidated_access, Some((42, 70)));
    assert_eq!(reg.keys.len(), 5);
}

fn access(id: u128, user: u128, charger: u128) -> AccessRow {
    AccessRow { id, user_id: user, charger_id: charger, charger_uid: 1, valid: false, note: None, name: None }
}

#[test]
fn allowing_twice_keeps_one_access() {
    let rows = vec![access(1, 5, 9), access(2, 6, 9), access(3, 5, 9)];
    let rows = allow_access(rows, access(4, 5, 9));
    assert_eq!(rows.iter().map(|a| a.id).collect::<Vec<_>>(), vec![2, 4]);
    let rows = allow_access(rows, access(5, 5, 9));
    assert_eq!(rows.iter().map(|a| a.id).collect::<Vec<_>>(), vec![2, 5]);
}

#[test]
fn ascii_addresses_are_lowered_character_by_character() {
    assert_eq!(account_email("Ann@Example.ORG"), "ann@example.org");
}

#[test]
fn a_base58_uid_decodes_to_its_bytes() {
    let s = encode_charger_uid(100);
    assert_eq!(bs58::decode(&s).with_alphabet(bs58::Alphabet::FLICKR).into_vec().unwrap(), 100_i32.to_be_bytes().to_vec());
    assert_eq!(decode_charger_uid("0OIl"), None);
}

fn charger_schema() -> AddChargerSchema {
    let b64 = |bytes: &[u8]| base64::prelude::BASE64_STANDARD.encode(bytes);
    AddChargerSchema {
        charger: ChargerSchema {
            uid: String::from("855c"),
            charger_pub: b64(&[3; 32]),
            wg_charger_ip: "10.1.0.0/24".to_string(),
            wg_server_ip: "10.2.0.0/24".to_string(),
            psk: "psk".to_string(),
        },
        keys: std::array::from_fn(|i| Keys {
            web_private: vec![i as u8; 32],
            psk: vec![7; 32],
            charger_public: b64(&[i as u8 + 1; 32]),
            web_address: format!("10.0.0.{i}/32"),
            charger_address: format!("10.0.1.{i}/32"),
            connection_no: i as u16,
        }),
        name: "Garage".to_string(),
        note: "left".to_string(),
    }
}

#[test]
fn an_unknown_address_keeps_its_stand_in_salt() {
    let mut cache = salt_cache();
    assert_eq!(login_salt(Some(vec![1, 2]), String::from("a@b.c"), &mut cache, vec![9]), vec![1, 2]);
    let first = login_salt(None, String::from("x@b.c"), &mut cache, vec![7, 7]);
    assert_eq!(first, vec![7, 7]);
    assert_eq!(login_salt(None, String::from("x@b.c"), &mut cache, vec![8, 8]), first);
    for i in 0..SALT_CACHE_CAPACITY {
        login_salt(None, format!("{i}@b.c"), &mut cache, vec![1]);
    }
    assert_eq!(login_salt(None, String::from("x@b.c"), &mut cache, vec![8, 8]), vec![8, 8]);
}
