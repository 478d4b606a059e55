use backend::chargers::{
    add_charger_request, add_request_of_token_request, AddChargerError, allowed_user_rows, authenticate_user, charger_info, key_for_connection,
    register_charger, removal_plan, selfdestruct_identity, validate_add_charger_with_token_schema,
    validate_base58_charger_id, AddChargerWithTokenSchema, AllowUserError, ChargerIdentity, RemovalPlan,
    WgKeyRow,
};
use backend::error::Error;
use backend::password::{hash_key, password_matches, UserCredentials};
use backend::validation::{validate_add_charger_schema, AddChargerSchema, ChargerSchema, Keys, ValidationError};
use base64::Engine;

fn b64(bytes: &[u8]) -> String {
    base64::prelude::BASE64_STANDARD.encode(bytes)
}

fn keys() -> [Keys; 5] {
    std::array::from_fn(|i| Keys {
        web_private: vec![i as u8; 32],
        psk: vec![7; 32],
        charger_public: b64(&[i as u8 + 1; 32]),
        web_address: format!("10.0.0.{i}/32"),
        charger_address: format!("10.0.1.{i}/32"),
        connection_no: i as u16,
    })
}

fn schema(uid: &str) -> AddChargerSchema {
    AddChargerSchema {
        charger: ChargerSchema {
            uid: uid.to_string(),
            charger_pub: b64(&[3; 32]),
            wg_charger_ip: "10.1.0.0/24".to_string(),
            wg_server_ip: "10.2.0.0/24".to_string(),
            psk: "psk".to_string(),
        },
        keys: keys(),
        name: "Garage".to_string(),
        note: "left".to_string(),
    }
}

#[test]
fn registering_a_new_charger_adds_it_with_an_access() {
    let s = schema("855c");
    assert!(validate_add_charger_schema(&s).is_ok());
    let reg = register_charger(&s, 42, None, 1_000).unwrap();
    assert!(!reg.is_update);
    assert_eq!(reg.charger.uid, 257_900);
    assert_eq!(reg.charger.last_state_change, None);
    assert_eq!(reg.charger.charger_pub, s.charger.charger_pub);
    assert_eq!(reg.charger.webinterface_port, 0);
    assert_eq!(reg.charger.firmware_version, "");
    assert_eq!(reg.response.charger_uuid, uuid::Uuid::from_u128(reg.charger.id).to_string());
    assert_eq!(reg.response.user_id, uuid::Uuid::from_u128(42).to_string());
    assert_eq!(reg.response.charger_password.len(), 32);
    assert!(reg.response.charger_password.chars().all(|c| c.is_ascii_alphanumeric()));
    assert_eq!(password_matches(&reg.response.charger_password, &reg.charger.password), Ok(true));
    assert_eq!(password_matches("wrong", &reg.charger.password), Ok(false));
    let access = reg.new_access.unwrap();
    assert_eq!(access.user_id, 42);
    assert_eq!(access.charger_id, reg.charger.id);
    assert_eq!(access.charger_uid, 257_900);
    assert!(access.valid);
    assert_eq!(access.name, Some("Garage".to_string()));
    assert_eq!(access.note, Some("left".to_string()));
    assert_eq!(reg.keys.len(), 5);
    for (i, k) in reg.keys.iter().enumerate() {
        assert_eq!(k.user_id, 42);
        assert_eq!(k.charger_id, reg.charger.id);
        assert!(!k.in_use);
        assert_eq!(k.connection_no, i as i32);
        assert_eq!(k.charger_pub, s.keys[i].charger_public);
    }
    // The management key pair belongs together.
    let private = base64::prelude::BASE64_STANDARD.decode(&reg.charger.management_private).unwrap();
    let mut secret = [0u8; 32];
    secret.copy_from_slice(&private);
    let public = boringtun::x25519::PublicKey::from(&boringtun::x25519::StaticSecret::from(secret));
    assert_eq!(reg.response.management_pub, b64(public.as_bytes()));
}

#[test]
fn registering_a_known_charger_updates_it() {
    let base58_100 = bs58::encode(100_i32.to_be_bytes()).with_alphabet(bs58::Alphabet::FLICKR).into_string();
    let s = schema(&base58_100);
    let reg = register_charger(&s, 42, Some(77), 1_234).unwrap();
    assert!(reg.is_update);
    assert_eq!(reg.charger.id, 77);
    assert_eq!(reg.charger.uid, 100);
    assert_eq!(reg.charger.last_state_change, Some(1_234));
    assert!(reg.new_access.is_none());
    assert_eq!(reg.deleted_keys_of, Some(77));
    assert_eq!(reg.revalidated_access, Some((42, 77)));
    assert_eq!(reg.response.charger_uuid, uuid::Uuid::from_u128(77).to_string());
}

#[test]
fn add_with_token_takes_base58_uids_only() {
    assert!(validate_base58_charger_id("855c").is_ok());
    assert_eq!(validate_base58_charger_id("0"), Err(ValidationError::InvalidBase58));
    let long = bs58::encode([1u8, 2, 3, 4, 5]).with_alphabet(bs58::Alphabet::FLICKR).into_string();
    assert_eq!(validate_base58_charger_id(&long), Err(ValidationError::WrongLength));
    let s = schema("855c");
    let t = AddChargerWithTokenSchema {
        token: "t".to_string(),
        user_id: uuid::Uuid::from_u128(1).to_string(),
        charger: s.charger.clone(),
        keys: s.keys.clone(),
        name: "n".to_string(),
        note: "o".to_string(),
    };
    assert!(validate_add_charger_with_token_schema(&t).is_ok());
    let mut bad = t.clone();
    bad.keys[2].charger_public = "!!".to_string();
    assert_eq!(validate_add_charger_with_token_schema(&bad), Err(ValidationError::InvalidBase64));
    let add = add_request_of_token_request(t);
    assert_eq!(add.name, "n");
    assert_eq!(add.note, "o");
    assert!(validate_add_charger_schema(&add).is_ok());
}

#[test]
fn the_last_user_removes_the_charger() {
    assert_eq!(removal_plan(1), RemovalPlan::DeleteCharger);
    assert_eq!(removal_plan(2), RemovalPlan::RemoveOwnAccess);
    assert_eq!(removal_plan(0), RemovalPlan::RemoveOwnAccess);
}

fn key(id: u128) -> WgKeyRow {
    WgKeyRow {
        id,
        user_id: 1,
        charger_id: 2,
        in_use: false,
        charger_pub: "pub".to_string(),
        web_private: vec![1, 2],
        psk: vec![3],
        web_address: "10.0.0.1/32".to_string(),
        charger_address: "10.0.0.2/32".to_string(),
        connection_no: 0,
    }
}

#[test]
fn no_key_while_five_are_in_use() {
    assert_eq!(key_for_connection(5, Some(key(9))).unwrap_err(), Error::AllKeysInUse);
    assert_eq!(key_for_connection(0, None).unwrap_err(), Error::AllKeysInUse);
    let resp = key_for_connection(4, Some(key(9))).unwrap();
    assert_eq!(resp.id, uuid::Uuid::from_u128(9).to_string());
    assert_eq!(resp.charger_id, uuid::Uuid::from_u128(2).to_string());
    assert_eq!(resp.charger_pub, "pub");
    assert_eq!(resp.web_private, vec![1, 2]);
    assert_eq!(resp.psk, vec![3]);
    assert_eq!(resp.web_address, "10.0.0.1/32");
    assert_eq!(resp.charger_address, "10.0.0.2/32");
}

#[test]
fn allowed_user_must_log_in_with_base64_key() {
    let key = b"login-key".to_vec();
    let hash = hash_key(&key).unwrap();
    let user = |verified| Some(UserCredentials { id: 5, email_verified: verified, login_key: hash.clone() });
    assert_eq!(authenticate_user("***", user(true)), Err(AllowUserError::LoginKeyNotBase64));
    assert_eq!(AllowUserError::LoginKeyNotBase64.bad_request_text(), Some("login_key is wrong base64"));
    assert_eq!(AllowUserError::Route(Error::Unauthorized).bad_request_text(), None);
    assert_eq!(authenticate_user(&b64(&key), None), Err(AllowUserError::Route(Error::WrongCredentials)));
    assert_eq!(authenticate_user(&b64(&key), user(false)), Err(AllowUserError::Route(Error::NotVerified)));
    assert_eq!(authenticate_user(&b64(b"other"), user(true)), Err(AllowUserError::Route(Error::WrongCredentials)));
    assert_eq!(authenticate_user(&b64(&key), user(true)), Ok(5));
}

#[test]
fn allowing_a_user_stores_access_and_keys() {
    let (access, rows) = allowed_user_rows(3, 4, 100, &"name".to_string(), &"note".to_string(), &keys());
    assert_eq!((access.user_id, access.charger_id, access.charger_uid, access.valid), (3, 4, 100, true));
    assert_eq!(access.name, Some("name".to_string()));
    assert_eq!(access.note, Some("note".to_string()));
    assert_eq!(rows.len(), 5);
    assert!(rows.iter().all(|r| r.user_id == 3 && r.charger_id == 4 && !r.in_use));
}

#[test]
fn selfdestruct_prefers_the_id_over_the_uid() {
    let pw = "pw".to_string();
    let id = uuid::Uuid::from_u128(8).to_string();
    let (ident, key) = selfdestruct_identity(Some(3), &Some(id.clone()), &pw);
    assert!(matches!(ident, ChargerIdentity::ByUuid { id: 8, ref password } if password == "pw"));
    assert_eq!(key, Some(id));
    let (ident, key) = selfdestruct_identity(Some(3), &Some("bad".to_string()), &pw);
    assert!(matches!(ident, ChargerIdentity::InvalidUuid));
    assert_eq!(key, Some("bad".to_string()));
    let (ident, key) = selfdestruct_identity(Some(-3), &None, &pw);
    assert!(matches!(ident, ChargerIdentity::ByUid { uid: -3, .. }));
    assert_eq!(key, Some("-3".to_string()));
    let (ident, key) = selfdestruct_identity(None, &None, &pw);
    assert!(matches!(ident, ChargerIdentity::NoCredentials));
    assert_eq!(key, None);
}

#[test]
fn charger_info_names_the_charger() {
    let info = charger_info(6, Some("n".to_string()), 8080, true);
    assert_eq!(info.id, uuid::Uuid::from_u128(6).to_string());
    assert_eq!(info.name, Some("n".to_string()));
    assert_eq!(info.configured_port, 8080);
    assert!(info.connected);
}

#[test]
fn add_requests_are_validated_before_registering() {
    let mut s = schema("855c");
    s.charger.charger_pub = "bad".to_string();
    assert_eq!(add_charger_request(&s, 1, None, 0).unwrap_err(), AddChargerError::Invalid(ValidationError::InvalidBase64));
    let s = schema("0");
    assert_eq!(add_charger_request(&s, 1, None, 0).unwrap_err(), AddChargerError::Invalid(ValidationError::InvalidBase58));
    let reg = add_charger_request(&schema("855c"), 1, Some(3), 0).unwrap();
    assert_eq!(reg.charger.id, 3);
    assert!(reg.is_update);
}
