//! What the charger routes write and answer: registering a charger for a
//! user, giving another user access, removing access, handing out a free
//! WireGuard key and a charger deleting itself.

use vstd::prelude::*;

use crate::charger_uid::{charger_uid_decoded, decode_charger_uid, flickr_base58_decoded};
use crate::encoding::{base64_decode, base64_decoded, base64_encoded};
use crate::error::Error;
use crate::ids::{new_uuid, parse_uuid, uuid_parsed, uuid_text, uuid_to_string};
use crate::password::{login_verdict, password_verdict, validate_password, UserCredentials, generate_password};
use crate::random::is_ascii_alphanumeric;
use crate::text::{decimal_i64, decimal_text};
use crate::validation::{
    add_charger_schema_verdict, key_strings, keys_verdict, validate_wg_key, wg_key_verdict,
    AddChargerSchema, ChargerSchema, Keys, ValidationError,
};
use crate::management::{charger_password_verdict, check_charger_password, StoredCharger};
use crate::wireguard::{generate_management_keys, x25519_public_of};
use vstd::string::*;
use vstd::utf8::encode_utf8;

verus! {

/// A charger as the server stores it.
#[derive(Debug, Clone)]
pub struct ChargerRow {
    pub id: u128,
    pub uid: i32,
    /// Argon2 hash of the charger's password.
    pub password: String,
    pub name: Option<Vec<u8>>,
    pub charger_pub: String,
    pub management_private: String,
    pub wg_charger_ip: String,
    pub wg_server_ip: String,
    pub psk: String,
    pub webinterface_port: i32,
    pub firmware_version: String,
    /// Seconds since the epoch.
    pub last_state_change: Option<i64>,
    pub device_type: Option<String>,
    pub mtu: Option<i32>,
    pub last_charge_log_upload_hash: Vec<u8>,
}

/// A user's access to a charger as the server stores it.
#[derive(Debug, Clone)]
pub struct AccessRow {
    pub id: u128,
    pub user_id: u128,
    pub charger_id: u128,
    pub charger_uid: i32,
    pub valid: bool,
    pub note: Option<String>,
    pub name: Option<String>,
}

/// A WireGuard key set as the server stores it.
#[derive(Debug, Clone)]
pub struct WgKeyRow {
    pub id: u128,
    pub user_id: u128,
    pub charger_id: u128,
    pub in_use: bool,
    pub charger_pub: String,
    pub web_private: Vec<u8>,
    pub psk: Vec<u8>,
    pub web_address: String,
    pub charger_address: String,
    pub connection_no: i32,
}

/// The answer to a successful add-charger request.
#[derive(Debug, Clone)]
pub struct AddChargerResponseSchema {
    pub management_pub: String,
    pub charger_uuid: String,
    pub charger_password: String,
    pub user_id: String,
}

/// What registering a charger writes and answers.
#[derive(Debug, Clone)]
pub struct ChargerRegistration {
    /// The user had this charger already: its old keys are deleted, the
    /// user's access becomes valid again and the stored charger is replaced.
    pub is_update: bool,
    /// On an update, the charger all of whose stored keys are deleted.
    pub deleted_keys_of: Option<u128>,
    /// On an update, the access (user, charger) marked valid again.
    pub revalidated_access: Option<(u128, u128)>,
    pub charger: ChargerRow,
    /// The user's access to a newly added charger.
    pub new_access: Option<AccessRow>,
    pub keys: Vec<WgKeyRow>,
    pub response: AddChargerResponseSchema,
}

/// A key row stores the key set `k` for `user` and `charger`, not in use.
pub open spec fn key_row_matches(row: WgKeyRow, k: Keys, user: u128, charger: u128) -> bool {
    &&& row.user_id == user
    &&& row.charger_id == charger
    &&& !row.in_use
    &&& row.charger_pub@ == k.charger_public@
    &&& row.web_private@ == k.web_private@
    &&& row.psk@ == k.psk@
    &&& row.web_address@ == k.web_address@
    &&& row.charger_address@ == k.charger_address@
    &&& row.connection_no == k.connection_no as i32
}

/// The key row for key set `k`, with a fresh id.
pub fn key_row(k: &Keys, user: u128, charger: u128) -> (r: WgKeyRow)
    ensures
        key_row_matches(r, *k, user, charger),
{
    WgKeyRow {
        id: new_uuid(),
        user_id: user,
        charger_id: charger,
        in_use: false,
        charger_pub: k.charger_public.clone(),
        web_private: k.web_private.clone(),
        psk: k.psk.clone(),
        web_address: k.web_address.clone(),
        charger_address: k.charger_address.clone(),
        connection_no: k.connection_no as i32,
    }
}

/// The five key rows of the key sets `keys`, in order.
pub fn key_rows(keys: &[Keys; 5], user: u128, charger: u128) -> (r: Vec<WgKeyRow>)
    ensures
        r@.len() == 5,
        forall|i: int| 0 <= i < 5 ==> key_row_matches(#[trigger] r@[i], keys@[i], user, charger),
{
    let mut out: Vec<WgKeyRow> = Vec::new();
    let mut i: usize = 0;
    while i < 5
        invariant
            i <= 5,
            out@.len() == i,
            forall|j: int| 0 <= j < i ==> key_row_matches(#[trigger] out@[j], keys@[j], user, charger),
        decreases 5 - i,
    {
        out.push(key_row(&keys[i], user, charger));
        i = i + 1;
    }
    out
}

/// A stored charger is the charger of request `c` under `id` and `uid`,
/// with the password hash `hash`, the management key `private_key` and the
/// time of its last state change; everything the charger reports later is
/// still blank.
pub open spec fn charger_row_matches(
    row: ChargerRow,
    c: ChargerSchema,
    id: u128,
    uid: i32,
    hash: Seq<char>,
    private_key: Seq<char>,
    last_state_change: Option<i64>,
) -> bool {
    &&& row.id == id
    &&& row.uid == uid
    &&& row.password@ == hash
    &&& row.name is None
    &&& row.charger_pub@ == c.charger_pub@
    &&& row.management_private@ == private_key
    &&& row.wg_charger_ip@ == c.wg_charger_ip@
    &&& row.wg_server_ip@ == c.wg_server_ip@
    &&& row.psk@ == c.psk@
    &&& row.webinterface_port == 0
    &&& row.firmware_version@.len() == 0
    &&& row.last_state_change == last_state_change
    &&& row.device_type is None
    &&& row.mtu is None
    &&& row.last_charge_log_upload_hash@.len() == 0
}

fn charger_row(
    c: &ChargerSchema,
    id: u128,
    uid: i32,
    hash: String,
    private_key: String,
    last_state_change: Option<i64>,
) -> (r: ChargerRow)
    ensures
        charger_row_matches(r, *c, id, uid, hash@, private_key@, last_state_change),
{
    ChargerRow {
        id,
        uid,
        password: hash,
        name: None,
        charger_pub: c.charger_pub.clone(),
        management_private: private_key,
        wg_charger_ip: c.wg_charger_ip.clone(),
        wg_server_ip: c.wg_server_ip.clone(),
        psk: c.psk.clone(),
        webinterface_port: 0,
        firmware_version: String::new(),
        last_state_change,
        device_type: None,
        mtu: None,
        last_charge_log_upload_hash: Vec::new(),
    }
}

/// What a registration writes and answers for the charger of the
/// validated request `schema`, registered for `user` at `now`, with the
/// id of the charger the user already had under its UID (if any).
pub open spec fn registration_matches(
    reg: ChargerRegistration,
    schema: AddChargerSchema,
    user: u128,
    existing: Option<u128>,
    now: i64,
) -> bool {
    let uid = charger_uid_decoded(schema.charger.uid@)->0;
    let id = reg.charger.id;
    &&& reg.is_update == existing is Some
    &&& existing matches Some(e) ==> id == e
    &&& reg.deleted_keys_of == (if existing is Some { Some(id) } else { None::<u128> })
    &&& reg.revalidated_access == (if existing is Some { Some((user, id)) } else { None::<(u128, u128)> })
    &&& charger_row_matches(
        reg.charger,
        schema.charger,
        id,
        uid,
        reg.charger.password@,
        reg.charger.management_private@,
        if existing is Some { Some(now) } else { None },
    )
    &&& password_verdict(reg.charger.password@, encode_utf8(reg.response.charger_password@))
        == Ok::<bool, Error>(true)
    &&& reg.response.charger_password@.len() == 32
    &&& forall|i: int| 0 <= i < 32 ==> is_ascii_alphanumeric(#[trigger] reg.response.charger_password@[i])
    &&& base64_decoded(reg.charger.management_private@) matches Some(secret)
        && secret.len() == 32
        && reg.response.management_pub@ == base64_encoded(x25519_public_of(secret))
    &&& reg.response.charger_uuid@ == uuid_text(id)
    &&& reg.response.user_id@ == uuid_text(user)
    &&& match reg.new_access {
        None => existing is Some,
        Some(a) => existing is None && a.user_id == user && a.charger_id == id && a.charger_uid == uid
            && a.valid && a.note == Some(schema.note) && a.name == Some(schema.name),
    }
    &&& reg.keys@.len() == 5
    &&& forall|i: int| 0 <= i < 5 ==> key_row_matches(#[trigger] reg.keys@[i], schema.keys@[i], user, id)
}

/// A validated add-charger request has a UID that decodes.
proof fn lemma_valid_uid_decodes(schema: AddChargerSchema)
    requires
        add_charger_schema_verdict(schema) is Ok,
    ensures
        charger_uid_decoded(schema.charger.uid@) is Some,
{
}

/// The registration of the charger of `schema` (whose UID decodes to
/// `uid`) for `user` at `now`, given the parts drawn for it: the charger's
/// new password and its hash, the management key pair, the id a new
/// charger gets and the id of a new access. `existing` is the id of the
/// charger the user already has under that UID, if any: that charger is
/// updated (its old keys deleted, the user's access marked valid again, its
/// last state change set to `now`); else a new charger is added with an
/// access of the user named and noted as the request says. Either way the
/// five key sets of the request are stored for the user.
pub fn new_charger_registration(
    schema: &AddChargerSchema,
    user: u128,
    existing: Option<u128>,
    now: i64,
    uid: i32,
    password: String,
    hash: String,
    private_key: String,
    public_key: String,
    new_id: u128,
    access_id: u128,
) -> (r: ChargerRegistration)
    requires
        charger_uid_decoded(schema.charger.uid@) == Some(uid),
        schema.keys@.len() == 5,
        password@.len() == 32,
        forall|i: int| 0 <= i < 32 ==> is_ascii_alphanumeric(#[trigger] password@[i]),
        password_verdict(hash@, encode_utf8(password@)) == Ok::<bool, Error>(true),
        base64_decoded(private_key@) matches Some(secret) && secret.len() == 32
            && public_key@ == base64_encoded(x25519_public_of(secret)),
    ensures
        registration_matches(r, *schema, user, existing, now),
        r.charger.id == (match existing { Some(e) => e, None => new_id }),
        r.charger.password@ == hash@,
        r.charger.management_private@ == private_key@,
        r.response.charger_password == password,
        r.response.management_pub == public_key,
        r.new_access matches Some(a) ==> a.id == access_id,
{
    let (id, is_update, last_state_change) = match existing {
        Some(e) => (e, true, Some(now)),
        None => (new_id, false, None),
    };
    let charger = charger_row(&schema.charger, id, uid, hash, private_key, last_state_change);
    let new_access = if is_update {
        None
    } else {
        Some(AccessRow {
            id: access_id,
            user_id: user,
            charger_id: id,
            charger_uid: uid,
            valid: true,
            note: Some(schema.note.clone()),
            name: Some(schema.name.clone()),
        })
    };
    let keys = key_rows(&schema.keys, user, id);
    let response = AddChargerResponseSchema {
        management_pub: public_key,
        charger_uuid: uuid_to_string(id),
        charger_password: password,
        user_id: uuid_to_string(user),
    };
    let (deleted_keys_of, revalidated_access) = if is_update {
        (Some(id), Some((user, id)))
    } else {
        (None, None)
    };
    ChargerRegistration { is_update, deleted_keys_of, revalidated_access, charger, new_access, keys, response }
}

/// Register the charger of a validated add-charger request for `user` at
/// time `now` (see `new_charger_registration`), drawing a fresh password,
/// management key pair and ids. Only drawing randomness from the operating
/// system can fail (an internal error); whether it does is left to the
/// machine.
pub fn register_charger(
    schema: &AddChargerSchema,
    user: u128,
    existing: Option<u128>,
    now: i64,
) -> (r: Result<ChargerRegistration, Error>)
    requires
        add_charger_schema_verdict(*schema) is Ok,
    ensures
        r matches Err(e) ==> e == Error::InternalError,
        r matches Ok(reg) ==> registration_matches(reg, *schema, user, existing, now),
{
    proof {
        lemma_valid_uid_decodes(*schema);
    }
    let uid = match decode_charger_uid(schema.charger.uid.as_str()) {
        Some(u) => u,
        None => return Err(Error::InternalError),
    };
    let (password, hash) = match generate_password() {
        Ok(p) => p,
        Err(_) => return Err(Error::InternalError),
    };
    let (private_key, public_key) = match generate_management_keys() {
        Ok(k) => k,
        Err(_) => return Err(Error::InternalError),
    };
    let new_id = new_uuid();
    let access_id = new_uuid();
    Ok(new_charger_registration(schema, user, existing, now, uid, password, hash, private_key, public_key, new_id, access_id))
}

/// Why an add-charger request was refused.
#[derive(Debug, Clone, Copy, PartialEq, Eq)]
pub enum AddChargerError {
    /// The request did not pass validation (a bad request).
    Invalid(ValidationError),
    /// The route's error.
    Route(Error),
}

/// Handle an add-charger request of `user` at `now`: validate it, then
/// register its charger (`existing` as for `register_charger`).
pub fn add_charger_request(
    schema: &AddChargerSchema,
    user: u128,
    existing: Option<u128>,
    now: i64,
) -> (r: Result<ChargerRegistration, AddChargerError>)
    ensures
        add_charger_schema_verdict(*schema) matches Err(e) ==> r == Err::<ChargerRegistration, AddChargerError>(
            AddChargerError::Invalid(e),
        ),
        add_charger_schema_verdict(*schema) is Ok ==> match r {
            Err(e) => e == AddChargerError::Route(Error::InternalError),
            Ok(reg) => registration_matches(reg, *schema, user, existing, now),
        },
{
    match crate::validation::validate_add_charger_schema(schema) {
        Err(e) => Err(AddChargerError::Invalid(e)),
        Ok(()) => match register_charger(schema, user, existing, now) {
            Ok(reg) => Ok(reg),
            Err(e) => Err(AddChargerError::Route(e)),
        },
    }
}

/// The verdict on a charger UID of an add-with-token request: it must be
/// Flickr-base58 of at most four bytes (this route does not take the
/// z-base-32 form).
pub open spec fn base58_charger_id_verdict(id: Seq<char>) -> Result<(), ValidationError> {
    match flickr_base58_decoded(id) {
        None => Err(ValidationError::InvalidBase58),
        Some(bytes) => if bytes.len() > 4 { Err(ValidationError::WrongLength) } else { Ok(()) },
    }
}

/// Check a charger UID of an add-with-token request.
pub fn validate_base58_charger_id(id: &str) -> (r: Result<(), ValidationError>)
    ensures
        r == base58_charger_id_verdict(id@),
{
    match crate::charger_uid::flickr_base58_decode(id) {
        None => Err(ValidationError::InvalidBase58),
        Some(bytes) => if bytes.len() > 4 { Err(ValidationError::WrongLength) } else { Ok(()) },
    }
}

/// An add-with-token request: the user it is for, the token that vouches
/// for it, and what an add-charger request holds.
#[derive(Debug, Clone)]
pub struct AddChargerWithTokenSchema {
    pub token: String,
    pub user_id: String,
    pub charger: ChargerSchema,
    pub keys: [Keys; 5],
    pub name: String,
    pub note: String,
}

/// The verdict on an add-with-token request: the five keys in order, then
/// the charger's public key, then its UID in Flickr-base58.
pub open spec fn add_with_token_verdict(schema: AddChargerWithTokenSchema) -> Result<(), ValidationError> {
    if keys_verdict(key_strings(schema.keys@)) is Err {
        keys_verdict(key_strings(schema.keys@))
    } else if wg_key_verdict(schema.charger.charger_pub@) is Err {
        wg_key_verdict(schema.charger.charger_pub@)
    } else {
        base58_charger_id_verdict(schema.charger.uid@)
    }
}

/// Check an add-with-token request.
pub fn validate_add_charger_with_token_schema(schema: &AddChargerWithTokenSchema) -> (r: Result<(), ValidationError>)
    ensures
        r == add_with_token_verdict(*schema),
{
    let mut i: usize = 0;
    while i < 5
        invariant
            i <= 5,
            forall|j: int| 0 <= j < i ==> wg_key_verdict(#[trigger] key_strings(schema.keys@)[j]) is Ok,
        decreases 5 - i,
    {
        let r = validate_wg_key(schema.keys[i].charger_public.as_str());
        if r.is_err() {
            proof {
                crate::validation::lemma_keys_verdict_skip(key_strings(schema.keys@), i as int);
                assert(key_strings(schema.keys@).skip(i as int)[0] == key_strings(schema.keys@)[i as int]);
            }
            return r;
        }
        i = i + 1;
    }
    proof {
        crate::validation::lemma_keys_verdict_skip(key_strings(schema.keys@), 5);
        assert(key_strings(schema.keys@).skip(5).len() == 0);
    }
    let r = validate_wg_key(schema.charger.charger_pub.as_str());
    if r.is_err() {
        return r;
    }
    validate_base58_charger_id(schema.charger.uid.as_str())
}

/// An add-with-token request turned into the add-charger request it makes.
pub fn add_request_of_token_request(schema: AddChargerWithTokenSchema) -> (r: AddChargerSchema)
    ensures
        r.charger == schema.charger,
        r.keys == schema.keys,
        r.name == schema.name,
        r.note == schema.note,
        add_with_token_verdict(schema) is Ok ==> add_charger_schema_verdict(r) is Ok,
{
    AddChargerSchema { charger: schema.charger, keys: schema.keys, name: schema.name, note: schema.note }
}

/// What removing a charger from a user's account does.
#[derive(Debug, Clone, Copy, PartialEq, Eq)]
pub enum RemovalPlan {
    /// The user is the last one with access: the charger, all its keys and
    /// accesses go, and its management connection is dropped.
    DeleteCharger,
    /// Others keep access: only the user's access and keys go.
    RemoveOwnAccess,
}

/// The plan for removing a charger, given how many users have access to it
/// (the requesting user among them).
pub fn removal_plan(access_count: i64) -> (r: RemovalPlan)
    ensures
        r == (if access_count == 1 { RemovalPlan::DeleteCharger } else { RemovalPlan::RemoveOwnAccess }),
{
    if access_count == 1 { RemovalPlan::DeleteCharger } else { RemovalPlan::RemoveOwnAccess }
}

/// Decide a removal request of a user: one without access to the charger
/// is refused as unauthorized and nothing changes; otherwise the plan for
/// the charger's `access_count` accesses.
pub fn remove_decision(user_is_allowed: bool, access_count: i64) -> (r: Result<RemovalPlan, Error>)
    ensures
        !user_is_allowed ==> r == Err::<RemovalPlan, Error>(Error::Unauthorized),
        user_is_allowed ==> r == Ok::<RemovalPlan, Error>(
            if access_count == 1 { RemovalPlan::DeleteCharger } else { RemovalPlan::RemoveOwnAccess },
        ),
{
    if !user_is_allowed {
        return Err(Error::Unauthorized);
    }
    Ok(removal_plan(access_count))
}

/// The key handed to a user for a connection to a charger.
#[derive(Debug, Clone)]
pub struct GetWgKeysResponseSchema {
    pub id: String,
    pub charger_id: String,
    pub charger_pub: String,
    pub charger_address: String,
    pub web_private: Vec<u8>,
    pub psk: Vec<u8>,
    pub web_address: String,
}

/// Hand out a key of the user for the charger: refused while five keys of
/// the charger are in use, or when the user has no unused key for it.
pub fn key_for_connection(in_use_count: usize, unused: Option<WgKeyRow>) -> (r: Result<GetWgKeysResponseSchema, Error>)
    ensures
        in_use_count >= 5 ==> r == Err::<GetWgKeysResponseSchema, Error>(Error::AllKeysInUse),
        in_use_count < 5 && unused is None ==> r == Err::<GetWgKeysResponseSchema, Error>(Error::AllKeysInUse),
        in_use_count < 5 && unused is Some ==> (r matches Ok(resp) && {
            let k = unused->0;
            &&& resp.id@ == uuid_text(k.id)
            &&& resp.charger_id@ == uuid_text(k.charger_id)
            &&& resp.charger_pub@ == k.charger_pub@
            &&& resp.charger_address@ == k.charger_address@
            &&& resp.web_private@ == k.web_private@
            &&& resp.psk@ == k.psk@
            &&& resp.web_address@ == k.web_address@
        }),
{
    if in_use_count >= 5 {
        return Err(Error::AllKeysInUse);
    }
    match unused {
        None => Err(Error::AllKeysInUse),
        Some(k) => Ok(GetWgKeysResponseSchema {
            id: uuid_to_string(k.id),
            charger_id: uuid_to_string(k.charger_id),
            charger_pub: k.charger_pub,
            charger_address: k.charger_address,
            web_private: k.web_private,
            psk: k.psk,
            web_address: k.web_address,
        }),
    }
}

/// Why giving a user access to a charger was refused.
#[derive(Debug, Clone, Copy, PartialEq, Eq)]
pub enum AllowUserError {
    /// The login key of the user to allow is not base64.
    LoginKeyNotBase64,
    /// The route's error.
    Route(Error),
}

impl AllowUserError {
    /// The text of a bad request (a login key that is not base64).
    pub fn bad_request_text(&self) -> (r: Option<&'static str>)
        ensures
            *self == AllowUserError::LoginKeyNotBase64 ==> (r matches Some(t) && t@ == "login_key is wrong base64"@),
            self is Route ==> r is None,
    {
        match self {
            AllowUserError::LoginKeyNotBase64 => Some("login_key is wrong base64"),
            AllowUserError::Route(_) => None,
        }
    }
}

/// The verdict on the credentials of the user to allow: their login key
/// (in base64) must log them in.
pub open spec fn allowed_user_verdict(login_key: Seq<char>, user: Option<UserCredentials>) -> Result<u128, AllowUserError> {
    match base64_decoded(login_key) {
        None => Err(AllowUserError::LoginKeyNotBase64),
        Some(key) => match login_verdict(user, key) {
            Ok(id) => Ok(id),
            Err(e) => Err(AllowUserError::Route(e)),
        },
    }
}

/// Check the credentials of the user to allow (as looked up by id).
pub fn authenticate_user(login_key: &str, user: Option<UserCredentials>) -> (r: Result<u128, AllowUserError>)
    ensures
        r == allowed_user_verdict(login_key@, user),
{
    match base64_decode(login_key) {
        None => Err(AllowUserError::LoginKeyNotBase64),
        Some(key) => match validate_password(key.as_slice(), user) {
            Ok(id) => Ok(id),
            Err(e) => Err(AllowUserError::Route(e)),
        },
    }
}

/// The verdict on an allow-user request: the charger's password must match
/// its stored hash (a wrong one is refused as unauthorized and nothing
/// changes), then the login key must log the user to allow in.
pub open spec fn allow_user_verdict(
    charger_password: Seq<char>,
    stored_hash: Seq<char>,
    login_key: Seq<char>,
    user: Option<UserCredentials>,
) -> Result<u128, AllowUserError> {
    match charger_password_verdict(stored_hash, charger_password, Error::Unauthorized) {
        Err(e) => Err(AllowUserError::Route(e)),
        Ok(()) => allowed_user_verdict(login_key, user),
    }
}

/// Check an allow-user request against the stored charger and the user to
/// allow, giving that user's id.
pub fn allow_user_decision(
    charger_password: &str,
    stored_hash: &str,
    login_key: &str,
    user: Option<UserCredentials>,
) -> (r: Result<u128, AllowUserError>)
    ensures
        r == allow_user_verdict(charger_password@, stored_hash@, login_key@, user),
{
    match check_charger_password(charger_password, stored_hash, Error::Unauthorized) {
        Err(e) => Err(AllowUserError::Route(e)),
        Ok(()) => authenticate_user(login_key, user),
    }
}

/// The access that allowing a user stores (it replaces any earlier access
/// of that user to the charger), and the five key rows for the user.
pub fn allowed_user_rows(
    user: u128,
    charger: u128,
    charger_uid: i32,
    charger_name: &String,
    note: &String,
    keys: &[Keys; 5],
) -> (r: (AccessRow, Vec<WgKeyRow>))
    ensures
        r.0.user_id == user,
        r.0.charger_id == charger,
        r.0.charger_uid == charger_uid,
        r.0.valid,
        r.0.name == Some(*charger_name),
        r.0.note == Some(*note),
        r.1@.len() == 5,
        forall|i: int| 0 <= i < 5 ==> key_row_matches(#[trigger] r.1@[i], keys@[i], user, charger),
{
    let access = AccessRow {
        id: new_uuid(),
        user_id: user,
        charger_id: charger,
        charger_uid,
        valid: true,
        note: Some(note.clone()),
        name: Some(charger_name.clone()),
    };
    (access, key_rows(keys, user, charger))
}

/// Whether an access is `user`'s to `charger`.
pub open spec fn access_of(a: AccessRow, user: u128, charger: u128) -> bool {
    a.user_id == user && a.charger_id == charger
}

/// The accesses stored after allowing with the access `new`: every earlier
/// access of that user to that charger is deleted, the others stay in
/// order, and `new` is added.
pub open spec fn accesses_after_allow(rows: Seq<AccessRow>, new: AccessRow) -> Seq<AccessRow> {
    rows.filter(|a: AccessRow| !access_of(a, new.user_id, new.charger_id)).push(new)
}

/// Write the access `new` (from `allowed_user_rows`) into the stored
/// accesses `rows`, replacing any earlier access of that user to that
/// charger.
pub fn allow_access(rows: Vec<AccessRow>, new: AccessRow) -> (r: Vec<AccessRow>)
    ensures
        r@ == accesses_after_allow(rows@, new),
        r@.len() >= 1 && r@.last() == new,
        forall|i: int| 0 <= i < rows@.len() && !(#[trigger] rows@[i].user_id == new.user_id && rows@[i].charger_id == new.charger_id)
            ==> r@.contains(rows@[i]),
        forall|i: int| 0 <= i < r@.len() - 1 ==> rows@.contains(#[trigger] r@[i]) && !(r@[i].user_id == new.user_id
            && r@[i].charger_id == new.charger_id),
{
    proof {
        lemma_allow_keeps_other_accesses(rows@, new);
    }
    let ghost keep = |a: AccessRow| !access_of(a, new.user_id, new.charger_id);
    let ghost all = rows@;
    let mut out: Vec<AccessRow> = Vec::new();
    let mut rest = rows;
    let ghost mut k: int = 0;
    while rest.len() > 0
        invariant
            0 <= k <= all.len(),
            keep == (|a: AccessRow| !access_of(a, new.user_id, new.charger_id)),
            rest@ == all.skip(k),
            out@ == all.take(k).filter(keep),
        decreases rest@.len(),
    {
        let a = rest.remove(0);
        proof {
            assert(a == all[k]);
            assert(all.take(k + 1) == all.take(k).push(a));
            all.take(k).lemma_filter_push(a, keep);
            assert(rest@ =~= all.skip(k + 1));
        }
        if a.user_id != new.user_id || a.charger_id != new.charger_id {
            out.push(a);
        }
        proof {
            k = k + 1;
        }
    }
    assert(all.take(k) == all);
    out.push(new);
    out
}

/// Allowing user `u` on charger `c` touches no other access: every stored
/// access that is not `u`'s to `c` stays, the rows that stay keep their
/// order, only stored rows of other pairs stay, and the new access comes
/// last.
pub proof fn lemma_allow_keeps_other_accesses(rows: Seq<AccessRow>, new: AccessRow)
    ensures
        accesses_after_allow(rows, new) == rows.filter(
            |a: AccessRow| a.user_id != new.user_id || a.charger_id != new.charger_id,
        ).push(new),
        accesses_after_allow(rows, new).len() >= 1,
        accesses_after_allow(rows, new).last() == new,
        forall|i: int| 0 <= i < rows.len() && !(#[trigger] rows[i].user_id == new.user_id && rows[i].charger_id == new.charger_id)
            ==> accesses_after_allow(rows, new).contains(rows[i]),
        forall|i: int| 0 <= i < accesses_after_allow(rows, new).len() - 1
            ==> rows.contains(#[trigger] accesses_after_allow(rows, new)[i])
            && !(accesses_after_allow(rows, new)[i].user_id == new.user_id
            && accesses_after_allow(rows, new)[i].charger_id == new.charger_id),
{
    let keep = |a: AccessRow| !access_of(a, new.user_id, new.charger_id);
    let other = |a: AccessRow| a.user_id != new.user_id || a.charger_id != new.charger_id;
    assert(keep == other) by {
        assert(forall|a: AccessRow| #[trigger] keep(a) == other(a));
    }
    let kept = rows.filter(keep);
    rows.filter_lemma(keep);
    let out = kept.push(new);
    assert forall|i: int| 0 <= i < rows.len() && !(#[trigger] rows[i].user_id == new.user_id && rows[i].charger_id == new.charger_id)
        implies out.contains(rows[i]) by {
        assert(keep(rows[i]));
        assert(kept.contains(rows[i]));
        let k = choose|k: int| 0 <= k < kept.len() && kept[k] == rows[i];
        assert(out[k] == rows[i]);
    }
    assert forall|i: int| 0 <= i < out.len() - 1 implies rows.contains(#[trigger] out[i]) && !(out[i].user_id == new.user_id
        && out[i].charger_id == new.charger_id) by {
        assert(out[i] == kept[i]);
        assert(keep(kept[i]));
        assert(kept.contains(kept[i]));
        rows.lemma_filter_contains_rev(keep, kept[i]);
    }
}

/// Allowing a user leaves exactly one access of that user to the charger,
/// the new one; allowing again keeps it at one: whatever was stored, the
/// accesses of the pair after `accesses_after_allow` are just `new`.
pub proof fn lemma_allow_leaves_one_access(rows: Seq<AccessRow>, new: AccessRow)
    ensures
        accesses_after_allow(rows, new).filter(|a: AccessRow| access_of(a, new.user_id, new.charger_id)) == seq![new],
{
    let keep = |a: AccessRow| !access_of(a, new.user_id, new.charger_id);
    let pair = |a: AccessRow| access_of(a, new.user_id, new.charger_id);
    let kept = rows.filter(keep);
    kept.lemma_filter_push(new, pair);
    rows.filter_lemma(keep);
    kept.filter_lemma(pair);
    if kept.filter(pair).len() > 0 {
        let x = kept.filter(pair)[0];
        assert(pair(x));
        assert(kept.filter(pair).contains(x));
        kept.lemma_filter_contains_rev(pair, x);
        assert(kept.contains(x));
        let i = choose|i: int| 0 <= i < kept.len() && kept[i] == x;
        assert(keep(kept[i]));
    }
    assert(kept.filter(pair) =~= Seq::<AccessRow>::empty());
    assert(kept.push(new).filter(pair) =~= seq![new]);
}

/// How a charger that deletes itself (or reports in) is found.
#[derive(Debug, Clone)]
pub enum ChargerIdentity {
    /// By its id, checked against the password.
    ByUuid { id: u128, password: String },
    /// The id it sent is not a UUID.
    InvalidUuid,
    /// By its UID, with the password.
    ByUid { uid: i32, password: String },
    /// It sent neither.
    NoCredentials,
}

/// How a charger that deletes itself is found, and the key its request is
/// rate limited under: an id wins over a UID; without either the request
/// is refused as wrong charger credentials.
pub fn selfdestruct_identity(id: Option<i32>, uuid: &Option<String>, password: &String) -> (r: (ChargerIdentity, Option<String>))
    ensures
        match uuid {
            Some(u) => r.1 == Some(*u) && match uuid_parsed(u@) {
                Some(v) => (r.0 matches ChargerIdentity::ByUuid { id: i, password: p } && i == v && p == *password),
                None => r.0 is InvalidUuid,
            },
            None => match id {
                Some(uid) => (r.0 matches ChargerIdentity::ByUid { uid: u, password: p } && u == uid && p == *password)
                    && (r.1 matches Some(k) && k@ == decimal_text(uid as int)),
                None => r.0 is NoCredentials && r.1 is None,
            },
        },
{
    match uuid {
        Some(u) => {
            let ident = match parse_uuid(u.as_str()) {
                Some(v) => ChargerIdentity::ByUuid { id: v, password: password.clone() },
                None => ChargerIdentity::InvalidUuid,
            };
            (ident, Some(u.clone()))
        },
        None => match id {
            Some(uid) => (
                ChargerIdentity::ByUid { uid, password: password.clone() },
                Some(decimal_i64(uid as i64)),
            ),
            None => (ChargerIdentity::NoCredentials, None),
        },
    }
}

/// Whether a charger that deletes itself by its id may do so: its
/// password must match the stored hash, a wrong one is refused as
/// unauthorized.
pub fn charger_selfdestruct_check(password: &str, stored_hash: &str) -> (r: Result<(), Error>)
    ensures
        r == charger_password_verdict(stored_hash@, password@, Error::Unauthorized),
{
    check_charger_password(password, stored_hash, Error::Unauthorized)
}

/// The charger that deletes itself, given how it identified itself and the
/// charger found under that id or UID: it must be the charger named and the
/// password must match. An id that is no UUID is a bad request; missing
/// credentials, a charger that was not found and a wrong password are
/// refused as wrong charger credentials; an unreadable stored hash is an
/// internal error.
pub open spec fn selfdestruct_verdict(identity: ChargerIdentity, charger: Option<StoredCharger>) -> Result<u128, Error> {
    match identity {
        ChargerIdentity::ByUuid { id, password } => match charger {
            Some(c) if c.id == id => match charger_password_verdict(c.password@, password@, Error::ChargerCredentialsWrong) {
                Err(e) => Err(e),
                Ok(()) => Ok(c.id),
            },
            _ => Err(Error::ChargerCredentialsWrong),
        },
        ChargerIdentity::ByUid { uid, password } => match charger {
            Some(c) if c.uid == uid => match charger_password_verdict(c.password@, password@, Error::ChargerCredentialsWrong) {
                Err(e) => Err(e),
                Ok(()) => Ok(c.id),
            },
            _ => Err(Error::ChargerCredentialsWrong),
        },
        ChargerIdentity::InvalidUuid => Err(Error::InvalidUuid),
        ChargerIdentity::NoCredentials => Err(Error::ChargerCredentialsWrong),
    }
}

/// The password a charger identifies itself with, if any.
pub open spec fn identity_password(identity: ChargerIdentity) -> Option<String> {
    match identity {
        ChargerIdentity::ByUuid { password, .. } => Some(password),
        ChargerIdentity::ByUid { password, .. } => Some(password),
        _ => None,
    }
}

/// Whether the stored charger `c` is the one the identity names, by id or
/// by UID.
pub open spec fn names_charger(identity: ChargerIdentity, c: StoredCharger) -> bool {
    match identity {
        ChargerIdentity::ByUuid { id, .. } => c.id == id,
        ChargerIdentity::ByUid { uid, .. } => c.uid == uid,
        _ => false,
    }
}

/// A charger may delete itself as `id` only when the stored charger is the
/// one it named and the password it sent matches the stored hash.
pub open spec fn selfdestruct_allowed(identity: ChargerIdentity, charger: Option<StoredCharger>, id: u128) -> bool {
    &&& charger matches Some(c)
    &&& c.id == id
    &&& names_charger(identity, c)
    &&& identity_password(identity) matches Some(p)
    &&& password_verdict(c.password@, encode_utf8(p@)) == Ok::<bool, Error>(true)
}

/// A charger deletes itself only with its password: whatever way it named
/// itself, a deletion is allowed only for the stored charger it named whose
/// hash the sent password matches.
pub proof fn lemma_selfdestruct_needs_the_password(identity: ChargerIdentity, charger: Option<StoredCharger>)
    ensures
        selfdestruct_verdict(identity, charger) matches Ok(id) ==> selfdestruct_allowed(identity, charger, id),
{
}

/// For the charger it named (by id or by UID), a password the stored hash
/// refuses is refused as wrong charger credentials, and an unreadable hash
/// is an internal error.
pub proof fn lemma_selfdestruct_refuses_wrong_password(identity: ChargerIdentity, c: StoredCharger)
    requires
        names_charger(identity, c),
    ensures
        identity_password(identity) is Some,
        password_verdict(c.password@, encode_utf8(identity_password(identity)->0@)) == Ok::<bool, Error>(false)
            ==> selfdestruct_verdict(identity, Some(c)) == Err::<u128, Error>(Error::ChargerCredentialsWrong),
        password_verdict(c.password@, encode_utf8(identity_password(identity)->0@)) is Err
            ==> selfdestruct_verdict(identity, Some(c)) == Err::<u128, Error>(Error::InternalError),
{
}

/// Identify the charger that deletes itself (see `selfdestruct_verdict`).
pub fn selfdestruct_decision(identity: &ChargerIdentity, charger: Option<StoredCharger>) -> (r: Result<u128, Error>)
    ensures
        r == selfdestruct_verdict(*identity, charger),
        r matches Ok(id) ==> selfdestruct_allowed(*identity, charger, id),
{
    proof {
        lemma_selfdestruct_needs_the_password(*identity, charger);
    }
    match identity {
        ChargerIdentity::ByUuid { id, password } => match charger {
            Some(c) => {
                if c.id != *id {
                    return Err(Error::ChargerCredentialsWrong);
                }
                match check_charger_password(password.as_str(), c.password.as_str(), Error::ChargerCredentialsWrong) {
                    Err(e) => Err(e),
                    Ok(()) => Ok(c.id),
                }
            },
            None => Err(Error::ChargerCredentialsWrong),
        },
        ChargerIdentity::ByUid { uid, password } => match charger {
            Some(c) => {
                if c.uid != *uid {
                    return Err(Error::ChargerCredentialsWrong);
                }
                match check_charger_password(password.as_str(), c.password.as_str(), Error::ChargerCredentialsWrong) {
                    Err(e) => Err(e),
                    Ok(()) => Ok(c.id),
                }
            },
            None => Err(Error::ChargerCredentialsWrong),
        },
        ChargerIdentity::InvalidUuid => Err(Error::InvalidUuid),
        ChargerIdentity::NoCredentials => Err(Error::ChargerCredentialsWrong),
    }
}

/// What the info route answers about a charger.
#[derive(Debug, Clone)]
pub struct ChargerInfo {
    pub id: String,
    pub name: Option<String>,
    pub configured_port: i32,
    pub connected: bool,
}

/// The info about charger `id` for a user: the name the user gave it, its
/// web interface port and whether it is connected.
pub fn charger_info(id: u128, name: Option<String>, configured_port: i32, connected: bool) -> (r: ChargerInfo)
    ensures
        r.id@ == uuid_text(id),
        r.name == name,
        r.configured_port == configured_port,
        r.connected == connected,
{
    ChargerInfo { id: uuid_to_string(id), name, configured_port, connected }
}

/// The info route's answer for charger `id`: a user without access to it
/// (`access` is `None`; otherwise it holds the name the user gave the
/// charger) is told that the charger does not exist.
pub fn charger_info_decision(
    id: u128,
    access: Option<Option<String>>,
    configured_port: i32,
    connected: bool,
) -> (r: Result<ChargerInfo, Error>)
    ensures
        access is None ==> r == Err::<ChargerInfo, Error>(Error::ChargerDoesNotExist),
        access matches Some(name) ==> (r matches Ok(info) && info.id@ == uuid_text(id) && info.name == name
            && info.configured_port == configured_port && info.connected == connected),
{
    match access {
        None => Err(Error::ChargerDoesNotExist),
        Some(name) => Ok(charger_info(id, name, configured_port, connected)),
    }
}

} // verus!
