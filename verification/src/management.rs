//! What the management route decides when a charger reports in: how the
//! charger is identified, which users configured on it are known to the
//! server, and what is recorded about the charger.

use std::str::FromStr;

use vstd::prelude::*;
use vstd::utf8::encode_utf8;

use crate::ids::{new_uuid, parse_uuid, uuid_parsed, uuid_text, uuid_to_string};
use crate::error::Error;
use crate::password::{password_matches, password_verdict, FindBy};
use crate::text::{decimal_i64, decimal_text, lowercased, str_equals, to_lowercase};

verus! {

/// A user as a charger reports it: by email, by id, or neither, with the
/// (encrypted) name the user gave the charger.
#[derive(Debug, Clone)]
pub struct ConfiguredUser {
    pub email: Option<String>,
    pub user_id: Option<String>,
    pub name: Option<String>,
}

/// How the server looks up a user that a charger reports as configured:
/// by its lower-cased email if it has one, else by its id if that is a UUID;
/// otherwise the user cannot be identified.
pub fn configured_user_lookup(user: &ConfiguredUser) -> (r: Option<FindBy>)
    ensures
        match user.email {
            Some(e) => r matches Some(FindBy::Email(m)) && m@ == lowercased(e@),
            None => match user.user_id {
                Some(u) => match uuid_parsed(u@) {
                    Some(id) => r matches Some(FindBy::Uuid(v)) && v == id,
                    None => r is None,
                },
                None => r is None,
            },
        },
{
    match &user.email {
        Some(email) => Some(FindBy::Email(to_lowercase(email.as_str()))),
        None => match &user.user_id {
            Some(id) => match parse_uuid(id.as_str()) {
                Some(v) => Some(FindBy::Uuid(v)),
                None => None,
            },
            None => None,
        },
    }
}

/// A user of the charger as the server stores it.
#[derive(Debug, Clone)]
pub struct ServerUser {
    pub id: u128,
    pub email: String,
}

/// The position of the first user with id `id`, or -1.
pub open spec fn position_of(users: Seq<ServerUser>, id: u128) -> int
    decreases users.len(),
{
    if users.len() == 0 {
        -1
    } else if users[0].id == id {
        0
    } else {
        let p = position_of(users.drop_first(), id);
        if p < 0 { -1 } else { p + 1 }
    }
}

/// `position_of` finds the first match.
proof fn lemma_position_of(users: Seq<ServerUser>, id: u128, j: int)
    requires
        0 <= j <= users.len(),
        forall|m: int| 0 <= m < j ==> (#[trigger] users[m]).id != id,
    ensures
        j < users.len() && users[j].id == id ==> position_of(users, id) == j,
        j == users.len() ==> position_of(users, id) == -1,
    decreases j,
{
    if j > 0 {
        let rest = users.drop_first();
        assert forall|m: int| 0 <= m < j - 1 implies (#[trigger] rest[m]).id != id by {
            assert(rest[m] == users[m + 1]);
        }
        lemma_position_of(rest, id, j - 1);
        assert(users[0].id != id);
        if j < users.len() {
            assert(rest[j - 1] == users[j]);
        }
    }
}

/// For each configured user, in order: whether the server knows the user as
/// a user of this charger (1 or 0), the stored email and the text of the
/// id, the last two empty for unknown users.
pub open spec fn common_users_spec(configured: Seq<u128>, server: Seq<ServerUser>, k: int) -> (i32, Seq<char>, Seq<char>) {
    let p = position_of(server, configured[k]);
    if p >= 0 {
        (1i32, server[p].email@, uuid_text(server[p].id))
    } else {
        (0i32, Seq::<char>::empty(), Seq::<char>::empty())
    }
}

/// Match the users configured on the charger against the users the server
/// stores for it. The first list is the one the old API answers with.
pub fn common_users(configured: &Vec<u128>, server: &Vec<ServerUser>) -> (r: (Vec<i32>, Vec<String>, Vec<String>))
    ensures
        r.0@.len() == configured@.len(),
        r.1@.len() == configured@.len(),
        r.2@.len() == configured@.len(),
        forall|k: int| 0 <= k < configured@.len() ==> {
            let e = #[trigger] common_users_spec(configured@, server@, k);
            &&& r.0@[k] == e.0
            &&& r.1@[k]@ == e.1
            &&& r.2@[k]@ == e.2
        },
{
    let mut old_api: Vec<i32> = Vec::new();
    let mut emails: Vec<String> = Vec::new();
    let mut uuids: Vec<String> = Vec::new();
    let mut k: usize = 0;
    while k < configured.len()
        invariant
            k <= configured@.len(),
            old_api@.len() == k,
            emails@.len() == k,
            uuids@.len() == k,
            forall|i: int| 0 <= i < k ==> {
                let e = #[trigger] common_users_spec(configured@, server@, i);
                &&& old_api@[i] == e.0
                &&& emails@[i]@ == e.1
                &&& uuids@[i]@ == e.2
            },
        decreases configured@.len() - k,
    {
        let id = configured[k];
        let mut j: usize = 0;
        while j < server.len() && server[j].id != id
            invariant
                j <= server@.len(),
                forall|m: int| 0 <= m < j ==> (#[trigger] server@[m]).id != id,
            decreases server@.len() - j,
        {
            j = j + 1;
        }
        proof {
            lemma_position_of(server@, id, j as int);
        }
        let ghost e = common_users_spec(configured@, server@, k as int);
        if j < server.len() {
            old_api.push(1);
            emails.push(server[j].email.clone());
            uuids.push(uuid_to_string(server[j].id));
            assert(e == (1i32, server@[j as int].email@, uuid_text(server@[j as int].id)));
        } else {
            old_api.push(0);
            emails.push(String::new());
            uuids.push(String::new());
        }
        assert(old_api@[k as int] == e.0 && emails@[k as int]@ == e.1 && uuids@[k as int]@ == e.2);
        k = k + 1;
    }
    (old_api, emails, uuids)
}

/// The device type a charger's `User-Agent` header tells: none for the
/// plain ESP32 HTTP client, else the header value.
pub open spec fn device_type_spec(user_agent: Option<Seq<char>>) -> Option<Seq<char>> {
    match user_agent {
        Some(ua) => if ua == "ESP32 HTTP Client/1.0"@ { None } else { Some(ua) },
        None => None,
    }
}

/// The device type to record from the charger's `User-Agent` header (if it
/// is present and text).
pub fn device_type(user_agent: Option<&str>) -> (r: Option<String>)
    ensures
        match r {
            Some(t) => device_type_spec(match user_agent { Some(u) => Some(u@), None => None }) == Some(t@),
            None => device_type_spec(match user_agent { Some(u) => Some(u@), None => None }) is None,
        },
{
    match user_agent {
        Some(ua) => if str_equals(ua, "ESP32 HTTP Client/1.0") {
            None
        } else {
            Some(ua.to_owned())
        },
        None => None,
    }
}

/// What a charger of the first API version reports.
#[derive(Debug, Clone)]
pub struct ManagementDataVersion1 {
    pub port: u16,
    pub firmware_version: String,
    pub configured_connections: Vec<i32>,
}

/// What a charger of the second API version reports.
#[derive(Debug, Clone)]
pub struct ManagementDataVersion2 {
    pub id: String,
    pub password: String,
    pub port: u16,
    pub firmware_version: String,
    pub configured_users: Vec<ConfiguredUser>,
    pub mtu: Option<u16>,
}

/// The report of a charger, in either API version.
#[derive(Debug, Clone)]
pub enum ManagementDataVersion {
    V1(ManagementDataVersion1),
    V2(ManagementDataVersion2),
}

/// The body of a management request. Older chargers identify themselves
/// by `id` and `password`, newer ones inside the second version of `data`.
#[derive(Debug, Clone)]
pub struct ManagementSchema {
    pub id: Option<i32>,
    pub password: Option<String>,
    pub data: ManagementDataVersion,
}

/// How the charger of a management request is found.
#[derive(Debug, Clone)]
pub enum ChargerLookup {
    /// By its UID, with the password it sent (if any).
    ByUid { uid: i32, password: Option<String> },
    /// By its id, with the password it sent.
    ByUuid { id: u128, password: String },
    /// The id it sent is not a UUID.
    InvalidId,
    /// The request carries no charger identification at all.
    NoCredentials,
}

/// How the charger of a management request is found: a top-level UID wins;
/// otherwise a second-version report names the charger by id; a first
/// version report without UID has no credentials.
pub fn charger_lookup(schema: &ManagementSchema) -> (r: ChargerLookup)
    ensures
        match schema.id {
            Some(uid) => r matches ChargerLookup::ByUid { uid: u, password: p } && u == uid && p == schema.password,
            None => match schema.data {
                ManagementDataVersion::V1(_) => r is NoCredentials,
                ManagementDataVersion::V2(d) => match uuid_parsed(d.id@) {
                    Some(id) => r matches ChargerLookup::ByUuid { id: i, password: p } && i == id && p == d.password,
                    None => r is InvalidId,
                },
            },
        },
{
    match schema.id {
        Some(uid) => ChargerLookup::ByUid { uid, password: schema.password.clone() },
        None => match &schema.data {
            ManagementDataVersion::V1(_) => ChargerLookup::NoCredentials,
            ManagementDataVersion::V2(d) => match parse_uuid(d.id.as_str()) {
                Some(id) => ChargerLookup::ByUuid { id, password: d.password.clone() },
                None => ChargerLookup::InvalidId,
            },
        },
    }
}

/// The key under which a management request is rate limited: the UID in
/// decimal, else the id that a second-version report sent.
pub fn management_rate_limit_key(schema: &ManagementSchema) -> (r: Option<String>)
    ensures
        match schema.id {
            Some(uid) => r matches Some(k) && k@ == decimal_text(uid as int),
            None => match schema.data {
                ManagementDataVersion::V1(_) => r is None,
                ManagementDataVersion::V2(d) => r matches Some(k) && k@ == d.id@,
            },
        },
{
    match schema.id {
        Some(uid) => Some(decimal_i64(uid as i64)),
        None => match &schema.data {
            ManagementDataVersion::V1(_) => None,
            ManagementDataVersion::V2(d) => Some(d.id.clone()),
        },
    }
}

/// The firmware version, web interface port and MTU a charger reports; the
/// first API version reports no MTU.
pub fn reported_charger_state(data: &ManagementDataVersion) -> (r: (String, u16, Option<u16>))
    ensures
        match data {
            ManagementDataVersion::V1(v) => r.0@ == v.firmware_version@ && r.1 == v.port && r.2 is None,
            ManagementDataVersion::V2(v) => r.0@ == v.firmware_version@ && r.1 == v.port && r.2 == v.mtu,
        },
{
    match data {
        ManagementDataVersion::V1(v) => (v.firmware_version.clone(), v.port, None),
        ManagementDataVersion::V2(v) => (v.firmware_version.clone(), v.port, v.mtu),
    }
}

/// Name for the text that `ipnetwork::IpNetwork::from_str(s)` parses to
/// (as `to_string` writes the network), or nothing when `s` is no network.
pub uninterp spec fn ip_network_text(s: Seq<char>) -> Option<Seq<char>>;

/// Parses `s` with `ipnetwork::IpNetwork::from_str` and writes the network
/// back with `to_string`. Trusted: the result is the named text.
#[verifier::external_body]
fn parse_ip_network(s: &str) -> (r: Option<String>)
    ensures
        match r {
            Some(t) => ip_network_text(s@) == Some(t@),
            None => ip_network_text(s@) is None,
        },
{
    ipnetwork::IpNetwork::from_str(s).ok().map(|n| n.to_string())
}

/// Why the address a charger reported from cannot be used.
#[derive(Debug, Clone, Copy, PartialEq, Eq)]
pub enum ReportAddressError {
    /// The request carries no client address.
    Missing,
    /// The address is no IP network (answered as an internal error).
    Unparsable,
}

/// The network a charger reported from, as the server keys its waiting
/// chargers by it.
pub fn report_address(ip: Option<&str>) -> (r: Result<String, ReportAddressError>)
    ensures
        match ip {
            None => r == Err::<String, ReportAddressError>(ReportAddressError::Missing),
            Some(a) => match ip_network_text(a@) {
                None => r == Err::<String, ReportAddressError>(ReportAddressError::Unparsable),
                Some(t) => r matches Ok(n) && n@ == t,
            },
        },
{
    match ip {
        None => Err(ReportAddressError::Missing),
        Some(a) => match parse_ip_network(a) {
            None => Err(ReportAddressError::Unparsable),
            Some(n) => Ok(n),
        },
    }
}

/// What the server does for one user that a charger reports.
#[derive(Debug, Clone)]
pub struct ConfiguredUserAction {
    /// The id the user is counted under: the user's own id, or a random
    /// one for a user the server does not know, so that a charger cannot
    /// probe which users exist.
    pub id: u128,
    /// The name of the charger to store for the user's access (only for a
    /// known user that reported one).
    pub rename: Option<String>,
}

/// The actions for the users a charger reports, given for each the id the
/// server found for it (`None` when it could not be identified).
pub fn configured_user_actions(users: &Vec<ConfiguredUser>, found: &Vec<Option<u128>>) -> (r: Vec<ConfiguredUserAction>)
    requires
        users@.len() == found@.len(),
    ensures
        r@.len() == users@.len(),
        forall|k: int| 0 <= k < r@.len() ==> match found@[k] {
            Some(id) => (#[trigger] r@[k]).id == id && r@[k].rename == users@[k].name,
            None => (#[trigger] r@[k]).rename is None,
        },
{
    let mut out: Vec<ConfiguredUserAction> = Vec::new();
    let mut k: usize = 0;
    while k < users.len()
        invariant
            users@.len() == found@.len(),
            k <= users@.len(),
            out@.len() == k,
            forall|j: int| 0 <= j < k ==> match found@[j] {
                Some(id) => (#[trigger] out@[j]).id == id && out@[j].rename == users@[j].name,
                None => (#[trigger] out@[j]).rename is None,
            },
        decreases users@.len() - k,
    {
        let action = match found[k] {
            Some(id) => ConfiguredUserAction {
                id,
                rename: match &users[k].name {
                    Some(n) => Some(n.clone()),
                    None => None,
                },
            },
            None => ConfiguredUserAction { id: new_uuid(), rename: None },
        };
        out.push(action);
        k = k + 1;
    }
    out
}

/// The users whose access to the charger is removed (with their keys):
/// those the server stores that the charger no longer reports, in stored
/// order.
pub fn users_to_remove(allowed: &Vec<u128>, configured: &Vec<u128>) -> (r: Vec<u128>)
    ensures
        r@ == allowed@.filter(|u: u128| !configured@.contains(u)),
{
    let ghost pred = |u: u128| !configured@.contains(u);
    let mut out: Vec<u128> = Vec::new();
    let mut i: usize = 0;
    while i < allowed.len()
        invariant
            i <= allowed@.len(),
            pred == (|u: u128| !configured@.contains(u)),
            out@ == allowed@.take(i as int).filter(pred),
        decreases allowed@.len() - i,
    {
        let u = allowed[i];
        let ghost before = allowed@.take(i as int);
        assert(allowed@.take(i as int + 1) == before.push(u));
        assert(allowed@.take(i as int + 1).drop_last() == before);
        proof {
            reveal_with_fuel(Seq::filter, 1);
        }
        let mut j: usize = 0;
        let mut found = false;
        while j < configured.len()
            invariant
                j <= configured@.len(),
                found == (exists|m: int| 0 <= m < j && configured@[m] == u),
            decreases configured@.len() - j,
        {
            if configured[j] == u {
                found = true;
            }
            j = j + 1;
        }
        if !found {
            out.push(u);
        } else {
            let ghost m = choose|m: int| 0 <= m < j && configured@[m] == u;
            assert(configured@.contains(u));
        }
        i = i + 1;
    }
    assert(allowed@.take(allowed@.len() as int) == allowed@);
    out
}

/// A charger seen at an address but not yet connected, as the state dump
/// lists it: its id as text and the seconds since its last request.
pub fn discovery_entry(id: u128, seconds_since_request: u64) -> (r: (String, u64))
    ensures
        r.0@ == uuid_text(id),
        r.1 == seconds_since_request,
{
    (uuid_to_string(id), seconds_since_request)
}

/// After the removal, the server keeps for the charger exactly the users
/// it reports: a stored user is removed if and only if the charger does
/// not report it.
pub proof fn lemma_removal_keeps_reported_users(allowed: Seq<u128>, configured: Seq<u128>, i: int)
    requires
        0 <= i < allowed.len(),
    ensures
        allowed.filter(|u: u128| !configured.contains(u)).contains(allowed[i]) <==> !configured.contains(allowed[i]),
{
    let pred = |u: u128| !configured.contains(u);
    if !configured.contains(allowed[i]) {
        allowed.lemma_filter_contains(pred, i);
    }
    if allowed.filter(pred).contains(allowed[i]) {
        let k = choose|k: int| 0 <= k < allowed.filter(pred).len() && allowed.filter(pred)[k] == allowed[i];
        allowed.lemma_filter_pred(pred, k);
    }
}

/// The state dump's list of lost connections: each charger's id as text
/// with the numbers of the connections it lost.
pub fn lost_connection_summary(lost: &Vec<(u128, Vec<i32>)>) -> (r: Vec<(String, Vec<i32>)>)
    ensures
        r@.len() == lost@.len(),
        forall|k: int| 0 <= k < r@.len() ==> (#[trigger] r@[k]).0@ == uuid_text(lost@[k].0)
            && r@[k].1@ == lost@[k].1@,
{
    let mut out: Vec<(String, Vec<i32>)> = Vec::new();
    let mut k: usize = 0;
    while k < lost.len()
        invariant
            k <= lost@.len(),
            out@.len() == k,
            forall|j: int| 0 <= j < k ==> (#[trigger] out@[j]).0@ == uuid_text(lost@[j].0)
                && out@[j].1@ == lost@[j].1@,
        decreases lost@.len() - k,
    {
        let (id, conns) = &lost[k];
        out.push((uuid_to_string(*id), conns.clone()));
        k = k + 1;
    }
    out
}

/// A charger as the server stores it, as far as identifying it needs: its
/// id, UID and the Argon2 hash of its password.
#[derive(Debug, Clone)]
pub struct StoredCharger {
    pub id: u128,
    pub uid: i32,
    pub password: String,
}

/// The check of a charger's password against the stored hash: an
/// unreadable hash is an internal error, a wrong password is `refusal`.
pub open spec fn charger_password_verdict(stored_hash: Seq<char>, password: Seq<char>, refusal: Error) -> Result<(), Error> {
    match password_verdict(stored_hash, encode_utf8(password)) {
        Err(e) => Err(e),
        Ok(false) => Err(refusal),
        Ok(true) => Ok(()),
    }
}

/// Check a charger's password against the stored hash, refusing a wrong
/// one with `refusal`.
pub fn check_charger_password(password: &str, stored_hash: &str, refusal: Error) -> (r: Result<(), Error>)
    ensures
        r == charger_password_verdict(stored_hash@, password@, refusal),
{
    match password_matches(password, stored_hash) {
        Err(e) => Err(e),
        Ok(false) => Err(refusal),
        Ok(true) => Ok(()),
    }
}

/// Which charger a management report comes from, given the charger the
/// server found under the report's UID (when it has one) or else under
/// the id of a second-version report: the charger must be the one named
/// and the password must match its hash. An id that is no UUID is a bad
/// request; a first-version report without a UID, a UID without a
/// password, a charger that was not found and a wrong password are refused
/// as wrong charger credentials; nothing is changed on a refusal. An
/// unreadable stored hash is an internal error. The flag tells whether the charger came by its UID, in
/// which case the answer names its id.
pub open spec fn management_verdict(schema: ManagementSchema, charger: Option<StoredCharger>) -> Result<(u128, bool), Error> {
    match schema.id {
        Some(uid) => match schema.password {
            None => Err(Error::ChargerCredentialsWrong),
            Some(p) => match charger {
                Some(c) if c.uid == uid => match charger_password_verdict(c.password@, p@, Error::ChargerCredentialsWrong) {
                    Err(e) => Err(e),
                    Ok(()) => Ok((c.id, true)),
                },
                _ => Err(Error::ChargerCredentialsWrong),
            },
        },
        None => match schema.data {
            ManagementDataVersion::V1(_) => Err(Error::ChargerCredentialsWrong),
            ManagementDataVersion::V2(d) => match uuid_parsed(d.id@) {
                None => Err(Error::InvalidUuid),
                Some(id) => match charger {
                    Some(c) if c.id == id => match charger_password_verdict(c.password@, d.password@, Error::ChargerCredentialsWrong) {
                        Err(e) => Err(e),
                        Ok(()) => Ok((c.id, false)),
                    },
                    _ => Err(Error::ChargerCredentialsWrong),
                },
            },
        },
    }
}

/// A report is taken as coming from charger `id` only when the stored
/// charger is `id`, it is the charger the report named (by UID, or else by
/// the id of a second-version report), and the password the report sent
/// matches the stored hash.
pub open spec fn report_identified(schema: ManagementSchema, charger: Option<StoredCharger>, id: u128) -> bool {
    &&& charger matches Some(c)
    &&& c.id == id
    &&& match schema.id {
        Some(uid) => c.uid == uid && (schema.password matches Some(p)
            && password_verdict(c.password@, encode_utf8(p@)) == Ok::<bool, Error>(true)),
        None => schema.data matches ManagementDataVersion::V2(d) && uuid_parsed(d.id@) == Some(c.id)
            && password_verdict(c.password@, encode_utf8(d.password@)) == Ok::<bool, Error>(true),
    }
}

/// A charger's report is taken only with its password: an identified
/// report names the stored charger and carries a password its hash
/// accepts; a password the hash refuses is refused as wrong credentials.
pub proof fn lemma_report_needs_the_password(schema: ManagementSchema, charger: Option<StoredCharger>)
    ensures
        management_verdict(schema, charger) matches Ok((id, _)) ==> report_identified(schema, charger, id),
        (schema.id matches Some(uid) && schema.password matches Some(p) && charger matches Some(c) && c.uid == uid
            && password_verdict(c.password@, encode_utf8(p@)) == Ok::<bool, Error>(false))
            ==> management_verdict(schema, charger) == Err::<(u128, bool), Error>(Error::ChargerCredentialsWrong),
{
}

/// A second-version report that names a stored charger by its id is
/// refused as wrong credentials when the hash refuses its password.
pub proof fn lemma_report_by_id_refuses_wrong_password(schema: ManagementSchema, d: ManagementDataVersion2, c: StoredCharger)
    requires
        schema.id is None,
        schema.data == ManagementDataVersion::V2(d),
        uuid_parsed(d.id@) == Some(c.id),
        password_verdict(c.password@, encode_utf8(d.password@)) == Ok::<bool, Error>(false),
    ensures
        management_verdict(schema, Some(c)) == Err::<(u128, bool), Error>(Error::ChargerCredentialsWrong),
{
}

/// The charger a management report was identified as, and the id the
/// answer names (only for a charger that came by its UID).
#[derive(Debug, Clone)]
pub struct ManagementIdentity {
    pub charger: u128,
    pub answered_uuid: Option<String>,
}

/// Identify the charger of a management report (see `management_verdict`).
pub fn management_decision(schema: &ManagementSchema, charger: Option<StoredCharger>) -> (r: Result<ManagementIdentity, Error>)
    ensures
        match management_verdict(*schema, charger) {
            Err(e) => r == Err::<ManagementIdentity, Error>(e),
            Ok((id, by_uid)) => r matches Ok(m) && m.charger == id && (if by_uid {
                m.answered_uuid matches Some(t) && t@ == uuid_text(id)
            } else {
                m.answered_uuid is None
            }),
        },
        r matches Ok(m) ==> report_identified(*schema, charger, m.charger),
{
    proof {
        lemma_report_needs_the_password(*schema, charger);
    }
    match schema.id {
        Some(uid) => match &schema.password {
            None => Err(Error::ChargerCredentialsWrong),
            Some(p) => match charger {
                Some(c) => {
                    if c.uid != uid {
                        return Err(Error::ChargerCredentialsWrong);
                    }
                    match check_charger_password(p.as_str(), c.password.as_str(), Error::ChargerCredentialsWrong) {
                        Err(e) => Err(e),
                        Ok(()) => Ok(ManagementIdentity { charger: c.id, answered_uuid: Some(uuid_to_string(c.id)) }),
                    }
                },
                None => Err(Error::ChargerCredentialsWrong),
            },
        },
        None => match &schema.data {
            ManagementDataVersion::V1(_) => Err(Error::ChargerCredentialsWrong),
            ManagementDataVersion::V2(d) => match parse_uuid(d.id.as_str()) {
                None => Err(Error::InvalidUuid),
                Some(id) => match charger {
                    Some(c) => {
                        if c.id != id {
                            return Err(Error::ChargerCredentialsWrong);
                        }
                        match check_charger_password(d.password.as_str(), c.password.as_str(), Error::ChargerCredentialsWrong) {
                            Err(e) => Err(e),
                            Ok(()) => Ok(ManagementIdentity { charger: c.id, answered_uuid: None }),
                        }
                    },
                    None => Err(Error::ChargerCredentialsWrong),
                },
            },
        },
    }
}

/// What the answer to a report lists about the users configured on the
/// charger: nothing for a first-version report, else `common_users`.
pub fn configured_users_answer(
    data: &ManagementDataVersion,
    configured: &Vec<u128>,
    server: &Vec<ServerUser>,
) -> (r: (Vec<i32>, Vec<String>, Vec<String>))
    ensures
        data is V1 ==> r.0@.len() == 0 && r.1@.len() == 0 && r.2@.len() == 0,
        data is V2 ==> {
            &&& r.0@.len() == configured@.len()
            &&& r.1@.len() == configured@.len()
            &&& r.2@.len() == configured@.len()
            &&& forall|k: int| 0 <= k < configured@.len() ==> {
                let e = #[trigger] common_users_spec(configured@, server@, k);
                &&& r.0@[k] == e.0
                &&& r.1@[k]@ == e.1
                &&& r.2@[k]@ == e.2
            }
        },
{
    match data {
        ManagementDataVersion::V1(_) => (Vec::new(), Vec::new(), Vec::new()),
        ManagementDataVersion::V2(_) => common_users(configured, server),
    }
}

/// The users whose access a report removes: none for a first-version
/// report (its users are left as they are), else those the charger no
/// longer reports.
pub fn removals_for_report(data: &ManagementDataVersion, allowed: &Vec<u128>, configured: &Vec<u128>) -> (r: Vec<u128>)
    ensures
        data is V1 ==> r@.len() == 0,
        data is V2 ==> r@ == allowed@.filter(|u: u128| !configured@.contains(u)),
{
    match data {
        ManagementDataVersion::V1(_) => Vec::new(),
        ManagementDataVersion::V2(_) => users_to_remove(allowed, configured),
    }
}

/// A connection the relay holds between a browser and a charger: the
/// charger and the number of the connection on it.
#[derive(Debug, Clone, Copy, PartialEq, Eq)]
pub struct RemoteConnKey {
    pub charger_id: u128,
    pub conn_no: i32,
}

/// Whether a browser handle is another than `handle`.
pub open spec fn other_than(handle: u64) -> spec_fn(u64) -> bool {
    |c: u64| c != handle
}

/// The lost connections of `charger` that walking `entries` in order
/// finds, and the browser handles still registered afterwards: an entry of
/// the charger whose browser handle is registered becomes a lost connection
/// (its number and the handle) and the handle leaves the registered ones,
/// so that each browser is taken once.
pub open spec fn drain_lost(entries: Seq<(RemoteConnKey, u64)>, charger: u128, clients: Seq<u64>) -> (Seq<(i32, u64)>, Seq<u64>)
    decreases entries.len(),
{
    if entries.len() == 0 {
        (Seq::empty(), clients)
    } else {
        let (lost, rest) = drain_lost(entries.drop_last(), charger, clients);
        let e = entries.last();
        if e.0.charger_id == charger && rest.contains(e.1) {
            (lost.push((e.0.conn_no, e.1)), rest.filter(other_than(e.1)))
        } else {
            (lost, rest)
        }
    }
}

/// Whether a relay connection is one of `charger`'s.
pub open spec fn conn_of(charger: u128) -> spec_fn((RemoteConnKey, u64)) -> bool {
    |e: (RemoteConnKey, u64)| e.0.charger_id == charger
}

/// The lost connection a relay connection becomes: its number and the
/// handle of its browser.
pub open spec fn lost_entry() -> spec_fn((RemoteConnKey, u64)) -> (i32, u64) {
    |e: (RemoteConnKey, u64)| (e.0.conn_no, e.1)
}

/// Whether one of `charger`'s connections among `entries` runs to browser `c`.
pub open spec fn handle_of_charger(entries: Seq<(RemoteConnKey, u64)>, charger: u128, c: u64) -> bool {
    exists|i: int| 0 <= i < entries.len() && entries[i].0.charger_id == charger && entries[i].1 == c
}

/// Each of `charger`'s connections runs to a browser of its own.
pub open spec fn distinct_handles(entries: Seq<(RemoteConnKey, u64)>, charger: u128) -> bool {
    forall|i: int, j: int|
        0 <= i < j < entries.len() && (#[trigger] entries[i]).0.charger_id == charger
            && (#[trigger] entries[j]).0.charger_id == charger ==> entries[i].1 != entries[j].1
}

/// The browser of each of `charger`'s connections is registered.
pub open spec fn handles_registered(entries: Seq<(RemoteConnKey, u64)>, charger: u128, clients: Seq<u64>) -> bool {
    forall|i: int| 0 <= i < entries.len() && (#[trigger] entries[i]).0.charger_id == charger ==> clients.contains(entries[i].1)
}

proof fn lemma_filter_contains_iff(s: Seq<u64>, f: spec_fn(u64) -> bool, c: u64)
    ensures
        s.filter(f).contains(c) <==> s.contains(c) && f(c),
{
    s.filter_lemma(f);
    if s.filter(f).contains(c) {
        s.lemma_filter_contains_rev(f, c);
        let k = choose|k: int| 0 <= k < s.filter(f).len() && s.filter(f)[k] == c;
        assert(f(s.filter(f)[k]));
    }
    if s.contains(c) && f(c) {
        let k = choose|k: int| 0 <= k < s.len() && s[k] == c;
        assert(s.filter(f).contains(s[k]));
    }
}

/// A report takes every live connection of the charger: when each of its
/// connections runs to a registered browser of its own, every one of them
/// becomes a lost connection (its number and browser, in order), and the
/// browsers still registered are exactly the others.
pub proof fn lemma_report_loses_every_live_connection(entries: Seq<(RemoteConnKey, u64)>, charger: u128, clients: Seq<u64>)
    requires
        distinct_handles(entries, charger),
        handles_registered(entries, charger, clients),
    ensures
        drain_lost(entries, charger, clients).0 == entries.filter(conn_of(charger)).map_values(lost_entry()),
        forall|c: u64| #![trigger drain_lost(entries, charger, clients).1.contains(c)]
            drain_lost(entries, charger, clients).1.contains(c) <==> clients.contains(c) && !handle_of_charger(
                entries,
                charger,
                c,
            ),
    decreases entries.len(),
{
    if entries.len() == 0 {
        assert(entries.filter(conn_of(charger)) =~= Seq::<(RemoteConnKey, u64)>::empty());
        assert(entries.filter(conn_of(charger)).map_values(lost_entry()) =~= Seq::<(i32, u64)>::empty());
    } else {
        let p = entries.drop_last();
        let e = entries.last();
        let n = entries.len() - 1;
        assert(entries =~= p.push(e));
        assert forall|i: int, j: int|
            0 <= i < j < p.len() && (#[trigger] p[i]).0.charger_id == charger && (#[trigger] p[j]).0.charger_id
                == charger implies p[i].1 != p[j].1 by {
            assert(p[i] == entries[i] && p[j] == entries[j]);
        }
        assert forall|i: int| 0 <= i < p.len() && (#[trigger] p[i]).0.charger_id == charger implies clients.contains(
            p[i].1,
        ) by {
            assert(p[i] == entries[i]);
        }
        lemma_report_loses_every_live_connection(p, charger, clients);
        let (lost, rest) = drain_lost(p, charger, clients);
        p.lemma_filter_push(e, conn_of(charger));
        assert forall|c: u64| handle_of_charger(entries, charger, c) <==> (handle_of_charger(p, charger, c) || (
        e.0.charger_id == charger && e.1 == c)) by {
            if handle_of_charger(entries, charger, c) {
                let i = choose|i: int| 0 <= i < entries.len() && entries[i].0.charger_id == charger && entries[i].1 == c;
                if i < n {
                    assert(p[i] == entries[i]);
                }
            }
            if handle_of_charger(p, charger, c) {
                let i = choose|i: int| 0 <= i < p.len() && p[i].0.charger_id == charger && p[i].1 == c;
                assert(p[i] == entries[i]);
            }
            if e.0.charger_id == charger && e.1 == c {
                assert(entries[n] == e);
            }
        }
        if e.0.charger_id == charger {
            assert(entries[n] == e);
            assert(clients.contains(e.1));
            if handle_of_charger(p, charger, e.1) {
                let i = choose|i: int| 0 <= i < p.len() && p[i].0.charger_id == charger && p[i].1 == e.1;
                assert(p[i] == entries[i]);
                assert(entries[i].1 != entries[n].1);
            }
            assert(rest.contains(e.1));
            assert(p.filter(conn_of(charger)).push(e).map_values(lost_entry()) =~= p.filter(conn_of(charger)).map_values(
                lost_entry(),
            ).push((e.0.conn_no, e.1)));
            assert forall|c: u64| #![trigger drain_lost(entries, charger, clients).1.contains(c)]
                drain_lost(entries, charger, clients).1.contains(c) <==> clients.contains(c) && !handle_of_charger(
                    entries,
                    charger,
                    c,
                ) by {
                lemma_filter_contains_iff(rest, other_than(e.1), c);
                assert(rest.contains(c) <==> clients.contains(c) && !handle_of_charger(p, charger, c));
            }
        } else {
            assert forall|c: u64| #![trigger drain_lost(entries, charger, clients).1.contains(c)]
                drain_lost(entries, charger, clients).1.contains(c) <==> clients.contains(c) && !handle_of_charger(
                    entries,
                    charger,
                    c,
                ) by {
                assert(rest.contains(c) <==> clients.contains(c) && !handle_of_charger(p, charger, c));
            }
        }
    }
}

fn registered(clients: &Vec<u64>, handle: u64) -> (r: bool)
    ensures
        r == clients@.contains(handle),
{
    let mut j: usize = 0;
    while j < clients.len()
        invariant
            j <= clients@.len(),
            forall|m: int| 0 <= m < j ==> clients@[m] != handle,
        decreases clients@.len() - j,
    {
        if clients[j] == handle {
            assert(clients@[j as int] == handle);
            return true;
        }
        j = j + 1;
    }
    false
}

fn without(clients: &Vec<u64>, handle: u64) -> (r: Vec<u64>)
    ensures
        r@ == clients@.filter(other_than(handle)),
{
    let ghost keep = other_than(handle);
    let mut r: Vec<u64> = Vec::new();
    let mut j: usize = 0;
    while j < clients.len()
        invariant
            j <= clients@.len(),
            keep == other_than(handle),
            r@ == clients@.take(j as int).filter(keep),
        decreases clients@.len() - j,
    {
        let c = clients[j];
        assert(clients@.take(j as int + 1).drop_last() == clients@.take(j as int));
        proof {
            reveal_with_fuel(Seq::filter, 1);
        }
        if c != handle {
            r.push(c);
        }
        j = j + 1;
    }
    assert(clients@.take(clients@.len() as int) == clients@);
    r
}

/// What a charger's report does to the relay's connections, each a key and
/// the handle of the browser it runs to, walked in the order given: the
/// charger's connections leave the relay and the others stay; those whose
/// browser is registered among `clients` become the charger's lost
/// connections and their browsers leave `clients` (see `drain_lost`). The
/// result is the connections kept, the lost connections and the browsers
/// still registered.
pub fn bridge_after_report(
    conns: &Vec<(RemoteConnKey, u64)>,
    charger: u128,
    clients: &Vec<u64>,
) -> (r: (Vec<(RemoteConnKey, u64)>, Vec<(i32, u64)>, Vec<u64>))
    ensures
        r.0@ == conns@.filter(|e: (RemoteConnKey, u64)| e.0.charger_id != charger),
        (r.1@, r.2@) == drain_lost(conns@, charger, clients@),
        distinct_handles(conns@, charger) && handles_registered(conns@, charger, clients@) ==> {
            &&& r.1@ == conns@.filter(conn_of(charger)).map_values(lost_entry())
            &&& forall|i: int| 0 <= i < conns@.len() && (#[trigger] conns@[i]).0.charger_id == charger
                ==> !r.2@.contains(conns@[i].1)
            &&& forall|c: u64| #[trigger] clients@.contains(c) && !handle_of_charger(conns@, charger, c) ==> r.2@.contains(c)
        },
{
    proof {
        if distinct_handles(conns@, charger) && handles_registered(conns@, charger, clients@) {
            lemma_report_loses_every_live_connection(conns@, charger, clients@);
            let d = drain_lost(conns@, charger, clients@);
            assert forall|i: int| 0 <= i < conns@.len() && (#[trigger] conns@[i]).0.charger_id == charger
                implies !d.1.contains(conns@[i].1) by {
                assert(handle_of_charger(conns@, charger, conns@[i].1));
            }
        }
    }
    let ghost stay = |e: (RemoteConnKey, u64)| e.0.charger_id != charger;
    let mut kept: Vec<(RemoteConnKey, u64)> = Vec::new();
    let mut lost: Vec<(i32, u64)> = Vec::new();
    let mut rest: Vec<u64> = clients.clone();
    let mut i: usize = 0;
    while i < conns.len()
        invariant
            i <= conns@.len(),
            stay == (|e: (RemoteConnKey, u64)| e.0.charger_id != charger),
            kept@ == conns@.take(i as int).filter(stay),
            (lost@, rest@) == drain_lost(conns@.take(i as int), charger, clients@),
        decreases conns@.len() - i,
    {
        let e = conns[i];
        let ghost before = conns@.take(i as int);
        assert(conns@.take(i as int + 1).drop_last() == before);
        assert(conns@.take(i as int + 1).last() == e);
        proof {
            reveal_with_fuel(Seq::filter, 1);
        }
        let ghost step = drain_lost(conns@.take(i as int + 1), charger, clients@);
        assert(drain_lost(before, charger, clients@) == (lost@, rest@));
        if e.0.charger_id != charger {
            kept.push(e);
            assert(step == (lost@, rest@));
        } else if registered(&rest, e.1) {
            lost.push((e.0.conn_no, e.1));
            rest = without(&rest, e.1);
            assert(step.0 =~= lost@);
            assert(step.1 =~= rest@);
        } else {
            assert(step == (lost@, rest@));
        }
        i = i + 1;
    }
    assert(conns@.take(conns@.len() as int) == conns@);
    (kept, lost, rest)
}

/// Whether the management connection of `charger`, among `sockets` (each a
/// charger's id and the handle of its remote address), runs from `addr`.
pub open spec fn socket_of_charger_at(sockets: Seq<(u128, u64)>, charger: u128, addr: u64) -> bool {
    exists|i: int| 0 <= i < sockets.len() && sockets[i].0 == charger && sockets[i].1 == addr
}

fn is_socket_of_charger_at(sockets: &Vec<(u128, u64)>, charger: u128, addr: u64) -> (r: bool)
    ensures
        r == socket_of_charger_at(sockets@, charger, addr),
{
    let mut j: usize = 0;
    while j < sockets.len()
        invariant
            j <= sockets@.len(),
            forall|m: int| 0 <= m < j ==> !(sockets@[m].0 == charger && sockets@[m].1 == addr),
        decreases sockets@.len() - j,
    {
        let e = sockets[j];
        if e.0 == charger && e.1 == addr {
            assert(sockets@[j as int].0 == charger && sockets@[j as int].1 == addr);
            return true;
        }
        j = j + 1;
    }
    false
}

/// The management connections kept when `charger`'s is dropped: those of
/// other chargers.
fn sockets_without(sockets: &Vec<(u128, u64)>, charger: u128) -> (r: Vec<(u128, u64)>)
    ensures
        r@ == sockets@.filter(|e: (u128, u64)| e.0 != charger),
{
    let ghost keep = |e: (u128, u64)| e.0 != charger;
    let mut r: Vec<(u128, u64)> = Vec::new();
    let mut j: usize = 0;
    while j < sockets.len()
        invariant
            j <= sockets@.len(),
            keep == (|e: (u128, u64)| e.0 != charger),
            r@ == sockets@.take(j as int).filter(keep),
        decreases sockets@.len() - j,
    {
        let e = sockets[j];
        assert(sockets@.take(j as int + 1).drop_last() == sockets@.take(j as int));
        proof {
            reveal_with_fuel(Seq::filter, 1);
        }
        if e.0 != charger {
            r.push(e);
        }
        j = j + 1;
    }
    assert(sockets@.take(sockets@.len() as int) == sockets@);
    r
}

/// The remote addresses of management connections kept when `charger`'s
/// connection is dropped: all but the one it ran from.
fn addresses_without(addrs: &Vec<u64>, sockets: &Vec<(u128, u64)>, charger: u128) -> (r: Vec<u64>)
    ensures
        r@ == addrs@.filter(|a: u64| !socket_of_charger_at(sockets@, charger, a)),
{
    let ghost keep = |a: u64| !socket_of_charger_at(sockets@, charger, a);
    let mut r: Vec<u64> = Vec::new();
    let mut j: usize = 0;
    while j < addrs.len()
        invariant
            j <= addrs@.len(),
            keep == (|a: u64| !socket_of_charger_at(sockets@, charger, a)),
            r@ == addrs@.take(j as int).filter(keep),
        decreases addrs@.len() - j,
    {
        let a = addrs[j];
        assert(addrs@.take(j as int + 1).drop_last() == addrs@.take(j as int));
        proof {
            reveal_with_fuel(Seq::filter, 1);
        }
        if !is_socket_of_charger_at(sockets, charger, a) {
            r.push(a);
        }
        j = j + 1;
    }
    assert(addrs@.take(addrs@.len() as int) == addrs@);
    r
}

/// Everything a management report changes besides the stored users of the
/// charger: which charger reported (and the id the answer names), the entry
/// added to the chargers waiting undiscovered at a network, the management
/// connections and their remote addresses that stay once the charger's is
/// dropped, the relay connections that stay, its lost connections and the
/// browsers still registered, and what is stored of the charger.
#[derive(Debug, Clone)]
pub struct ReportPlan {
    pub charger: u128,
    pub answered_uuid: Option<String>,
    /// The network the charger now waits at undiscovered.
    pub undiscovered_network: String,
    /// The id recorded in that waiting entry.
    pub undiscovered_charger: u128,
    /// Management connections by charger id (and remote address) that stay.
    pub management_sockets: Vec<(u128, u64)>,
    /// Remote addresses of management connections that stay.
    pub management_addresses: Vec<u64>,
    pub kept: Vec<(RemoteConnKey, u64)>,
    pub lost: Vec<(i32, u64)>,
    pub clients: Vec<u64>,
    pub firmware_version: String,
    pub port: u16,
    pub mtu: Option<u16>,
    pub device_type: Option<String>,
}

/// Decide a management report from the client address `ip`, the charger
/// found for it (see `management_verdict`), the `User-Agent` header, the
/// management connections (by charger id, with the handle of their remote
/// address) and the remote addresses they are also kept under, the relay's
/// connections and the registered browsers. A request without an
/// address is refused before anything else; a charger that is not
/// identified is refused and nothing changes; an address that is no IP
/// network is an internal error.
pub fn management_report(
    schema: &ManagementSchema,
    charger: Option<StoredCharger>,
    ip: Option<&str>,
    user_agent: Option<&str>,
    sockets: &Vec<(u128, u64)>,
    socket_addresses: &Vec<u64>,
    conns: &Vec<(RemoteConnKey, u64)>,
    clients: &Vec<u64>,
) -> (r: Result<ReportPlan, Error>)
    ensures
        ip is None ==> r == Err::<ReportPlan, Error>(Error::NoValidIp),
        ip matches Some(a) ==> match management_verdict(*schema, charger) {
            Err(e) => r == Err::<ReportPlan, Error>(e),
            Ok((id, by_uid)) => match ip_network_text(a@) {
                None => r == Err::<ReportPlan, Error>(Error::InternalError),
                Some(n) => r matches Ok(p) && {
                    &&& p.charger == id
                    &&& if by_uid { p.answered_uuid matches Some(t) && t@ == uuid_text(id) } else { p.answered_uuid is None }
                    &&& p.undiscovered_network@ == n && p.undiscovered_charger == id
                    &&& p.management_sockets@ == sockets@.filter(|e: (u128, u64)| e.0 != id)
                    &&& p.management_addresses@ == socket_addresses@.filter(
                        |a: u64| !socket_of_charger_at(sockets@, id, a),
                    )
                    &&& p.kept@ == conns@.filter(|e: (RemoteConnKey, u64)| e.0.charger_id != id)
                    &&& (p.lost@, p.clients@) == drain_lost(conns@, id, clients@)
                    &&& match schema.data {
                        ManagementDataVersion::V1(v) => p.firmware_version@ == v.firmware_version@ && p.port == v.port && p.mtu is None,
                        ManagementDataVersion::V2(v) => p.firmware_version@ == v.firmware_version@ && p.port == v.port && p.mtu == v.mtu,
                    }
                    &&& match p.device_type {
                        Some(t) => device_type_spec(match user_agent { Some(u) => Some(u@), None => None }) == Some(t@),
                        None => device_type_spec(match user_agent { Some(u) => Some(u@), None => None }) is None,
                    }
                },
            },
        },
{
    let a = match ip {
        None => return Err(Error::NoValidIp),
        Some(a) => a,
    };
    let identity = match management_decision(schema, charger) {
        Err(e) => return Err(e),
        Ok(m) => m,
    };
    let network = match parse_ip_network(a) {
        None => return Err(Error::InternalError),
        Some(n) => n,
    };
    let management_sockets = sockets_without(sockets, identity.charger);
    let management_addresses = addresses_without(socket_addresses, sockets, identity.charger);
    let (kept, lost, rest) = bridge_after_report(conns, identity.charger, clients);
    let (firmware_version, port, mtu) = reported_charger_state(&schema.data);
    Ok(ReportPlan {
        charger: identity.charger,
        answered_uuid: identity.answered_uuid,
        undiscovered_network: network,
        undiscovered_charger: identity.charger,
        management_sockets,
        management_addresses,
        kept,
        lost,
        clients: rest,
        firmware_version,
        port,
        mtu,
        device_type: device_type(user_agent),
    })
}

} // verus!
