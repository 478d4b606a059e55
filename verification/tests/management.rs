use backend::management::{
    charger_lookup, common_users, discovery_entry, configured_user_actions, configured_user_lookup, device_type,
    lost_connection_summary, management_rate_limit_key, report_address, reported_charger_state, users_to_remove, ReportAddressError,
    ChargerLookup, ConfiguredUser, ManagementDataVersion, ManagementDataVersion1,
    ManagementDataVersion2, ManagementSchema, ServerUser,
};
use backend::password::FindBy;

fn user(email: Option<&str>, id: Option<&str>, name: Option<&str>) -> ConfiguredUser {
    ConfiguredUser {
        email: email.map(|s| s.to_string()),
        user_id: id.map(|s| s.to_string()),
        name: name.map(|s| s.to_string()),
    }
}

#[test]
fn configured_users_are_found_by_email_then_id() {
    let id = uuid::Uuid::from_u128(5).to_string();
    assert!(matches!(configured_user_lookup(&user(Some("A@B.C"), Some(&id), None)), Some(FindBy::Email(ref e)) if e == "a@b.c"));
    assert!(matches!(configured_user_lookup(&user(None, Some(&id), None)), Some(FindBy::Uuid(5))));
    assert!(configured_user_lookup(&user(None, Some("bad"), None)).is_none());
    assert!(configured_user_lookup(&user(None, None, None)).is_none());
}

#[test]
fn known_users_are_reported_back() {
    let server = vec![
        ServerUser { id: 2, email: "two@x".to_string() },
        ServerUser { id: 3, email: "three@x".to_string() },
    ];
    let (old, emails, ids) = common_users(&vec![3, 9, 2], &server);
    assert_eq!(old, vec![1, 0, 1]);
    assert_eq!(emails, vec!["three@x".to_string(), String::new(), "two@x".to_string()]);
    assert_eq!(ids, vec![uuid::Uuid::from_u128(3).to_string(), String::new(), uuid::Uuid::from_u128(2).to_string()]);
}

#[test]
fn unknown_users_get_a_random_stand_in() {
    let users = vec![user(None, None, Some("n1")), user(Some("a@b"), None, Some("n2")), user(Some("c@d"), None, None)];
    let found = vec![None, Some(7), Some(8)];
    let actions = configured_user_actions(&users, &found);
    assert_eq!(actions.len(), 3);
    assert_eq!(actions[0].rename, None);
    assert_eq!((actions[1].id, actions[1].rename.clone()), (7, Some("n2".to_string())));
    assert_eq!((actions[2].id, actions[2].rename.clone()), (8, None));
}

#[test]
fn accesses_the_charger_no_longer_reports_are_removed() {
    assert_eq!(users_to_remove(&vec![1, 2, 3, 4], &vec![4, 2]), vec![1, 3]);
    assert!(users_to_remove(&vec![1], &vec![1]).is_empty());
}

#[test]
fn device_type_comes_from_the_user_agent() {
    assert_eq!(device_type(Some("ESP32 HTTP Client/1.0")), None);
    assert_eq!(
        device_type(Some("Tinkerforge-WARP2_Charger/2.8.0+6811d0b1")),
        Some("Tinkerforge-WARP2_Charger/2.8.0+6811d0b1".to_string())
    );
    assert_eq!(device_type(None), None);
}

fn v2(id: &str) -> ManagementDataVersion {
    ManagementDataVersion::V2(ManagementDataVersion2 {
        id: id.to_string(),
        password: "pw".to_string(),
        port: 80,
        firmware_version: "2.3.1".to_string(),
        configured_users: Vec::new(),
        mtu: Some(1400),
    })
}

fn v1() -> ManagementDataVersion {
    ManagementDataVersion::V1(ManagementDataVersion1 {
        port: 81,
        firmware_version: "1.0".to_string(),
        configured_connections: vec![1],
    })
}

#[test]
fn chargers_are_found_by_uid_before_id() {
    let id = uuid::Uuid::from_u128(9).to_string();
    let s = ManagementSchema { id: Some(12), password: Some("p".to_string()), data: v2(&id) };
    assert!(matches!(charger_lookup(&s), ChargerLookup::ByUid { uid: 12, password: Some(ref p) } if p == "p"));
    assert_eq!(management_rate_limit_key(&s), Some("12".to_string()));
    let s = ManagementSchema { id: None, password: None, data: v2(&id) };
    assert!(matches!(charger_lookup(&s), ChargerLookup::ByUuid { id: 9, ref password } if password == "pw"));
    assert_eq!(management_rate_limit_key(&s), Some(id));
    let s = ManagementSchema { id: None, password: None, data: v2("bad") };
    assert!(matches!(charger_lookup(&s), ChargerLookup::InvalidId));
    let s = ManagementSchema { id: None, password: None, data: v1() };
    assert!(matches!(charger_lookup(&s), ChargerLookup::NoCredentials));
    assert_eq!(management_rate_limit_key(&s), None);
}

#[test]
fn reported_state_per_version() {
    assert_eq!(reported_charger_state(&v1()), ("1.0".to_string(), 81, None));
    assert_eq!(reported_charger_state(&v2("x")), ("2.3.1".to_string(), 80, Some(1400)));
}

#[test]
fn lost_connections_are_listed_by_charger() {
    let s = lost_connection_summary(&vec![(1, vec![0, 2]), (2, Vec::new())]);
    assert_eq!(s, vec![(uuid::Uuid::from_u128(1).to_string(), vec![0, 2]), (uuid::Uuid::from_u128(2).to_string(), Vec::new())]);
}

#[test]
fn discovered_chargers_are_listed_with_their_age() {
    assert_eq!(discovery_entry(3, 17), (uuid::Uuid::from_u128(3).to_string(), 17));
}

#[test]
fn chargers_report_from_an_ip_network() {
    assert_eq!(report_address(None), Err(ReportAddressError::Missing));
    assert_eq!(report_address(Some("not an ip")), Err(ReportAddressError::Unparsable));
    assert_eq!(report_address(Some("123.123.123.3")), Ok("123.123.123.3/32".to_string()));
    assert_eq!(report_address(Some("10.0.0.0/8")), Ok("10.0.0.0/8".to_string()));
}
