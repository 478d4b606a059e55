use backend::devices::{
    device_display_name, heartbeat_step, list_devices, ChargerStatus, DeviceAccess, DeviceRecord,
    SocketAction, SocketEvent, CLIENT_TIMEOUT_NANOS,
};
use base64::Engine;

fn device(id: u128, uid: i32, name: Option<Vec<u8>>) -> DeviceRecord {
    DeviceRecord {
        id,
        uid,
        name,
        webinterface_port: 80 + uid,
        last_state_change: Some(1_700_000_000 + uid as i64),
        firmware_version: format!("2.{uid}.0"),
    }
}

fn access(charger_id: u128, name: Option<&str>, note: Option<&str>, valid: bool) -> DeviceAccess {
    DeviceAccess {
        charger_id,
        name: name.map(|n| n.to_string()),
        note: note.map(|n| n.to_string()),
        valid,
        added_at: Some(1_600_000_000),
    }
}

fn text(id: u128) -> String {
    uuid::Uuid::from_u128(id).to_string()
}

#[test]
fn list_shows_only_reachable_devices_in_stored_order() {
    let devices = vec![
        device(1, 11, Some(vec![1, 2, 3])),
        device(2, 12, None),
        device(3, 13, Some(vec![9])),
        device(4, 14, None),
    ];
    let accesses = vec![
        access(3, None, Some("garage"), true),
        access(1, Some("home"), None, false),
        access(1, Some("second"), None, true),
        access(4, None, None, true),
    ];
    let connected = vec![3, 99];
    let list = list_devices(&devices, &accesses, &connected);
    assert_eq!(list.len(), 3);

    assert_eq!(list[0].id, text(1));
    assert_eq!(list[0].uid, 11);
    // The first access of the user to the charger counts.
    assert_eq!(list[0].name, "home");
    assert!(!list[0].valid);
    assert_eq!(list[0].note, None);
    assert_eq!(list[0].status, ChargerStatus::Disconnected);
    assert_eq!(list[0].port, 91);
    assert_eq!(list[0].firmware_version, "2.11.0");
    assert_eq!(list[0].last_state_change, Some(1_700_000_011));
    assert_eq!(list[0].added_at, Some(1_600_000_000));

    assert_eq!(list[1].id, text(3));
    // No name of the user's own: the charger's encrypted name in base64.
    assert_eq!(list[1].name, base64::prelude::BASE64_STANDARD.encode([9u8]));
    assert_eq!(list[1].note, Some("garage".to_string()));
    assert_eq!(list[1].status, ChargerStatus::Connected);

    assert_eq!(list[2].id, text(4));
    // Neither name: empty.
    assert_eq!(list[2].name, "");
}

#[test]
fn list_of_user_without_access_is_empty() {
    let devices = vec![device(1, 1, None)];
    assert!(list_devices(&devices, &Vec::new(), &vec![1]).is_empty());
    assert!(list_devices(&Vec::new(), &vec![access(1, None, None, true)], &Vec::new()).is_empty());
}

#[test]
fn display_name_prefers_the_users_name() {
    let d = device(5, 5, Some(b"enc".to_vec()));
    assert_eq!(device_display_name(&access(5, Some("mine"), None, true), &d), "mine");
    assert_eq!(device_display_name(&access(5, None, None, true), &d), "ZW5j");
}

#[test]
fn heartbeat_answers_each_event() {
    assert_eq!(heartbeat_step(10, 20, SocketEvent::Close), (10, SocketAction::Stop));
    assert_eq!(heartbeat_step(10, 20, SocketEvent::Error), (10, SocketAction::Stop));
    assert_eq!(heartbeat_step(10, 20, SocketEvent::End), (10, SocketAction::Stop));
    assert_eq!(heartbeat_step(10, 20, SocketEvent::Ping), (20, SocketAction::SendPong));
    assert_eq!(heartbeat_step(10, 20, SocketEvent::Pong), (20, SocketAction::Continue));
    assert_eq!(heartbeat_step(10, 20, SocketEvent::Other), (10, SocketAction::Continue));
    assert_eq!(heartbeat_step(10, 20, SocketEvent::Tick), (10, SocketAction::SendPing));
}

#[test]
fn heartbeat_times_out_only_after_fifteen_seconds() {
    let last = 1_000;
    assert_eq!(
        heartbeat_step(last, last + CLIENT_TIMEOUT_NANOS, SocketEvent::Tick),
        (last, SocketAction::SendPing)
    );
    assert_eq!(
        heartbeat_step(last, last + CLIENT_TIMEOUT_NANOS + 1, SocketEvent::Tick),
        (last, SocketAction::Stop)
    );
    // A clock reading before the last heartbeat counts as no time passed.
    assert_eq!(heartbeat_step(last, 0, SocketEvent::Tick), (last, SocketAction::SendPing));
}

#[test]
fn answered_pings_keep_the_client() {
    // After a pong at 20 s a tick at 35 s still pings; one at 35 s + 1 ns ends it.
    let (beat, _) = heartbeat_step(0, 20_000_000_000, SocketEvent::Pong);
    assert_eq!(heartbeat_step(beat, 35_000_000_000, SocketEvent::Tick).1, SocketAction::SendPing);
    assert_eq!(heartbeat_step(beat, 35_000_000_001, SocketEvent::Tick).1, SocketAction::Stop);
    // Other messages are no heartbeat.
    let (beat, _) = heartbeat_step(0, 20_000_000_000, SocketEvent::Other);
    assert_eq!(heartbeat_step(beat, 20_000_000_000, SocketEvent::Tick).1, SocketAction::Stop);
}
