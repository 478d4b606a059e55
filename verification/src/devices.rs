//! The device list a user sees: which chargers a user may reach, how each
//! is named and whether it is connected, and the heartbeat rule of the
//! web socket that streams the list.

use vstd::prelude::*;

use crate::encoding::{base64_encode, base64_encoded};
use crate::ids::{uuid_text, uuid_to_string};

verus! {

/// Whether the server holds a management connection to a charger.
#[derive(Debug, Clone, Copy, PartialEq, Eq)]
pub enum ChargerStatus {
    Disconnected,
    Connected,
}

/// A charger as the server stores it (the columns the list reads).
#[derive(Debug, Clone)]
pub struct DeviceRecord {
    pub id: u128,
    pub uid: i32,
    /// The charger's own name, encrypted, as bytes.
    pub name: Option<Vec<u8>>,
    pub webinterface_port: i32,
    /// Seconds since the epoch.
    pub last_state_change: Option<i64>,
    pub firmware_version: String,
}

/// A user's access to a charger as the server stores it.
#[derive(Debug, Clone)]
pub struct DeviceAccess {
    pub charger_id: u128,
    /// The name the user gave the charger.
    pub name: Option<String>,
    pub note: Option<String>,
    pub valid: bool,
    /// Seconds since the epoch.
    pub added_at: Option<i64>,
}

/// One entry of the device list.
#[derive(Debug, Clone)]
pub struct GetChargerSchema {
    pub id: String,
    pub uid: i32,
    pub name: String,
    pub note: Option<String>,
    pub status: ChargerStatus,
    pub port: i32,
    pub valid: bool,
    pub last_state_change: Option<i64>,
    pub firmware_version: String,
    pub added_at: Option<i64>,
}

/// The position of the first access that belongs to charger `id`, or -1.
pub open spec fn first_access(accesses: Seq<DeviceAccess>, id: u128) -> int
    decreases accesses.len(),
{
    if accesses.len() == 0 {
        -1
    } else if accesses[0].charger_id == id {
        0
    } else {
        let p = first_access(accesses.drop_first(), id);
        if p < 0 { -1 } else { p + 1 }
    }
}

/// `first_access` finds the first match.
proof fn lemma_first_access(accesses: Seq<DeviceAccess>, id: u128, j: int)
    requires
        0 <= j <= accesses.len(),
        forall|m: int| 0 <= m < j ==> (#[trigger] accesses[m]).charger_id != id,
    ensures
        j < accesses.len() && accesses[j].charger_id == id ==> first_access(accesses, id) == j,
        j == accesses.len() ==> first_access(accesses, id) == -1,
    decreases j,
{
    if j > 0 {
        let rest = accesses.drop_first();
        assert forall|m: int| 0 <= m < j - 1 implies (#[trigger] rest[m]).charger_id != id by {
            assert(rest[m] == accesses[m + 1]);
        }
        lemma_first_access(rest, id, j - 1);
        if j < accesses.len() {
            assert(rest[j - 1] == accesses[j]);
        }
    }
}

/// The chargers the list shows: those the user has an access to, in the
/// order the server stores them.
pub open spec fn listed_devices(devices: Seq<DeviceRecord>, accesses: Seq<DeviceAccess>) -> Seq<DeviceRecord> {
    devices.filter(|d: DeviceRecord| first_access(accesses, d.id) >= 0)
}

/// The name shown for a charger: the user's own name for it, else the
/// charger's encrypted name in base64, else nothing.
pub open spec fn display_name(access: DeviceAccess, device: DeviceRecord) -> Seq<char> {
    match access.name {
        Some(n) => n@,
        None => match device.name {
            Some(bytes) => base64_encoded(bytes@),
            None => Seq::<char>::empty(),
        },
    }
}

/// The status of a charger given the ids of the connected ones.
pub open spec fn status_of(connected: Seq<u128>, id: u128) -> ChargerStatus {
    if connected.contains(id) { ChargerStatus::Connected } else { ChargerStatus::Disconnected }
}

/// The list entry for `device`, using the first access of the user to it.
pub open spec fn entry_matches(
    e: GetChargerSchema,
    device: DeviceRecord,
    accesses: Seq<DeviceAccess>,
    connected: Seq<u128>,
) -> bool {
    let a = accesses[first_access(accesses, device.id)];
    &&& e.id@ == uuid_text(device.id)
    &&& e.uid == device.uid
    &&& e.name@ == display_name(a, device)
    &&& e.note == a.note
    &&& e.status == status_of(connected, device.id)
    &&& e.port == device.webinterface_port
    &&& e.valid == a.valid
    &&& e.last_state_change == device.last_state_change
    &&& e.firmware_version@ == device.firmware_version@
    &&& e.added_at == a.added_at
}

fn clone_text(o: &Option<String>) -> (r: Option<String>)
    ensures
        r == *o,
{
    match o {
        Some(s) => Some(s.clone()),
        None => None,
    }
}

fn is_connected(connected: &Vec<u128>, id: u128) -> (r: bool)
    ensures
        r == connected@.contains(id),
{
    let mut i: usize = 0;
    while i < connected.len()
        invariant
            i <= connected@.len(),
            forall|m: int| 0 <= m < i ==> connected@[m] != id,
        decreases connected@.len() - i,
    {
        if connected[i] == id {
            assert(connected@[i as int] == id);
            return true;
        }
        i = i + 1;
    }
    false
}

/// The name a charger is shown under.
pub fn device_display_name(access: &DeviceAccess, device: &DeviceRecord) -> (r: String)
    ensures
        r@ == display_name(*access, *device),
{
    match &access.name {
        Some(n) => n.clone(),
        None => match &device.name {
            Some(bytes) => base64_encode(bytes.as_slice()),
            None => String::new(),
        },
    }
}

/// The device list of a user: for each stored charger that the user has
/// an access to, in order, an entry built from the charger and the user's
/// first access to it. `connected` holds the ids of the chargers with a
/// management connection.
pub fn list_devices(
    devices: &Vec<DeviceRecord>,
    accesses: &Vec<DeviceAccess>,
    connected: &Vec<u128>,
) -> (r: Vec<GetChargerSchema>)
    ensures
        r@.len() == listed_devices(devices@, accesses@).len(),
        forall|k: int| 0 <= k < r@.len() ==> entry_matches(
            #[trigger] r@[k],
            listed_devices(devices@, accesses@)[k],
            accesses@,
            connected@,
        ),
{
    let ghost pred = |d: DeviceRecord| first_access(accesses@, d.id) >= 0;
    let mut out: Vec<GetChargerSchema> = Vec::new();
    let mut i: usize = 0;
    while i < devices.len()
        invariant
            i <= devices@.len(),
            pred == (|d: DeviceRecord| first_access(accesses@, d.id) >= 0),
            out@.len() == devices@.take(i as int).filter(pred).len(),
            forall|k: int| 0 <= k < out@.len() ==> entry_matches(
                #[trigger] out@[k],
                devices@.take(i as int).filter(pred)[k],
                accesses@,
                connected@,
            ),
        decreases devices@.len() - i,
    {
        let d = &devices[i];
        let ghost before = devices@.take(i as int);
        assert(devices@.take(i as int + 1) == before.push(*d));
        assert(devices@.take(i as int + 1).drop_last() == before);
        proof {
            reveal_with_fuel(Seq::filter, 1);
        }
        let mut j: usize = 0;
        while j < accesses.len() && accesses[j].charger_id != d.id
            invariant
                j <= accesses@.len(),
                forall|m: int| 0 <= m < j ==> (#[trigger] accesses@[m]).charger_id != d.id,
            decreases accesses@.len() - j,
        {
            j = j + 1;
        }
        proof {
            lemma_first_access(accesses@, d.id, j as int);
        }
        if j < accesses.len() {
            let a = &accesses[j];
            let e = GetChargerSchema {
                id: uuid_to_string(d.id),
                uid: d.uid,
                name: device_display_name(a, d),
                note: clone_text(&a.note),
                status: if is_connected(connected, d.id) {
                    ChargerStatus::Connected
                } else {
                    ChargerStatus::Disconnected
                },
                port: d.webinterface_port,
                valid: a.valid,
                last_state_change: d.last_state_change,
                firmware_version: d.firmware_version.clone(),
                added_at: a.added_at,
            };
            assert(pred(*d));
            assert(devices@.take(i as int + 1).filter(pred) == before.filter(pred).push(*d));
            out.push(e);
        } else {
            assert(!pred(*d));
            assert(devices@.take(i as int + 1).filter(pred) == before.filter(pred));
        }
        i = i + 1;
    }
    assert(devices@.take(devices@.len() as int) == devices@);
    out
}

/// The list shows every charger the user may reach and no other: a stored
/// charger is listed exactly when one of the user's accesses belongs to it.
pub proof fn lemma_list_shows_reachable_devices(devices: Seq<DeviceRecord>, accesses: Seq<DeviceAccess>, i: int)
    requires
        0 <= i < devices.len(),
    ensures
        (exists|j: int| 0 <= j < accesses.len() && accesses[j].charger_id == devices[i].id)
            ==> listed_devices(devices, accesses).contains(devices[i]),
        (forall|j: int| 0 <= j < accesses.len() ==> accesses[j].charger_id != devices[i].id)
            ==> !listed_devices(devices, accesses).contains(devices[i]),
{
    let pred = |d: DeviceRecord| first_access(accesses, d.id) >= 0;
    let id = devices[i].id;
    if exists|j: int| 0 <= j < accesses.len() && accesses[j].charger_id == id {
        let j0 = choose|j: int| 0 <= j < accesses.len() && accesses[j].charger_id == id;
        lemma_first_access_found(accesses, id, j0);
        devices.lemma_filter_contains(pred, i);
    }
    if forall|j: int| 0 <= j < accesses.len() ==> accesses[j].charger_id != id {
        lemma_first_access(accesses, id, accesses.len() as int);
        if devices.filter(pred).contains(devices[i]) {
            let k = choose|k: int| 0 <= k < devices.filter(pred).len() && devices.filter(pred)[k] == devices[i];
            devices.lemma_filter_pred(pred, k);
        }
    }
}

/// When some access belongs to charger `id`, `first_access` finds one.
proof fn lemma_first_access_found(accesses: Seq<DeviceAccess>, id: u128, j: int)
    requires
        0 <= j < accesses.len(),
        accesses[j].charger_id == id,
    ensures
        0 <= first_access(accesses, id) <= j,
        accesses[first_access(accesses, id)].charger_id == id,
    decreases j,
{
    if accesses[0].charger_id != id {
        let rest = accesses.drop_first();
        assert(rest[j - 1] == accesses[j]);
        lemma_first_access_found(rest, id, j - 1);
        assert(rest[first_access(rest, id)] == accesses[first_access(rest, id) + 1]);
    }
}

/// Seconds between two pings the server sends on the device socket.
pub const HEARTBEAT_INTERVAL_SECS: u64 = 5;

/// Nanoseconds of silence after which the device socket is closed.
pub const CLIENT_TIMEOUT_NANOS: u64 = 15_000_000_000;

/// What happens on the device socket.
#[derive(Debug, Clone, Copy, PartialEq, Eq)]
pub enum SocketEvent {
    /// The client closed the socket.
    Close,
    /// The client pinged.
    Ping,
    /// The client answered a ping.
    Pong,
    /// Any other message of the client.
    Other,
    /// The socket failed.
    Error,
    /// The message stream ended.
    End,
    /// The heartbeat timer fired.
    Tick,
}

/// What the server does in answer.
#[derive(Debug, Clone, Copy, PartialEq, Eq)]
pub enum SocketAction {
    /// Leave the loop, forget the client and close the socket.
    Stop,
    /// Answer the client's ping.
    SendPong,
    /// Ping the client.
    SendPing,
    /// Nothing.
    Continue,
}

/// The rule of the device socket's loop. `last_heartbeat` and `now` are
/// nanoseconds on a monotonic clock; the result is the new time of the last
/// heartbeat and the action to take. A ping or pong of the client is a
/// heartbeat; a tick more than the timeout after the last heartbeat (an
/// earlier `now` counts as no time passed) ends the session.
pub open spec fn heartbeat_next(last_heartbeat: u64, now: u64, event: SocketEvent) -> (u64, SocketAction) {
    match event {
        SocketEvent::Close | SocketEvent::Error | SocketEvent::End => (last_heartbeat, SocketAction::Stop),
        SocketEvent::Ping => (now, SocketAction::SendPong),
        SocketEvent::Pong => (now, SocketAction::Continue),
        SocketEvent::Other => (last_heartbeat, SocketAction::Continue),
        SocketEvent::Tick => if now > last_heartbeat && now - last_heartbeat > CLIENT_TIMEOUT_NANOS {
            (last_heartbeat, SocketAction::Stop)
        } else {
            (last_heartbeat, SocketAction::SendPing)
        },
    }
}

/// One step of the device socket's loop.
pub fn heartbeat_step(last_heartbeat: u64, now: u64, event: SocketEvent) -> (r: (u64, SocketAction))
    ensures
        r == heartbeat_next(last_heartbeat, now, event),
{
    match event {
        SocketEvent::Close | SocketEvent::Error | SocketEvent::End => (last_heartbeat, SocketAction::Stop),
        SocketEvent::Ping => (now, SocketAction::SendPong),
        SocketEvent::Pong => (now, SocketAction::Continue),
        SocketEvent::Other => (last_heartbeat, SocketAction::Continue),
        SocketEvent::Tick => {
            let elapsed = now.saturating_sub(last_heartbeat);
            if elapsed > CLIENT_TIMEOUT_NANOS {
                (last_heartbeat, SocketAction::Stop)
            } else {
                (last_heartbeat, SocketAction::SendPing)
            }
        },
    }
}

/// A client that pings or answers a ping is kept: a tick that comes no
/// later than the timeout after that heartbeat pings it again instead of
/// closing the socket.
pub proof fn lemma_heartbeat_keeps_client(last_heartbeat: u64, beat: u64, tick: u64, answer: SocketEvent)
    requires
        answer == SocketEvent::Ping || answer == SocketEvent::Pong,
        tick <= beat + CLIENT_TIMEOUT_NANOS,
    ensures
        heartbeat_next(heartbeat_next(last_heartbeat, beat, answer).0, tick, SocketEvent::Tick).1
            == SocketAction::SendPing,
{
}

/// A client that stays silent past the timeout is dropped at the next tick,
/// whatever else it sent that is no heartbeat.
pub proof fn lemma_silent_client_dropped(last_heartbeat: u64, tick: u64)
    requires
        tick > last_heartbeat + CLIENT_TIMEOUT_NANOS,
    ensures
        heartbeat_next(heartbeat_next(last_heartbeat, tick, SocketEvent::Other).0, tick, SocketEvent::Tick).1
            == SocketAction::Stop,
{
}

} // verus!
