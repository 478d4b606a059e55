//! Device groupings: who may change a grouping, what an edit or a new
//! grouping writes, and that a user never ends up with two default
//! groupings.

use vstd::prelude::*;

use crate::ids::{uuid_text, uuid_to_string};

verus! {

/// A grouping as the server stores it.
#[derive(Debug, Clone)]
pub struct GroupingRecord {
    pub id: u128,
    pub name: String,
    pub user_id: u128,
    pub is_default: bool,
}

/// A charger's membership in a grouping.
#[derive(Debug, Clone, Copy)]
pub struct GroupingMember {
    pub id: u128,
    pub grouping_id: u128,
    pub charger_id: u128,
}

/// Why a grouping request is refused. The routes answer `NotFound` as
/// "charger does not exist", `Unauthorized` as unauthorized,
/// `InvalidPayload` as an invalid payload and `AlreadyInGrouping` as
/// "this charger already exists".
#[derive(Debug, Clone, Copy, PartialEq, Eq)]
pub enum GroupingError {
    NotFound,
    Unauthorized,
    InvalidPayload,
    AlreadyInGrouping,
}

/// The grouping routes.
#[derive(Debug, Clone, Copy, PartialEq, Eq)]
pub enum GroupingRoute {
    Create,
    Edit,
    Delete,
    AddDevice,
    RemoveDevice,
    List,
}

/// The status code a grouping route answers a refusal with: a missing
/// grouping is "not found" (404) where the delete and add-device routes
/// document it, and a bad request (400) on the edit and remove-device
/// routes, as their documentation and tests give it; an owner mismatch is
/// 401, an empty edit 400 and a device already in the grouping 409.
pub open spec fn grouping_error_status(e: GroupingError, route: GroupingRoute) -> u16 {
    match e {
        GroupingError::NotFound => match route {
            GroupingRoute::Delete | GroupingRoute::AddDevice => 404,
            _ => 400,
        },
        GroupingError::Unauthorized => 401,
        GroupingError::InvalidPayload => 400,
        GroupingError::AlreadyInGrouping => 409,
    }
}

impl GroupingError {
    /// The status code `route` answers this refusal with.
    pub fn status_code(&self, route: GroupingRoute) -> (code: u16)
        ensures
            code == grouping_error_status(*self, route),
    {
        match self {
            GroupingError::NotFound => match route {
                GroupingRoute::Delete | GroupingRoute::AddDevice => 404,
                _ => 400,
            },
            GroupingError::Unauthorized => 401,
            GroupingError::InvalidPayload => 400,
            GroupingError::AlreadyInGrouping => 409,
        }
    }
}

/// Whether grouping `grouping` (as looked up) may be deleted by `user`;
/// the grouping's members go with it.
pub fn delete_grouping(grouping: Option<GroupingRecord>, user: u128) -> (r: Result<(), GroupingError>)
    ensures
        grouping is None ==> r == Err::<(), GroupingError>(GroupingError::NotFound),
        grouping matches Some(g) ==> r == (if g.user_id == user { Ok::<(), GroupingError>(()) } else {
            Err(GroupingError::Unauthorized)
        }),
{
    match owned_grouping(grouping, user) {
        Ok(_) => Ok(()),
        Err(e) => Err(e),
    }
}

/// The grouping a request names, if the requesting user owns it.
pub open spec fn ownership_verdict(grouping: Option<GroupingRecord>, user: u128) -> Result<GroupingRecord, GroupingError> {
    match grouping {
        None => Err(GroupingError::NotFound),
        Some(g) => if g.user_id == user { Ok(g) } else { Err(GroupingError::Unauthorized) },
    }
}

/// Check that the grouping a request names (as looked up by its id)
/// exists and belongs to `user`.
pub fn owned_grouping(grouping: Option<GroupingRecord>, user: u128) -> (r: Result<GroupingRecord, GroupingError>)
    ensures
        r == ownership_verdict(grouping, user),
{
    match grouping {
        None => Err(GroupingError::NotFound),
        Some(g) => if g.user_id == user { Ok(g) } else { Err(GroupingError::Unauthorized) },
    }
}

/// What an edit of a grouping writes: first, when `clear_other_defaults`,
/// the other default groupings of the user stop being default; then the
/// given fields of the grouping are set.
#[derive(Debug, Clone)]
pub struct EditPlan {
    pub clear_other_defaults: bool,
    pub name: Option<String>,
    pub is_default: Option<bool>,
}

/// The plan for an edit of grouping `grouping` (as looked up) by `user`
/// with the new `name` and `is_default`: an edit that changes nothing is
/// refused before the lookup; only the owner may edit; the other defaults
/// are cleared only when a grouping that is not default becomes default.
pub open spec fn edit_verdict(
    grouping: Option<GroupingRecord>,
    user: u128,
    name: Option<String>,
    is_default: Option<bool>,
) -> Result<EditPlan, GroupingError> {
    if name is None && is_default is None {
        Err(GroupingError::InvalidPayload)
    } else {
        match ownership_verdict(grouping, user) {
            Err(e) => Err(e),
            Ok(g) => Ok(EditPlan {
                clear_other_defaults: is_default == Some(true) && !g.is_default,
                name,
                is_default,
            }),
        }
    }
}

/// Decide an edit of a grouping.
pub fn edit_grouping_plan(
    grouping: Option<GroupingRecord>,
    user: u128,
    name: Option<String>,
    is_default: Option<bool>,
) -> (r: Result<EditPlan, GroupingError>)
    ensures
        r == edit_verdict(grouping, user, name, is_default),
{
    if name.is_none() && is_default.is_none() {
        return Err(GroupingError::InvalidPayload);
    }
    match owned_grouping(grouping, user) {
        Err(e) => Err(e),
        Ok(g) => {
            let promoting = match is_default {
                Some(d) => d && !g.is_default,
                None => false,
            };
            Ok(EditPlan { clear_other_defaults: promoting, name, is_default })
        },
    }
}

/// The grouping that a create request makes, and whether the user's other
/// defaults are cleared first (exactly when the new one is default).
pub fn new_grouping(id: u128, name: String, user: u128, is_default: bool) -> (r: (GroupingRecord, bool))
    ensures
        r.0.id == id,
        r.0.name == name,
        r.0.user_id == user,
        r.0.is_default == is_default,
        r.1 == is_default,
{
    (GroupingRecord { id, name, user_id: user, is_default }, is_default)
}

/// A row after its owner's default groupings other than `keep` were
/// cleared (as the update that precedes a promotion does).
pub open spec fn cleared_row(r: GroupingRecord, user: u128, keep: Option<u128>) -> GroupingRecord {
    if r.user_id == user && r.is_default && keep != Some(r.id) {
        GroupingRecord { id: r.id, name: r.name, user_id: r.user_id, is_default: false }
    } else {
        r
    }
}

/// A row after the edit of grouping `gid` set the fields of `plan`.
pub open spec fn edited_row(r: GroupingRecord, gid: u128, plan: EditPlan) -> GroupingRecord {
    if r.id == gid {
        GroupingRecord {
            id: r.id,
            name: match plan.name { Some(n) => n, None => r.name },
            user_id: r.user_id,
            is_default: match plan.is_default { Some(d) => d, None => r.is_default },
        }
    } else {
        r
    }
}

/// The table of groupings after an edit plan for grouping `gid` of `user`
/// was written.
pub open spec fn apply_edit(table: Seq<GroupingRecord>, user: u128, gid: u128, plan: EditPlan) -> Seq<GroupingRecord> {
    table.map_values(|r: GroupingRecord| edited_row(
        if plan.clear_other_defaults { cleared_row(r, user, Some(gid)) } else { r },
        gid,
        plan,
    ))
}

/// The table of groupings after a create request inserted `row`.
pub open spec fn apply_create(table: Seq<GroupingRecord>, row: GroupingRecord, clear: bool) -> Seq<GroupingRecord> {
    table.map_values(|r: GroupingRecord| if clear { cleared_row(r, row.user_id, None) } else { r }).push(row)
}

/// Every grouping id occurs once.
pub open spec fn unique_ids(table: Seq<GroupingRecord>) -> bool {
    forall|i: int, j: int| 0 <= i < j < table.len() ==> table[i].id != table[j].id
}

/// No user has two default groupings.
pub open spec fn one_default_per_user(table: Seq<GroupingRecord>) -> bool {
    forall|i: int, j: int| 0 <= i < j < table.len() && (#[trigger] table[i]).is_default
        && (#[trigger] table[j]).is_default ==> table[i].user_id != table[j].user_id
}

/// An edit that was allowed keeps every user at one default grouping at
/// most: the table held the edited grouping, and no user had two defaults
/// before.
pub proof fn lemma_edit_keeps_one_default(
    table: Seq<GroupingRecord>,
    user: u128,
    k: int,
    name: Option<String>,
    is_default: Option<bool>,
)
    requires
        unique_ids(table),
        one_default_per_user(table),
        0 <= k < table.len(),
        edit_verdict(Some(table[k]), user, name, is_default) is Ok,
    ensures
        one_default_per_user(apply_edit(
            table,
            user,
            table[k].id,
            edit_verdict(Some(table[k]), user, name, is_default)->Ok_0,
        )),
        unique_ids(apply_edit(table, user, table[k].id, edit_verdict(Some(table[k]), user, name, is_default)->Ok_0)),
{
    let plan = edit_verdict(Some(table[k]), user, name, is_default)->Ok_0;
    let gid = table[k].id;
    let out = apply_edit(table, user, gid, plan);
    assert(table[k].user_id == user);
    assert forall|i: int, j: int| 0 <= i < j < out.len() && (#[trigger] out[i]).is_default
        && (#[trigger] out[j]).is_default implies out[i].user_id != out[j].user_id by {
        assert(out[i].user_id == table[i].user_id);
        assert(out[j].user_id == table[j].user_id);
        if table[i].user_id == table[j].user_id {
            if i == k || j == k {
                if plan.is_default != Some(true) {
                    // the edited row is default only if it was before, and the
                    // other one was untouched or cleared
                    assert(table[i].is_default && table[j].is_default);
                }
            } else {
                assert(table[i].is_default && table[j].is_default);
            }
        }
    }
    assert forall|i: int, j: int| 0 <= i < j < out.len() implies out[i].id != out[j].id by {
        assert(out[i].id == table[i].id);
        assert(out[j].id == table[j].id);
    }
}

/// Creating a grouping keeps every user at one default grouping at most.
pub proof fn lemma_create_keeps_one_default(table: Seq<GroupingRecord>, id: u128, name: String, user: u128, is_default: bool)
    requires
        one_default_per_user(table),
    ensures
        one_default_per_user(apply_create(
            table,
            GroupingRecord { id, name, user_id: user, is_default },
            is_default,
        )),
{
    let row = GroupingRecord { id, name, user_id: user, is_default };
    let out = apply_create(table, row, is_default);
    let n = table.len() as int;
    assert forall|i: int, j: int| 0 <= i < j < out.len() && (#[trigger] out[i]).is_default
        && (#[trigger] out[j]).is_default implies out[i].user_id != out[j].user_id by {
        if j == n {
            assert(out[i].user_id == table[i].user_id);
        } else {
            assert(out[i] == (if is_default { cleared_row(table[i], user, None) } else { table[i] }));
            assert(out[j] == (if is_default { cleared_row(table[j], user, None) } else { table[j] }));
            assert(table[i].is_default && table[j].is_default);
        }
    }
}

/// Whether a device may be added to a grouping: the grouping must exist
/// and belong to the user, then the user must have access to the device,
/// and the device must not be a member already.
pub open spec fn add_device_verdict(
    grouping: Option<GroupingRecord>,
    user: u128,
    user_has_access: bool,
    already_member: bool,
) -> Result<(), GroupingError> {
    match ownership_verdict(grouping, user) {
        Err(e) => Err(e),
        Ok(_) => if !user_has_access {
            Err(GroupingError::Unauthorized)
        } else if already_member {
            Err(GroupingError::AlreadyInGrouping)
        } else {
            Ok(())
        },
    }
}

/// Decide whether a device may be added to a grouping.
pub fn add_device_to_grouping(
    grouping: Option<GroupingRecord>,
    user: u128,
    user_has_access: bool,
    already_member: bool,
) -> (r: Result<(), GroupingError>)
    ensures
        r == add_device_verdict(grouping, user, user_has_access, already_member),
{
    match owned_grouping(grouping, user) {
        Err(e) => Err(e),
        Ok(_) => if !user_has_access {
            Err(GroupingError::Unauthorized)
        } else if already_member {
            Err(GroupingError::AlreadyInGrouping)
        } else {
            Ok(())
        },
    }
}

/// The outcome of removing a device from a grouping, given how many
/// memberships the delete removed: none means the device was not in it.
pub fn remove_device_from_grouping(
    grouping: Option<GroupingRecord>,
    user: u128,
    deleted: usize,
) -> (r: Result<(), GroupingError>)
    ensures
        r == match ownership_verdict(grouping, user) {
            Err(e) => Err(e),
            Ok(_) => if deleted == 0 { Err(GroupingError::NotFound) } else { Ok(()) },
        },
{
    match owned_grouping(grouping, user) {
        Err(e) => Err(e),
        Ok(_) => if deleted == 0 { Err(GroupingError::NotFound) } else { Ok(()) },
    }
}

/// One grouping in the answer of the list route.
#[derive(Debug, Clone)]
pub struct GroupingInfo {
    pub id: String,
    pub name: String,
    pub device_ids: Vec<String>,
}

/// The members of grouping `gid`, in stored order.
pub open spec fn members_of(members: Seq<GroupingMember>, gid: u128) -> Seq<GroupingMember> {
    members.filter(|m: GroupingMember| m.grouping_id == gid)
}

/// The entry of the list route for grouping `g`.
pub open spec fn info_matches(info: GroupingInfo, g: GroupingRecord, members: Seq<GroupingMember>) -> bool {
    &&& info.id@ == uuid_text(g.id)
    &&& info.name@ == g.name@
    &&& info.device_ids@.len() == members_of(members, g.id).len()
    &&& forall|k: int| 0 <= k < info.device_ids@.len() ==>
        (#[trigger] info.device_ids@[k])@ == uuid_text(members_of(members, g.id)[k].charger_id)
}

fn device_ids_of(members: &Vec<GroupingMember>, gid: u128) -> (r: Vec<String>)
    ensures
        r@.len() == members_of(members@, gid).len(),
        forall|k: int| 0 <= k < r@.len() ==>
            (#[trigger] r@[k])@ == uuid_text(members_of(members@, gid)[k].charger_id),
{
    let ghost pred = |m: GroupingMember| m.grouping_id == gid;
    let mut out: Vec<String> = Vec::new();
    let mut i: usize = 0;
    while i < members.len()
        invariant
            i <= members@.len(),
            pred == (|m: GroupingMember| m.grouping_id == gid),
            out@.len() == members@.take(i as int).filter(pred).len(),
            forall|k: int| 0 <= k < out@.len() ==>
                (#[trigger] out@[k])@ == uuid_text(members@.take(i as int).filter(pred)[k].charger_id),
        decreases members@.len() - i,
    {
        let m = members[i];
        let ghost before = members@.take(i as int);
        assert(members@.take(i as int + 1) == before.push(m));
        assert(members@.take(i as int + 1).drop_last() == before);
        proof {
            reveal_with_fuel(Seq::filter, 1);
        }
        if m.grouping_id == gid {
            assert(members@.take(i as int + 1).filter(pred) == before.filter(pred).push(m));
            out.push(uuid_to_string(m.charger_id));
        } else {
            assert(members@.take(i as int + 1).filter(pred) == before.filter(pred));
        }
        i = i + 1;
    }
    assert(members@.take(members@.len() as int) == members@);
    out
}

/// The answer of the list route: the user's groupings in stored order,
/// each with the ids of its member chargers.
pub fn grouping_infos(groupings: &Vec<GroupingRecord>, members: &Vec<GroupingMember>) -> (r: Vec<GroupingInfo>)
    ensures
        r@.len() == groupings@.len(),
        forall|k: int| 0 <= k < r@.len() ==> info_matches(#[trigger] r@[k], groupings@[k], members@),
{
    let mut out: Vec<GroupingInfo> = Vec::new();
    let mut i: usize = 0;
    while i < groupings.len()
        invariant
            i <= groupings@.len(),
            out@.len() == i,
            forall|k: int| 0 <= k < i ==> info_matches(#[trigger] out@[k], groupings@[k], members@),
        decreases groupings@.len() - i,
    {
        let g = &groupings[i];
        let info = GroupingInfo {
            id: uuid_to_string(g.id),
            name: g.name.clone(),
            device_ids: device_ids_of(members, g.id),
        };
        out.push(info);
        i = i + 1;
    }
    out
}

} // verus!
