//! Rooms and the room status state machine.

use vstd::prelude::*;

use crate::text::str_eq;

verus! {

/// Occupancy status of a room.
#[derive(Debug, Clone, Copy, PartialEq, Eq, Structural)]
pub enum RoomStatus {
    Vacant,
    Rented,
    NewRented,
    Staff,
    Management,
    Violation,
    Maintenance,
    PendingClean,
}

impl RoomStatus {
    /// The label stored in the database for each status.
    pub open spec fn label(self) -> Seq<char> {
        match self {
            RoomStatus::Vacant => "空房"@,
            RoomStatus::Rented => "在租"@,
            RoomStatus::NewRented => "新租"@,
            RoomStatus::Staff => "员工"@,
            RoomStatus::Management => "管理"@,
            RoomStatus::Violation => "违约"@,
            RoomStatus::Maintenance => "维修中"@,
            RoomStatus::PendingClean => "待清洁"@,
        }
    }

    /// Stored label of this status.
    pub fn as_str(&self) -> (r: &'static str)
        ensures
            r@ == self.label(),
    {
        match self {
            RoomStatus::Vacant => "空房",
            RoomStatus::Rented => "在租",
            RoomStatus::NewRented => "新租",
            RoomStatus::Staff => "员工",
            RoomStatus::Management => "管理",
            RoomStatus::Violation => "违约",
            RoomStatus::Maintenance => "维修中",
            RoomStatus::PendingClean => "待清洁",
        }
    }
}


/// The status a stored label denotes; the retired label "退房" reads as
/// `PendingClean`.
pub open spec fn room_status_from_label(s: Seq<char>) -> Option<RoomStatus> {
    if s == "空房"@ {
        Some(RoomStatus::Vacant)
    } else if s == "在租"@ {
        Some(RoomStatus::Rented)
    } else if s == "新租"@ {
        Some(RoomStatus::NewRented)
    } else if s == "员工"@ {
        Some(RoomStatus::Staff)
    } else if s == "管理"@ {
        Some(RoomStatus::Management)
    } else if s == "违约"@ {
        Some(RoomStatus::Violation)
    } else if s == "维修中"@ {
        Some(RoomStatus::Maintenance)
    } else if s == "待清洁"@ {
        Some(RoomStatus::PendingClean)
    } else if s == "退房"@ {
        Some(RoomStatus::PendingClean)
    } else {
        None
    }
}

/// A status held under a lease: rented, newly rented or in violation.
pub open spec fn is_leased(s: RoomStatus) -> bool {
    s == RoomStatus::Rented || s == RoomStatus::NewRented || s == RoomStatus::Violation
}

/// The full room state machine, including lease-driven transitions: a
/// room that can be checked into (vacant or pending clean) can take a
/// tenant.
pub open spec fn room_transition_allowed(from: RoomStatus, to: RoomStatus) -> bool {
    from == to || match (from, to) {
        (RoomStatus::Vacant, RoomStatus::Rented) => true,
        (RoomStatus::Vacant, RoomStatus::NewRented) => true,
        (RoomStatus::Vacant, RoomStatus::Maintenance) => true,
        (RoomStatus::Vacant, RoomStatus::Management) => true,
        (RoomStatus::Vacant, RoomStatus::Staff) => true,
        (RoomStatus::Vacant, RoomStatus::PendingClean) => true,
        (RoomStatus::Rented, RoomStatus::Violation) => true,
        (RoomStatus::Rented, RoomStatus::PendingClean) => true,
        (RoomStatus::NewRented, RoomStatus::Rented) => true,
        (RoomStatus::NewRented, RoomStatus::Violation) => true,
        (RoomStatus::NewRented, RoomStatus::PendingClean) => true,
        (RoomStatus::Staff, RoomStatus::Vacant) => true,
        (RoomStatus::Staff, RoomStatus::Maintenance) => true,
        (RoomStatus::Staff, RoomStatus::Management) => true,
        (RoomStatus::Staff, RoomStatus::PendingClean) => true,
        (RoomStatus::Management, RoomStatus::Vacant) => true,
        (RoomStatus::Management, RoomStatus::Maintenance) => true,
        (RoomStatus::Management, RoomStatus::Staff) => true,
        (RoomStatus::Management, RoomStatus::PendingClean) => true,
        (RoomStatus::Violation, RoomStatus::Rented) => true,
        (RoomStatus::Violation, RoomStatus::PendingClean) => true,
        (RoomStatus::Maintenance, RoomStatus::Vacant) => true,
        (RoomStatus::Maintenance, RoomStatus::Management) => true,
        (RoomStatus::Maintenance, RoomStatus::Staff) => true,
        (RoomStatus::Maintenance, RoomStatus::PendingClean) => true,
        (RoomStatus::PendingClean, RoomStatus::Rented) => true,
        (RoomStatus::PendingClean, RoomStatus::NewRented) => true,
        (RoomStatus::PendingClean, RoomStatus::Vacant) => true,
        (RoomStatus::PendingClean, RoomStatus::Maintenance) => true,
        (RoomStatus::PendingClean, RoomStatus::Management) => true,
        (RoomStatus::PendingClean, RoomStatus::Staff) => true,
        _ => false,
    }
}

/// Manual status changes: only between the special statuses
/// (vacant, maintenance, management, staff, pending-clean); a status held
/// under a lease is never changed by hand, nor entered by hand.
pub open spec fn room_manual_transition_allowed(from: RoomStatus, to: RoomStatus) -> bool {
    !is_leased(from) && !is_leased(to) && (from == to || match (from, to) {
        (RoomStatus::Vacant, RoomStatus::Maintenance) => true,
        (RoomStatus::Vacant, RoomStatus::Management) => true,
        (RoomStatus::Vacant, RoomStatus::Staff) => true,
        (RoomStatus::Vacant, RoomStatus::PendingClean) => true,
        (RoomStatus::Maintenance, RoomStatus::Vacant) => true,
        (RoomStatus::Maintenance, RoomStatus::Management) => true,
        (RoomStatus::Maintenance, RoomStatus::Staff) => true,
        (RoomStatus::Maintenance, RoomStatus::PendingClean) => true,
        (RoomStatus::Management, RoomStatus::Vacant) => true,
        (RoomStatus::Management, RoomStatus::Maintenance) => true,
        (RoomStatus::Management, RoomStatus::Staff) => true,
        (RoomStatus::Management, RoomStatus::PendingClean) => true,
        (RoomStatus::Staff, RoomStatus::Vacant) => true,
        (RoomStatus::Staff, RoomStatus::Maintenance) => true,
        (RoomStatus::Staff, RoomStatus::Management) => true,
        (RoomStatus::Staff, RoomStatus::PendingClean) => true,
        (RoomStatus::PendingClean, RoomStatus::Vacant) => true,
        (RoomStatus::PendingClean, RoomStatus::Maintenance) => true,
        (RoomStatus::PendingClean, RoomStatus::Management) => true,
        (RoomStatus::PendingClean, RoomStatus::Staff) => true,
        _ => false,
    })
}

impl RoomStatus {
    /// Reads a stored label; unknown labels are refused with "未知房间状态".
    pub fn from_str(s: &str) -> (r: Result<RoomStatus, &'static str>)
        ensures
            match room_status_from_label(s@) {
                Some(st) => r == Ok::<RoomStatus, &'static str>(st),
                None => r.is_err() && r->Err_0@ == "未知房间状态"@,
            },
    {
        if str_eq(s, "空房") {
            Ok(RoomStatus::Vacant)
        } else if str_eq(s, "在租") {
            Ok(RoomStatus::Rented)
        } else if str_eq(s, "新租") {
            Ok(RoomStatus::NewRented)
        } else if str_eq(s, "员工") {
            Ok(RoomStatus::Staff)
        } else if str_eq(s, "管理") {
            Ok(RoomStatus::Management)
        } else if str_eq(s, "违约") {
            Ok(RoomStatus::Violation)
        } else if str_eq(s, "维修中") {
            Ok(RoomStatus::Maintenance)
        } else if str_eq(s, "待清洁") {
            Ok(RoomStatus::PendingClean)
        } else if str_eq(s, "退房") {
            Ok(RoomStatus::PendingClean)
        } else {
            Err("未知房间状态")
        }
    }

    /// Check-in is allowed from a vacant or pending-clean room.
    pub fn allows_check_in(&self) -> (r: bool)
        ensures
            r == (*self == RoomStatus::Vacant || *self == RoomStatus::PendingClean),
    {
        match self {
            RoomStatus::Vacant | RoomStatus::PendingClean => true,
            _ => false,
        }
    }

    /// Check-out is allowed from a rented, newly rented or violation room.
    pub fn allows_check_out(&self) -> (r: bool)
        ensures
            r == is_leased(*self),
    {
        match self {
            RoomStatus::Rented | RoomStatus::NewRented | RoomStatus::Violation => true,
            _ => false,
        }
    }

    /// Whether the full state machine allows moving to `target`.
    pub fn can_transition_to(&self, target: &RoomStatus) -> (r: bool)
        ensures
            r == room_transition_allowed(*self, *target),
    {
        if *self == *target {
            return true;
        }
        match (self, target) {
            (RoomStatus::Vacant, RoomStatus::Rented)
            | (RoomStatus::Vacant, RoomStatus::NewRented)
            | (RoomStatus::Vacant, RoomStatus::Maintenance)
            | (RoomStatus::Vacant, RoomStatus::Management)
            | (RoomStatus::Vacant, RoomStatus::Staff)
            | (RoomStatus::Vacant, RoomStatus::PendingClean)
            | (RoomStatus::Rented, RoomStatus::Violation)
            | (RoomStatus::Rented, RoomStatus::PendingClean)
            | (RoomStatus::NewRented, RoomStatus::Rented)
            | (RoomStatus::NewRented, RoomStatus::Violation)
            | (RoomStatus::NewRented, RoomStatus::PendingClean)
            | (RoomStatus::Staff, RoomStatus::Vacant)
            | (RoomStatus::Staff, RoomStatus::Maintenance)
            | (RoomStatus::Staff, RoomStatus::Management)
            | (RoomStatus::Staff, RoomStatus::PendingClean)
            | (RoomStatus::Management, RoomStatus::Vacant)
            | (RoomStatus::Management, RoomStatus::Maintenance)
            | (RoomStatus::Management, RoomStatus::Staff)
            | (RoomStatus::Management, RoomStatus::PendingClean)
            | (RoomStatus::Violation, RoomStatus::Rented)
            | (RoomStatus::Violation, RoomStatus::PendingClean)
            | (RoomStatus::Maintenance, RoomStatus::Vacant)
            | (RoomStatus::Maintenance, RoomStatus::Management)
            | (RoomStatus::Maintenance, RoomStatus::Staff)
            | (RoomStatus::Maintenance, RoomStatus::PendingClean)
            | (RoomStatus::PendingClean, RoomStatus::Rented)
            | (RoomStatus::PendingClean, RoomStatus::NewRented)
            | (RoomStatus::PendingClean, RoomStatus::Vacant)
            | (RoomStatus::PendingClean, RoomStatus::Maintenance)
            | (RoomStatus::PendingClean, RoomStatus::Management)
            | (RoomStatus::PendingClean, RoomStatus::Staff) => true,
            _ => false,
        }
    }

    /// Whether a manual status change to `target` is allowed.
    pub fn allows_manual_transition_to(&self, target: RoomStatus) -> (r: bool)
        ensures
            r == room_manual_transition_allowed(*self, target),
    {
        if self.allows_check_out() {
            return false;
        }
        if target.allows_check_out() {
            return false;
        }
        if *self == target {
            return true;
        }
        match (self, target) {
            (RoomStatus::Vacant, RoomStatus::Maintenance)
            | (RoomStatus::Vacant, RoomStatus::Management)
            | (RoomStatus::Vacant, RoomStatus::Staff)
            | (RoomStatus::Maintenance, RoomStatus::Vacant)
            | (RoomStatus::Maintenance, RoomStatus::Management)
            | (RoomStatus::Maintenance, RoomStatus::Staff)
            | (RoomStatus::Maintenance, RoomStatus::PendingClean)
            | (RoomStatus::Management, RoomStatus::Vacant)
            | (RoomStatus::Management, RoomStatus::Maintenance)
            | (RoomStatus::Management, RoomStatus::Staff)
            | (RoomStatus::Management, RoomStatus::PendingClean)
            | (RoomStatus::Staff, RoomStatus::Vacant)
            | (RoomStatus::Staff, RoomStatus::Maintenance)
            | (RoomStatus::Staff, RoomStatus::Management)
            | (RoomStatus::Staff, RoomStatus::PendingClean)
            | (RoomStatus::PendingClean, RoomStatus::Vacant)
            | (RoomStatus::PendingClean, RoomStatus::Maintenance)
            | (RoomStatus::PendingClean, RoomStatus::Management)
            | (RoomStatus::PendingClean, RoomStatus::Staff)
            | (RoomStatus::PendingClean, RoomStatus::NewRented)
            | (RoomStatus::Vacant, RoomStatus::PendingClean) => true,
            _ => false,
        }
    }
}

/// Reading back a stored status label gives the status that was stored.
pub proof fn lemma_room_status_label_roundtrip(s: RoomStatus)
    ensures
        room_status_from_label(s.label()) == Some(s),
{
    reveal_strlit("空房");
    reveal_strlit("在租");
    reveal_strlit("新租");
    reveal_strlit("员工");
    reveal_strlit("管理");
    reveal_strlit("违约");
    reveal_strlit("维修中");
    reveal_strlit("待清洁");
    reveal_strlit("退房");
    assert("空房"@[0] != "在租"@[0]);
    assert("空房"@[0] != "新租"@[0]);
    assert("空房"@[0] != "员工"@[0]);
    assert("空房"@[0] != "管理"@[0]);
    assert("空房"@[0] != "违约"@[0]);
    assert("空房"@[0] != "维修中"@[0]);
    assert("空房"@[0] != "待清洁"@[0]);
    assert("在租"@[0] != "新租"@[0]);
    assert("在租"@[0] != "员工"@[0]);
    assert("在租"@[0] != "管理"@[0]);
    assert("在租"@[0] != "违约"@[0]);
    assert("在租"@[0] != "维修中"@[0]);
    assert("在租"@[0] != "待清洁"@[0]);
    assert("新租"@[0] != "员工"@[0]);
    assert("新租"@[0] != "管理"@[0]);
    assert("新租"@[0] != "违约"@[0]);
    assert("新租"@[0] != "维修中"@[0]);
    assert("新租"@[0] != "待清洁"@[0]);
    assert("员工"@[0] != "管理"@[0]);
    assert("员工"@[0] != "违约"@[0]);
    assert("员工"@[0] != "维修中"@[0]);
    assert("员工"@[0] != "待清洁"@[0]);
    assert("管理"@[0] != "违约"@[0]);
    assert("管理"@[0] != "维修中"@[0]);
    assert("管理"@[0] != "待清洁"@[0]);
    assert("违约"@[0] != "维修中"@[0]);
    assert("违约"@[0] != "待清洁"@[0]);
    assert("维修中"@[0] != "待清洁"@[0]);
}

/// The moves between different statuses that the room state machine
/// allows, as a table: check-in from vacant or pending clean, check-out and
/// violation from the leased statuses, a new tenancy settling into an
/// ordinary one, and the changes among the special statuses.
pub open spec fn room_move_table() -> Set<(RoomStatus, RoomStatus)> {
    set![
        (RoomStatus::Vacant, RoomStatus::Rented),
        (RoomStatus::Vacant, RoomStatus::NewRented),
        (RoomStatus::Vacant, RoomStatus::Maintenance),
        (RoomStatus::Vacant, RoomStatus::Management),
        (RoomStatus::Vacant, RoomStatus::Staff),
        (RoomStatus::Vacant, RoomStatus::PendingClean),
        (RoomStatus::Rented, RoomStatus::Violation),
        (RoomStatus::Rented, RoomStatus::PendingClean),
        (RoomStatus::NewRented, RoomStatus::Rented),
        (RoomStatus::NewRented, RoomStatus::Violation),
        (RoomStatus::NewRented, RoomStatus::PendingClean),
        (RoomStatus::Staff, RoomStatus::Vacant),
        (RoomStatus::Staff, RoomStatus::Maintenance),
        (RoomStatus::Staff, RoomStatus::Management),
        (RoomStatus::Staff, RoomStatus::PendingClean),
        (RoomStatus::Management, RoomStatus::Vacant),
        (RoomStatus::Management, RoomStatus::Maintenance),
        (RoomStatus::Management, RoomStatus::Staff),
        (RoomStatus::Management, RoomStatus::PendingClean),
        (RoomStatus::Violation, RoomStatus::Rented),
        (RoomStatus::Violation, RoomStatus::PendingClean),
        (RoomStatus::Maintenance, RoomStatus::Vacant),
        (RoomStatus::Maintenance, RoomStatus::Management),
        (RoomStatus::Maintenance, RoomStatus::Staff),
        (RoomStatus::Maintenance, RoomStatus::PendingClean),
        (RoomStatus::PendingClean, RoomStatus::Rented),
        (RoomStatus::PendingClean, RoomStatus::NewRented),
        (RoomStatus::PendingClean, RoomStatus::Vacant),
        (RoomStatus::PendingClean, RoomStatus::Maintenance),
        (RoomStatus::PendingClean, RoomStatus::Management),
        (RoomStatus::PendingClean, RoomStatus::Staff)
    ]
}

/// The room state machine allows exactly staying put and the moves of the
/// table.
pub proof fn lemma_room_machine_is_table(from: RoomStatus, to: RoomStatus)
    ensures
        room_transition_allowed(from, to) <==> (from == to || room_move_table().contains((from, to))),
{
}

/// The special statuses a room can be moved among by hand.
pub open spec fn room_special_statuses() -> Set<RoomStatus> {
    set![
        RoomStatus::Vacant,
        RoomStatus::Maintenance,
        RoomStatus::Management,
        RoomStatus::Staff,
        RoomStatus::PendingClean
    ]
}

/// A manual change is allowed exactly between two special statuses (in
/// either direction, or staying put); a rented, newly rented or violation
/// room is never changed, nor entered, by hand.
pub proof fn lemma_manual_changes_are_among_special(from: RoomStatus, to: RoomStatus)
    ensures
        room_manual_transition_allowed(from, to) <==> (room_special_statuses().contains(from)
            && room_special_statuses().contains(to)),
{
}

/// Every manual status change is also a transition of the full state machine.
pub proof fn lemma_manual_transition_is_transition(from: RoomStatus, to: RoomStatus)
    ensures
        room_manual_transition_allowed(from, to) ==> room_transition_allowed(from, to),
{
}

/// Every status may stay as it is; a room that allows check-in can become
/// rented or newly rented, and a room that allows check-out can become
/// pending clean.
pub proof fn lemma_check_in_and_out_are_machine_moves(s: RoomStatus)
    ensures
        room_transition_allowed(s, s),
        (s == RoomStatus::Vacant || s == RoomStatus::PendingClean) ==> room_transition_allowed(s, RoomStatus::Rented)
            && room_transition_allowed(s, RoomStatus::NewRented),
        (s == RoomStatus::Rented || s == RoomStatus::NewRented || s == RoomStatus::Violation)
            ==> room_transition_allowed(s, RoomStatus::PendingClean),
{
}

/// Manual changes go both ways: a status reachable by hand can be changed
/// back by hand.
pub proof fn lemma_manual_changes_are_reversible(from: RoomStatus, to: RoomStatus)
    ensures
        room_manual_transition_allowed(from, to) == room_manual_transition_allowed(to, from),
{
}

/// A room held under a lease can be checked out and cannot be checked into;
/// the two operations never apply to the same status.
pub proof fn lemma_check_in_out_exclusive(s: RoomStatus)
    ensures
        !((s == RoomStatus::Vacant || s == RoomStatus::PendingClean) && is_leased(s)),
{
}

/// A room; amounts are in fen.
#[derive(Debug, Clone)]
pub struct Room {
    pub id: i64,
    pub room_number: String,
    pub floor: Option<i32>,
    pub building: String,
    pub room_type: String,
    pub base_rent: i64,
    pub property_fee: i64,
    pub deposit: i64,
    pub status: RoomStatus,
    pub water_meter_current: i64,
    pub electric_meter_current: i64,
    pub is_deleted: bool,
    pub version: i64,
    pub created_at: Option<String>,
    pub updated_at: Option<String>,
}

/// A room as shown to the front end, with the tenant of its active lease.
#[derive(Debug, Clone)]
pub struct RoomResponse {
    pub id: i64,
    pub room_number: String,
    pub floor: Option<i32>,
    pub building: String,
    pub room_type: String,
    pub base_rent_fen: i64,
    pub property_fee_fen: i64,
    pub deposit_fen: i64,
    pub status: RoomStatus,
    pub water_meter_current: i64,
    pub electric_meter_current: i64,
    pub tenant_name: Option<String>,
    pub tenant_phone: Option<String>,
    pub lease_id: Option<i64>,
    pub lease_start_date: Option<String>,
    pub lease_end_date: Option<String>,
    pub version: i64,
}

/// The response for a room with no lease information attached.
pub open spec fn room_response_of(r: Room) -> RoomResponse {
    RoomResponse {
        id: r.id,
        room_number: r.room_number,
        floor: r.floor,
        building: r.building,
        room_type: r.room_type,
        base_rent_fen: r.base_rent,
        property_fee_fen: r.property_fee,
        deposit_fen: r.deposit,
        status: r.status,
        water_meter_current: r.water_meter_current,
        electric_meter_current: r.electric_meter_current,
        tenant_name: None,
        tenant_phone: None,
        lease_id: None,
        lease_start_date: None,
        lease_end_date: None,
        version: r.version,
    }
}

impl From<Room> for RoomResponse {
    fn from(r: Room) -> (res: Self) {
        RoomResponse {
            id: r.id,
            room_number: r.room_number,
            floor: r.floor,
            building: r.building,
            room_type: r.room_type,
            base_rent_fen: r.base_rent,
            property_fee_fen: r.property_fee,
            deposit_fen: r.deposit,
            status: r.status,
            water_meter_current: r.water_meter_current,
            electric_meter_current: r.electric_meter_current,
            tenant_name: None,
            tenant_phone: None,
            lease_id: None,
            lease_start_date: None,
            lease_end_date: None,
            version: r.version,
        }
    }
}

impl vstd::std_specs::convert::FromSpecImpl<Room> for RoomResponse {
    open spec fn obeys_from_spec() -> bool {
        true
    }

    open spec fn from_spec(r: Room) -> RoomResponse {
        room_response_of(r)
    }
}

/// One entry of a room's status history.
#[derive(Debug, Clone)]
pub struct RoomStatusLog {
    pub id: i64,
    pub room_id: i64,
    pub lease_id: Option<i64>,
    pub previous_status: Option<RoomStatus>,
    pub new_status: RoomStatus,
    pub trigger_type: String,
    pub tenant_id: Option<i64>,
    pub tenant_name: Option<String>,
    pub change_date: String,
    pub effective_date: Option<String>,
    pub operator: Option<String>,
    pub notes: Option<String>,
    pub created_at: Option<String>,
}

} // verus!
