//! Records read from result rows: each record's fields are read from the
//! columns of the same name (a few under another name), and the record is
//! read only when every required column can be read.  A few fields fall
//! back to a default when their column cannot be read.

use vstd::prelude::*;

use crate::db::queries::{BillDetailRow, BillForAction, BillRow, MeterReadingRow};
use crate::auth::User;
use crate::db::row::{
    at_i64, at_opt_text, at_text, col_flag, col_i32, col_i64, col_opt_i32, col_opt_i64, col_opt_text, col_text, opt_view,
    ColumnValue, ColumnValueView, Row, RowError,
};
use crate::models::bill::MonthlyBill;
use crate::models::config::SystemConfig;
use crate::models::deposit::DepositLedgerRow;
use crate::models::lease::{Lease, LeaseDetail};
use crate::models::payment::Payment;
use crate::models::room::{room_status_from_label, Room, RoomResponse, RoomStatus, RoomStatusLog};
use crate::models::tenant::{Tenant, TenantHistory};

verus! {

/// A room status read: a stored label of a known status.
pub open spec fn col_room_status(c: Seq<(Seq<char>, ColumnValueView)>, name: Seq<char>) -> Option<RoomStatus> {
    match col_text(c, name) {
        Some(t) => room_status_from_label(t),
        None => None,
    }
}

/// A nullable room status read: NULL is no status, a text must be the
/// label of a known status.
pub open spec fn col_room_status_nullable(c: Seq<(Seq<char>, ColumnValueView)>, name: Seq<char>) -> Option<Option<RoomStatus>> {
    match crate::db::row::column_of(c, name) {
        Some(ColumnValueView::Null) => Some(None),
        Some(ColumnValueView::Text(t)) => match room_status_from_label(t) {
            Some(s) => Some(Some(s)),
            None => None,
        },
        _ => None,
    }
}

/// Reads a room status stored as its label.
pub fn get_room_status(row: &Row, name: &str) -> (r: Result<RoomStatus, RowError>)
    ensures
        match col_room_status(row@, name@) {
            Some(v) => r matches Ok(x) && x == v,
            None => r is Err,
        },
{
    let t = row.get_text(name)?;
    match RoomStatus::from_str(t.as_str()) {
        Ok(s) => Ok(s),
        Err(_) => Err(RowError::WrongType(String::from_str(name))),
    }
}

/// Reads a room status that may be NULL.
pub fn get_room_status_nullable(row: &Row, name: &str) -> (r: Result<Option<RoomStatus>, RowError>)
    ensures
        match col_room_status_nullable(row@, name@) {
            Some(v) => r matches Ok(x) && x == v,
            None => r is Err,
        },
{
    match row.value(name) {
        Some(ColumnValue::Null) => Ok(None),
        Some(ColumnValue::Text(t)) => match RoomStatus::from_str(t.as_str()) {
            Ok(s) => Ok(Some(s)),
            Err(_) => Err(RowError::WrongType(String::from_str(name))),
        },
        Some(_) => Err(RowError::WrongType(String::from_str(name))),
        None => Err(RowError::NoSuchColumn(String::from_str(name))),
    }
}

/// Whether every column that a room requires can be read from `c`.
pub open spec fn room_readable(c: Seq<(Seq<char>, ColumnValueView)>) -> bool {
    &&& col_i64(c, "id"@) is Some
    &&& col_text(c, "room_number"@) is Some
    &&& col_opt_i32(c, "floor"@) is Some
    &&& col_text(c, "building"@) is Some
    &&& col_text(c, "room_type"@) is Some
    &&& col_i64(c, "base_rent"@) is Some
    &&& col_i64(c, "property_fee"@) is Some
    &&& col_i64(c, "deposit"@) is Some
    &&& col_room_status(c, "status"@) is Some
    &&& col_i64(c, "water_meter_current"@) is Some
    &&& col_i64(c, "electric_meter_current"@) is Some
    &&& col_flag(c, "is_deleted"@) is Some
    &&& col_opt_text(c, "created_at"@) is Some
    &&& col_opt_text(c, "updated_at"@) is Some
}

/// Whether `v` holds the values read from `c` for a room.
pub open spec fn room_read(v: Room, c: Seq<(Seq<char>, ColumnValueView)>) -> bool {
    &&& v.id == col_i64(c, "id"@)->0
    &&& v.room_number@ == col_text(c, "room_number"@)->0
    &&& v.floor == col_opt_i32(c, "floor"@)->0
    &&& v.building@ == col_text(c, "building"@)->0
    &&& v.room_type@ == col_text(c, "room_type"@)->0
    &&& v.base_rent == col_i64(c, "base_rent"@)->0
    &&& v.property_fee == col_i64(c, "property_fee"@)->0
    &&& v.deposit == col_i64(c, "deposit"@)->0
    &&& v.status == col_room_status(c, "status"@)->0
    &&& v.water_meter_current == col_i64(c, "water_meter_current"@)->0
    &&& v.electric_meter_current == col_i64(c, "electric_meter_current"@)->0
    &&& v.is_deleted == col_flag(c, "is_deleted"@)->0
    &&& v.version == (match col_i64(c, "version"@) { Some(x) => x, None => 0i64 })
    &&& opt_view(v.created_at) == col_opt_text(c, "created_at"@)->0
    &&& opt_view(v.updated_at) == col_opt_text(c, "updated_at"@)->0
}

/// Reads a room from a result row; the read fails when a required column
/// is missing or holds a value of another type.
pub fn room_from_row(row: &Row) -> (r: Result<Room, RowError>)
    ensures
        r is Ok <==> room_readable(row@),
        r matches Ok(v) ==> room_read(v, row@),
{
    let id = row.get_i64("id")?;
    let room_number = row.get_text("room_number")?;
    let floor = row.get_opt_i32("floor")?;
    let building = row.get_text("building")?;
    let room_type = row.get_text("room_type")?;
    let base_rent = row.get_i64("base_rent")?;
    let property_fee = row.get_i64("property_fee")?;
    let deposit = row.get_i64("deposit")?;
    let status = get_room_status(row, "status")?;
    let water_meter_current = row.get_i64("water_meter_current")?;
    let electric_meter_current = row.get_i64("electric_meter_current")?;
    let is_deleted = row.get_flag("is_deleted")?;
    let version = match row.get_i64("version") { Ok(x) => x, Err(_) => 0 };
    let created_at = row.get_opt_text("created_at")?;
    let updated_at = row.get_opt_text("updated_at")?;
    Ok(Room {
        id,
        room_number,
        floor,
        building,
        room_type,
        base_rent,
        property_fee,
        deposit,
        status,
        water_meter_current,
        electric_meter_current,
        is_deleted,
        version,
        created_at,
        updated_at,
    })
}

/// Whether every column that a room with its current tenant requires can be read from `c`.
pub open spec fn room_response_readable(c: Seq<(Seq<char>, ColumnValueView)>) -> bool {
    &&& col_i64(c, "id"@) is Some
    &&& col_text(c, "room_number"@) is Some
    &&& col_opt_i32(c, "floor"@) is Some
    &&& col_text(c, "building"@) is Some
    &&& col_text(c, "room_type"@) is Some
    &&& col_i64(c, "base_rent"@) is Some
    &&& col_i64(c, "property_fee"@) is Some
    &&& col_i64(c, "deposit"@) is Some
    &&& col_room_status(c, "status"@) is Some
    &&& col_i64(c, "water_meter_current"@) is Some
    &&& col_i64(c, "electric_meter_current"@) is Some
    &&& col_opt_text(c, "tenant_name"@) is Some
    &&& col_opt_text(c, "tenant_phone"@) is Some
    &&& col_opt_i64(c, "lease_id"@) is Some
    &&& col_opt_text(c, "lease_start_date"@) is Some
    &&& col_opt_text(c, "lease_end_date"@) is Some
}

/// Whether `v` holds the values read from `c` for a room with its current tenant.
pub open spec fn room_response_read(v: RoomResponse, c: Seq<(Seq<char>, ColumnValueView)>) -> bool {
    &&& v.id == col_i64(c, "id"@)->0
    &&& v.room_number@ == col_text(c, "room_number"@)->0
    &&& v.floor == col_opt_i32(c, "floor"@)->0
    &&& v.building@ == col_text(c, "building"@)->0
    &&& v.room_type@ == col_text(c, "room_type"@)->0
    &&& v.base_rent_fen == col_i64(c, "base_rent"@)->0
    &&& v.property_fee_fen == col_i64(c, "property_fee"@)->0
    &&& v.deposit_fen == col_i64(c, "deposit"@)->0
    &&& v.status == col_room_status(c, "status"@)->0
    &&& v.water_meter_current == col_i64(c, "water_meter_current"@)->0
    &&& v.electric_meter_current == col_i64(c, "electric_meter_current"@)->0
    &&& opt_view(v.tenant_name) == col_opt_text(c, "tenant_name"@)->0
    &&& opt_view(v.tenant_phone) == col_opt_text(c, "tenant_phone"@)->0
    &&& v.lease_id == col_opt_i64(c, "lease_id"@)->0
    &&& opt_view(v.lease_start_date) == col_opt_text(c, "lease_start_date"@)->0
    &&& opt_view(v.lease_end_date) == col_opt_text(c, "lease_end_date"@)->0
    &&& v.version == (match col_i64(c, "version"@) { Some(x) => x, None => 0i64 })
}

/// Reads a room with its current tenant from a result row; the read fails when a required column
/// is missing or holds a value of another type.
pub fn room_response_from_row(row: &Row) -> (r: Result<RoomResponse, RowError>)
    ensures
        r is Ok <==> room_response_readable(row@),
        r matches Ok(v) ==> room_response_read(v, row@),
{
    let id = row.get_i64("id")?;
    let room_number = row.get_text("room_number")?;
    let floor = row.get_opt_i32("floor")?;
    let building = row.get_text("building")?;
    let room_type = row.get_text("room_type")?;
    let base_rent_fen = row.get_i64("base_rent")?;
    let property_fee_fen = row.get_i64("property_fee")?;
    let deposit_fen = row.get_i64("deposit")?;
    let status = get_room_status(row, "status")?;
    let water_meter_current = row.get_i64("water_meter_current")?;
    let electric_meter_current = row.get_i64("electric_meter_current")?;
    let tenant_name = row.get_opt_text("tenant_name")?;
    let tenant_phone = row.get_opt_text("tenant_phone")?;
    let lease_id = row.get_opt_i64("lease_id")?;
    let lease_start_date = row.get_opt_text("lease_start_date")?;
    let lease_end_date = row.get_opt_text("lease_end_date")?;
    let version = match row.get_i64("version") { Ok(x) => x, Err(_) => 0 };
    Ok(RoomResponse {
        id,
        room_number,
        floor,
        building,
        room_type,
        base_rent_fen,
        property_fee_fen,
        deposit_fen,
        status,
        water_meter_current,
        electric_meter_current,
        tenant_name,
        tenant_phone,
        lease_id,
        lease_start_date,
        lease_end_date,
        version,
    })
}

/// Whether every column that a room status change requires can be read from `c`.
pub open spec fn room_status_log_readable(c: Seq<(Seq<char>, ColumnValueView)>) -> bool {
    &&& col_i64(c, "id"@) is Some
    &&& col_i64(c, "room_id"@) is Some
    &&& col_opt_i64(c, "lease_id"@) is Some
    &&& col_room_status_nullable(c, "previous_status"@) is Some
    &&& col_room_status(c, "new_status"@) is Some
    &&& col_text(c, "trigger_type"@) is Some
    &&& col_opt_i64(c, "tenant_id"@) is Some
    &&& col_opt_text(c, "tenant_name"@) is Some
    &&& col_text(c, "change_date"@) is Some
    &&& col_opt_text(c, "effective_date"@) is Some
    &&& col_opt_text(c, "operator"@) is Some
    &&& col_opt_text(c, "notes"@) is Some
    &&& col_opt_text(c, "created_at"@) is Some
}

/// Whether `v` holds the values read from `c` for a room status change.
pub open spec fn room_status_log_read(v: RoomStatusLog, c: Seq<(Seq<char>, ColumnValueView)>) -> bool {
    &&& v.id == col_i64(c, "id"@)->0
    &&& v.room_id == col_i64(c, "room_id"@)->0
    &&& v.lease_id == col_opt_i64(c, "lease_id"@)->0
    &&& v.previous_status == col_room_status_nullable(c, "previous_status"@)->0
    &&& v.new_status == col_room_status(c, "new_status"@)->0
    &&& v.trigger_type@ == col_text(c, "trigger_type"@)->0
    &&& v.tenant_id == col_opt_i64(c, "tenant_id"@)->0
    &&& opt_view(v.tenant_name) == col_opt_text(c, "tenant_name"@)->0
    &&& v.change_date@ == col_text(c, "change_date"@)->0
    &&& opt_view(v.effective_date) == col_opt_text(c, "effective_date"@)->0
    &&& opt_view(v.operator) == col_opt_text(c, "operator"@)->0
    &&& opt_view(v.notes) == col_opt_text(c, "notes"@)->0
    &&& opt_view(v.created_at) == col_opt_text(c, "created_at"@)->0
}

/// Reads a room status change from a result row; the read fails when a required column
/// is missing or holds a value of another type.
pub fn room_status_log_from_row(row: &Row) -> (r: Result<RoomStatusLog, RowError>)
    ensures
        r is Ok <==> room_status_log_readable(row@),
        r matches Ok(v) ==> room_status_log_read(v, row@),
{
    let id = row.get_i64("id")?;
    let room_id = row.get_i64("room_id")?;
    let lease_id = row.get_opt_i64("lease_id")?;
    let previous_status = get_room_status_nullable(row, "previous_status")?;
    let new_status = get_room_status(row, "new_status")?;
    let trigger_type = row.get_text("trigger_type")?;
    let tenant_id = row.get_opt_i64("tenant_id")?;
    let tenant_name = row.get_opt_text("tenant_name")?;
    let change_date = row.get_text("change_date")?;
    let effective_date = row.get_opt_text("effective_date")?;
    let operator = row.get_opt_text("operator")?;
    let notes = row.get_opt_text("notes")?;
    let created_at = row.get_opt_text("created_at")?;
    Ok(RoomStatusLog {
        id,
        room_id,
        lease_id,
        previous_status,
        new_status,
        trigger_type,
        tenant_id,
        tenant_name,
        change_date,
        effective_date,
        operator,
        notes,
        created_at,
    })
}

/// Whether every column that a tenant requires can be read from `c`.
pub open spec fn tenant_readable(c: Seq<(Seq<char>, ColumnValueView)>) -> bool {
    &&& col_i64(c, "id"@) is Some
    &&& col_text(c, "name"@) is Some
    &&& col_text(c, "phone"@) is Some
    &&& col_opt_text(c, "phone2"@) is Some
    &&& col_opt_text(c, "emergency_contact"@) is Some
    &&& col_opt_text(c, "emergency_phone"@) is Some
    &&& col_flag(c, "is_deleted"@) is Some
    &&& col_opt_text(c, "created_at"@) is Some
    &&& col_opt_text(c, "updated_at"@) is Some
}

/// Whether `v` holds the values read from `c` for a tenant.
pub open spec fn tenant_read(v: Tenant, c: Seq<(Seq<char>, ColumnValueView)>) -> bool {
    &&& v.id == col_i64(c, "id"@)->0
    &&& v.name@ == col_text(c, "name"@)->0
    &&& v.phone@ == col_text(c, "phone"@)->0
    &&& opt_view(v.phone2) == col_opt_text(c, "phone2"@)->0
    &&& opt_view(v.emergency_contact) == col_opt_text(c, "emergency_contact"@)->0
    &&& opt_view(v.emergency_phone) == col_opt_text(c, "emergency_phone"@)->0
    &&& v.is_deleted == col_flag(c, "is_deleted"@)->0
    &&& opt_view(v.created_at) == col_opt_text(c, "created_at"@)->0
    &&& opt_view(v.updated_at) == col_opt_text(c, "updated_at"@)->0
}

/// Reads a tenant from a result row; the read fails when a required column
/// is missing or holds a value of another type.
pub fn tenant_from_row(row: &Row) -> (r: Result<Tenant, RowError>)
    ensures
        r is Ok <==> tenant_readable(row@),
        r matches Ok(v) ==> tenant_read(v, row@),
{
    let id = row.get_i64("id")?;
    let name = row.get_text("name")?;
    let phone = row.get_text("phone")?;
    let phone2 = row.get_opt_text("phone2")?;
    let emergency_contact = row.get_opt_text("emergency_contact")?;
    let emergency_phone = row.get_opt_text("emergency_phone")?;
    let is_deleted = row.get_flag("is_deleted")?;
    let created_at = row.get_opt_text("created_at")?;
    let updated_at = row.get_opt_text("updated_at")?;
    Ok(Tenant {
        id,
        name,
        phone,
        phone2,
        emergency_contact,
        emergency_phone,
        is_deleted,
        created_at,
        updated_at,
    })
}

/// Whether every column that a tenant history event requires can be read from `c`.
pub open spec fn tenant_history_readable(c: Seq<(Seq<char>, ColumnValueView)>) -> bool {
    &&& col_i64(c, "id"@) is Some
    &&& col_i64(c, "tenant_id"@) is Some
    &&& col_text(c, "event_type"@) is Some
    &&& col_opt_i64(c, "room_id"@) is Some
    &&& col_opt_i64(c, "lease_id"@) is Some
    &&& col_text(c, "event_date"@) is Some
    &&& col_opt_text(c, "old_value"@) is Some
    &&& col_opt_text(c, "new_value"@) is Some
    &&& col_opt_text(c, "notes"@) is Some
    &&& col_opt_text(c, "created_at"@) is Some
}

/// Whether `v` holds the values read from `c` for a tenant history event.
pub open spec fn tenant_history_read(v: TenantHistory, c: Seq<(Seq<char>, ColumnValueView)>) -> bool {
    &&& v.id == col_i64(c, "id"@)->0
    &&& v.tenant_id == col_i64(c, "tenant_id"@)->0
    &&& v.event_type@ == col_text(c, "event_type"@)->0
    &&& v.room_id == col_opt_i64(c, "room_id"@)->0
    &&& v.lease_id == col_opt_i64(c, "lease_id"@)->0
    &&& v.event_date@ == col_text(c, "event_date"@)->0
    &&& opt_view(v.old_value) == col_opt_text(c, "old_value"@)->0
    &&& opt_view(v.new_value) == col_opt_text(c, "new_value"@)->0
    &&& opt_view(v.notes) == col_opt_text(c, "notes"@)->0
    &&& opt_view(v.created_at) == col_opt_text(c, "created_at"@)->0
}

/// Reads a tenant history event from a result row; the read fails when a required column
/// is missing or holds a value of another type.
pub fn tenant_history_from_row(row: &Row) -> (r: Result<TenantHistory, RowError>)
    ensures
        r is Ok <==> tenant_history_readable(row@),
        r matches Ok(v) ==> tenant_history_read(v, row@),
{
    let id = row.get_i64("id")?;
    let tenant_id = row.get_i64("tenant_id")?;
    let event_type = row.get_text("event_type")?;
    let room_id = row.get_opt_i64("room_id")?;
    let lease_id = row.get_opt_i64("lease_id")?;
    let event_date = row.get_text("event_date")?;
    let old_value = row.get_opt_text("old_value")?;
    let new_value = row.get_opt_text("new_value")?;
    let notes = row.get_opt_text("notes")?;
    let created_at = row.get_opt_text("created_at")?;
    Ok(TenantHistory {
        id,
        tenant_id,
        event_type,
        room_id,
        lease_id,
        event_date,
        old_value,
        new_value,
        notes,
        created_at,
    })
}

/// Whether every column that a lease requires can be read from `c`.
pub open spec fn lease_readable(c: Seq<(Seq<char>, ColumnValueView)>) -> bool {
    &&& col_i64(c, "id"@) is Some
    &&& col_i64(c, "room_id"@) is Some
    &&& col_i64(c, "tenant_id"@) is Some
    &&& col_opt_text(c, "contract_number"@) is Some
    &&& col_text(c, "start_date"@) is Some
    &&& col_opt_text(c, "end_date"@) is Some
    &&& col_i64(c, "monthly_rent"@) is Some
    &&& col_i64(c, "property_fee"@) is Some
    &&& col_i64(c, "deposit"@) is Some
    &&& col_i64(c, "deposit_received"@) is Some
    &&& col_i64(c, "deposit_balance"@) is Some
    &&& col_text(c, "deposit_status"@) is Some
    &&& col_opt_text(c, "move_in_date"@) is Some
    &&& col_opt_text(c, "move_out_date"@) is Some
    &&& col_opt_text(c, "termination_reason"@) is Some
    &&& col_text(c, "status"@) is Some
    &&& col_opt_text(c, "status_reason"@) is Some
    &&& col_opt_text(c, "notes"@) is Some
    &&& col_flag(c, "is_deleted"@) is Some
    &&& col_opt_text(c, "created_at"@) is Some
    &&& col_opt_text(c, "updated_at"@) is Some
}

/// Whether `v` holds the values read from `c` for a lease.
pub open spec fn lease_read(v: Lease, c: Seq<(Seq<char>, ColumnValueView)>) -> bool {
    &&& v.id == col_i64(c, "id"@)->0
    &&& v.room_id == col_i64(c, "room_id"@)->0
    &&& v.tenant_id == col_i64(c, "tenant_id"@)->0
    &&& opt_view(v.contract_number) == col_opt_text(c, "contract_number"@)->0
    &&& v.start_date@ == col_text(c, "start_date"@)->0
    &&& opt_view(v.end_date) == col_opt_text(c, "end_date"@)->0
    &&& v.monthly_rent == col_i64(c, "monthly_rent"@)->0
    &&& v.property_fee == col_i64(c, "property_fee"@)->0
    &&& v.deposit == col_i64(c, "deposit"@)->0
    &&& v.deposit_received == col_i64(c, "deposit_received"@)->0
    &&& v.deposit_balance == col_i64(c, "deposit_balance"@)->0
    &&& v.deposit_status@ == col_text(c, "deposit_status"@)->0
    &&& opt_view(v.move_in_date) == col_opt_text(c, "move_in_date"@)->0
    &&& opt_view(v.move_out_date) == col_opt_text(c, "move_out_date"@)->0
    &&& opt_view(v.termination_reason) == col_opt_text(c, "termination_reason"@)->0
    &&& v.status@ == col_text(c, "status"@)->0
    &&& opt_view(v.status_reason) == col_opt_text(c, "status_reason"@)->0
    &&& opt_view(v.notes) == col_opt_text(c, "notes"@)->0
    &&& v.is_deleted == col_flag(c, "is_deleted"@)->0
    &&& opt_view(v.created_at) == col_opt_text(c, "created_at"@)->0
    &&& opt_view(v.updated_at) == col_opt_text(c, "updated_at"@)->0
}

/// Reads a lease from a result row; the read fails when a required column
/// is missing or holds a value of another type.
pub fn lease_from_row(row: &Row) -> (r: Result<Lease, RowError>)
    ensures
        r is Ok <==> lease_readable(row@),
        r matches Ok(v) ==> lease_read(v, row@),
{
    let id = row.get_i64("id")?;
    let room_id = row.get_i64("room_id")?;
    let tenant_id = row.get_i64("tenant_id")?;
    let contract_number = row.get_opt_text("contract_number")?;
    let start_date = row.get_text("start_date")?;
    let end_date = row.get_opt_text("end_date")?;
    let monthly_rent = row.get_i64("monthly_rent")?;
    let property_fee = row.get_i64("property_fee")?;
    let deposit = row.get_i64("deposit")?;
    let deposit_received = row.get_i64("deposit_received")?;
    let deposit_balance = row.get_i64("deposit_balance")?;
    let deposit_status = row.get_text("deposit_status")?;
    let move_in_date = row.get_opt_text("move_in_date")?;
    let move_out_date = row.get_opt_text("move_out_date")?;
    let termination_reason = row.get_opt_text("termination_reason")?;
    let status = row.get_text("status")?;
    let status_reason = row.get_opt_text("status_reason")?;
    let notes = row.get_opt_text("notes")?;
    let is_deleted = row.get_flag("is_deleted")?;
    let created_at = row.get_opt_text("created_at")?;
    let updated_at = row.get_opt_text("updated_at")?;
    Ok(Lease {
        id,
        room_id,
        tenant_id,
        contract_number,
        start_date,
        end_date,
        monthly_rent,
        property_fee,
        deposit,
        deposit_received,
        deposit_balance,
        deposit_status,
        move_in_date,
        move_out_date,
        termination_reason,
        status,
        status_reason,
        notes,
        is_deleted,
        created_at,
        updated_at,
    })
}

/// Whether every column that a lease with its room and tenant requires can be read from `c`.
pub open spec fn lease_detail_readable(c: Seq<(Seq<char>, ColumnValueView)>) -> bool {
    &&& col_i64(c, "id"@) is Some
    &&& col_i64(c, "room_id"@) is Some
    &&& col_i64(c, "tenant_id"@) is Some
    &&& col_text(c, "room_number"@) is Some
    &&& col_text(c, "tenant_name"@) is Some
    &&& col_opt_text(c, "tenant_phone"@) is Some
    &&& col_opt_text(c, "tenant_phone2"@) is Some
    &&& col_opt_text(c, "contract_number"@) is Some
    &&& col_text(c, "start_date"@) is Some
    &&& col_opt_text(c, "end_date"@) is Some
    &&& col_i64(c, "monthly_rent"@) is Some
    &&& col_i64(c, "property_fee"@) is Some
    &&& col_i64(c, "deposit"@) is Some
    &&& col_i64(c, "deposit_received"@) is Some
    &&& col_i64(c, "deposit_balance"@) is Some
    &&& col_text(c, "deposit_status"@) is Some
    &&& col_opt_text(c, "move_in_date"@) is Some
    &&& col_opt_text(c, "move_out_date"@) is Some
    &&& col_opt_text(c, "termination_reason"@) is Some
    &&& col_text(c, "status"@) is Some
    &&& col_opt_text(c, "notes"@) is Some
    &&& col_opt_text(c, "created_at"@) is Some
}

/// Whether `v` holds the values read from `c` for a lease with its room and tenant.
pub open spec fn lease_detail_read(v: LeaseDetail, c: Seq<(Seq<char>, ColumnValueView)>) -> bool {
    &&& v.id == col_i64(c, "id"@)->0
    &&& v.room_id == col_i64(c, "room_id"@)->0
    &&& v.tenant_id == col_i64(c, "tenant_id"@)->0
    &&& v.room_number@ == col_text(c, "room_number"@)->0
    &&& v.tenant_name@ == col_text(c, "tenant_name"@)->0
    &&& opt_view(v.tenant_phone) == col_opt_text(c, "tenant_phone"@)->0
    &&& opt_view(v.tenant_phone2) == col_opt_text(c, "tenant_phone2"@)->0
    &&& opt_view(v.contract_number) == col_opt_text(c, "contract_number"@)->0
    &&& v.start_date@ == col_text(c, "start_date"@)->0
    &&& opt_view(v.end_date) == col_opt_text(c, "end_date"@)->0
    &&& v.monthly_rent == col_i64(c, "monthly_rent"@)->0
    &&& v.property_fee == col_i64(c, "property_fee"@)->0
    &&& v.deposit == col_i64(c, "deposit"@)->0
    &&& v.deposit_received == col_i64(c, "deposit_received"@)->0
    &&& v.deposit_balance == col_i64(c, "deposit_balance"@)->0
    &&& v.deposit_status@ == col_text(c, "deposit_status"@)->0
    &&& opt_view(v.move_in_date) == col_opt_text(c, "move_in_date"@)->0
    &&& opt_view(v.move_out_date) == col_opt_text(c, "move_out_date"@)->0
    &&& opt_view(v.termination_reason) == col_opt_text(c, "termination_reason"@)->0
    &&& v.status@ == col_text(c, "status"@)->0
    &&& opt_view(v.notes) == col_opt_text(c, "notes"@)->0
    &&& opt_view(v.created_at) == col_opt_text(c, "created_at"@)->0
}

/// Reads a lease with its room and tenant from a result row; the read fails when a required column
/// is missing or holds a value of another type.
pub fn lease_detail_from_row(row: &Row) -> (r: Result<LeaseDetail, RowError>)
    ensures
        r is Ok <==> lease_detail_readable(row@),
        r matches Ok(v) ==> lease_detail_read(v, row@),
{
    let id = row.get_i64("id")?;
    let room_id = row.get_i64("room_id")?;
    let tenant_id = row.get_i64("tenant_id")?;
    let room_number = row.get_text("room_number")?;
    let tenant_name = row.get_text("tenant_name")?;
    let tenant_phone = row.get_opt_text("tenant_phone")?;
    let tenant_phone2 = row.get_opt_text("tenant_phone2")?;
    let contract_number = row.get_opt_text("contract_number")?;
    let start_date = row.get_text("start_date")?;
    let end_date = row.get_opt_text("end_date")?;
    let monthly_rent = row.get_i64("monthly_rent")?;
    let property_fee = row.get_i64("property_fee")?;
    let deposit = row.get_i64("deposit")?;
    let deposit_received = row.get_i64("deposit_received")?;
    let deposit_balance = row.get_i64("deposit_balance")?;
    let deposit_status = row.get_text("deposit_status")?;
    let move_in_date = row.get_opt_text("move_in_date")?;
    let move_out_date = row.get_opt_text("move_out_date")?;
    let termination_reason = row.get_opt_text("termination_reason")?;
    let status = row.get_text("status")?;
    let notes = row.get_opt_text("notes")?;
    let created_at = row.get_opt_text("created_at")?;
    Ok(LeaseDetail {
        id,
        room_id,
        tenant_id,
        room_number,
        tenant_name,
        tenant_phone,
        tenant_phone2,
        contract_number,
        start_date,
        end_date,
        monthly_rent,
        property_fee,
        deposit,
        deposit_received,
        deposit_balance,
        deposit_status,
        move_in_date,
        move_out_date,
        termination_reason,
        status,
        notes,
        created_at,
    })
}

/// Whether every column that a monthly bill requires can be read from `c`.
pub open spec fn monthly_bill_readable(c: Seq<(Seq<char>, ColumnValueView)>) -> bool {
    &&& col_i64(c, "id"@) is Some
    &&& col_text(c, "year_month"@) is Some
    &&& col_i64(c, "room_id"@) is Some
    &&& col_opt_i64(c, "lease_id"@) is Some
    &&& col_opt_text(c, "lease_start_date"@) is Some
    &&& col_opt_text(c, "lease_end_date"@) is Some
    &&& col_opt_i32(c, "check_in_day"@) is Some
    &&& col_opt_i32(c, "check_out_day"@) is Some
    &&& col_i64(c, "water_reading_prev"@) is Some
    &&& col_i64(c, "water_reading_current"@) is Some
    &&& col_i64(c, "electric_reading_prev"@) is Some
    &&& col_i64(c, "electric_reading_current"@) is Some
    &&& col_i64(c, "water_usage"@) is Some
    &&& col_i64(c, "electric_usage"@) is Some
    &&& col_i64(c, "water_unit_price"@) is Some
    &&& col_i64(c, "electric_unit_price"@) is Some
    &&& col_i64(c, "management_unit_price"@) is Some
    &&& col_i64(c, "rent_fee"@) is Some
    &&& col_i32(c, "rent_days"@) is Some
    &&& col_i64(c, "rent_daily_rate"@) is Some
    &&& col_i64(c, "property_fee"@) is Some
    &&& col_i64(c, "water_fee"@) is Some
    &&& col_i64(c, "electric_fee"@) is Some
    &&& col_i64(c, "management_fee"@) is Some
    &&& col_i64(c, "repair_fee"@) is Some
    &&& col_i64(c, "deposit_fee"@) is Some
    &&& col_i64(c, "previous_balance"@) is Some
    &&& col_i64(c, "actual_paid"@) is Some
    &&& col_i64(c, "total_amount"@) is Some
    &&& col_text(c, "bill_type"@) is Some
    &&& col_room_status(c, "room_status"@) is Some
    &&& col_text(c, "status"@) is Some
    &&& col_opt_text(c, "due_date"@) is Some
    &&& col_opt_text(c, "paid_date"@) is Some
    &&& col_i32(c, "bill_sequence"@) is Some
    &&& col_flag(c, "is_deleted"@) is Some
    &&& col_opt_text(c, "notes"@) is Some
    &&& col_opt_text(c, "created_at"@) is Some
    &&& col_opt_text(c, "updated_at"@) is Some
}

/// Whether `v` holds the values read from `c` for a monthly bill.
pub open spec fn monthly_bill_read(v: MonthlyBill, c: Seq<(Seq<char>, ColumnValueView)>) -> bool {
    &&& v.id == col_i64(c, "id"@)->0
    &&& v.year_month@ == col_text(c, "year_month"@)->0
    &&& v.room_id == col_i64(c, "room_id"@)->0
    &&& v.lease_id == col_opt_i64(c, "lease_id"@)->0
    &&& opt_view(v.lease_start_date) == col_opt_text(c, "lease_start_date"@)->0
    &&& opt_view(v.lease_end_date) == col_opt_text(c, "lease_end_date"@)->0
    &&& v.check_in_day == col_opt_i32(c, "check_in_day"@)->0
    &&& v.check_out_day == col_opt_i32(c, "check_out_day"@)->0
    &&& v.water_reading_prev == col_i64(c, "water_reading_prev"@)->0
    &&& v.water_reading_current == col_i64(c, "water_reading_current"@)->0
    &&& v.electric_reading_prev == col_i64(c, "electric_reading_prev"@)->0
    &&& v.electric_reading_current == col_i64(c, "electric_reading_current"@)->0
    &&& v.water_usage == col_i64(c, "water_usage"@)->0
    &&& v.electric_usage == col_i64(c, "electric_usage"@)->0
    &&& v.water_unit_price == col_i64(c, "water_unit_price"@)->0
    &&& v.electric_unit_price == col_i64(c, "electric_unit_price"@)->0
    &&& v.management_unit_price == col_i64(c, "management_unit_price"@)->0
    &&& v.rent_fee == col_i64(c, "rent_fee"@)->0
    &&& v.rent_days == col_i32(c, "rent_days"@)->0
    &&& v.rent_daily_rate == col_i64(c, "rent_daily_rate"@)->0
    &&& v.property_fee == col_i64(c, "property_fee"@)->0
    &&& v.water_fee == col_i64(c, "water_fee"@)->0
    &&& v.electric_fee == col_i64(c, "electric_fee"@)->0
    &&& v.management_fee == col_i64(c, "management_fee"@)->0
    &&& v.repair_fee == col_i64(c, "repair_fee"@)->0
    &&& v.misc_fee == (match col_i64(c, "misc_fee"@) { Some(x) => x, None => 0i64 })
    &&& opt_view(v.misc_fee_remark) == col_text(c, "misc_fee_remark"@)
    &&& v.deposit_fee == col_i64(c, "deposit_fee"@)->0
    &&& v.previous_balance == col_i64(c, "previous_balance"@)->0
    &&& v.actual_paid == col_i64(c, "actual_paid"@)->0
    &&& v.total_amount == col_i64(c, "total_amount"@)->0
    &&& v.bill_type@ == col_text(c, "bill_type"@)->0
    &&& v.room_status == col_room_status(c, "room_status"@)->0
    &&& v.status@ == col_text(c, "status"@)->0
    &&& opt_view(v.due_date) == col_opt_text(c, "due_date"@)->0
    &&& opt_view(v.paid_date) == col_opt_text(c, "paid_date"@)->0
    &&& v.bill_sequence == col_i32(c, "bill_sequence"@)->0
    &&& v.is_deleted == col_flag(c, "is_deleted"@)->0
    &&& v.is_archived == (match col_i32(c, "is_archived"@) { Some(i) => i != 0, None => false })
    &&& opt_view(v.archived_at) == col_text(c, "archived_at"@)
    &&& opt_view(v.notes) == col_opt_text(c, "notes"@)->0
    &&& opt_view(v.created_at) == col_opt_text(c, "created_at"@)->0
    &&& opt_view(v.updated_at) == col_opt_text(c, "updated_at"@)->0
}

/// Reads a monthly bill from a result row; the read fails when a required column
/// is missing or holds a value of another type.
pub fn map_bill_row(row: &Row) -> (r: Result<MonthlyBill, RowError>)
    ensures
        r is Ok <==> monthly_bill_readable(row@),
        r matches Ok(v) ==> monthly_bill_read(v, row@),
{
    let id = row.get_i64("id")?;
    let year_month = row.get_text("year_month")?;
    let room_id = row.get_i64("room_id")?;
    let lease_id = row.get_opt_i64("lease_id")?;
    let lease_start_date = row.get_opt_text("lease_start_date")?;
    let lease_end_date = row.get_opt_text("lease_end_date")?;
    let check_in_day = row.get_opt_i32("check_in_day")?;
    let check_out_day = row.get_opt_i32("check_out_day")?;
    let water_reading_prev = row.get_i64("water_reading_prev")?;
    let water_reading_current = row.get_i64("water_reading_current")?;
    let electric_reading_prev = row.get_i64("electric_reading_prev")?;
    let electric_reading_current = row.get_i64("electric_reading_current")?;
    let water_usage = row.get_i64("water_usage")?;
    let electric_usage = row.get_i64("electric_usage")?;
    let water_unit_price = row.get_i64("water_unit_price")?;
    let electric_unit_price = row.get_i64("electric_unit_price")?;
    let management_unit_price = row.get_i64("management_unit_price")?;
    let rent_fee = row.get_i64("rent_fee")?;
    let rent_days = row.get_i32("rent_days")?;
    let rent_daily_rate = row.get_i64("rent_daily_rate")?;
    let property_fee = row.get_i64("property_fee")?;
    let water_fee = row.get_i64("water_fee")?;
    let electric_fee = row.get_i64("electric_fee")?;
    let management_fee = row.get_i64("management_fee")?;
    let repair_fee = row.get_i64("repair_fee")?;
    let misc_fee = match row.get_i64("misc_fee") { Ok(x) => x, Err(_) => 0 };
    let misc_fee_remark = match row.get_text("misc_fee_remark") { Ok(t) => Some(t), Err(_) => None };
    let deposit_fee = row.get_i64("deposit_fee")?;
    let previous_balance = row.get_i64("previous_balance")?;
    let actual_paid = row.get_i64("actual_paid")?;
    let total_amount = row.get_i64("total_amount")?;
    let bill_type = row.get_text("bill_type")?;
    let room_status = get_room_status(row, "room_status")?;
    let status = row.get_text("status")?;
    let due_date = row.get_opt_text("due_date")?;
    let paid_date = row.get_opt_text("paid_date")?;
    let bill_sequence = row.get_i32("bill_sequence")?;
    let is_deleted = row.get_flag("is_deleted")?;
    let is_archived = match row.get_i32("is_archived") { Ok(i) => i != 0, Err(_) => false };
    let archived_at = match row.get_text("archived_at") { Ok(t) => Some(t), Err(_) => None };
    let notes = row.get_opt_text("notes")?;
    let created_at = row.get_opt_text("created_at")?;
    let updated_at = row.get_opt_text("updated_at")?;
    Ok(MonthlyBill {
        id,
        year_month,
        room_id,
        lease_id,
        lease_start_date,
        lease_end_date,
        check_in_day,
        check_out_day,
        water_reading_prev,
        water_reading_current,
        electric_reading_prev,
        electric_reading_current,
        water_usage,
        electric_usage,
        water_unit_price,
        electric_unit_price,
        management_unit_price,
        rent_fee,
        rent_days,
        rent_daily_rate,
        property_fee,
        water_fee,
        electric_fee,
        management_fee,
        repair_fee,
        misc_fee,
        misc_fee_remark,
        deposit_fee,
        previous_balance,
        actual_paid,
        total_amount,
        bill_type,
        room_status,
        status,
        due_date,
        paid_date,
        bill_sequence,
        is_deleted,
        is_archived,
        archived_at,
        notes,
        created_at,
        updated_at,
    })
}

/// Whether every column that a bill list row requires can be read from `c`.
pub open spec fn bill_row_readable(c: Seq<(Seq<char>, ColumnValueView)>) -> bool {
    &&& col_i64(c, "id"@) is Some
    &&& col_i64(c, "room_id"@) is Some
    &&& col_text(c, "year_month"@) is Some
    &&& col_i64(c, "total_amount"@) is Some
    &&& col_i64(c, "actual_paid"@) is Some
    &&& col_text(c, "status"@) is Some
    &&& col_opt_text(c, "due_date"@) is Some
    &&& col_opt_text(c, "created_at"@) is Some
    &&& col_text(c, "room_number"@) is Some
    &&& col_text(c, "building"@) is Some
    &&& col_opt_text(c, "tenant_name"@) is Some
}

/// Whether `v` holds the values read from `c` for a bill list row.
pub open spec fn bill_row_read(v: BillRow, c: Seq<(Seq<char>, ColumnValueView)>) -> bool {
    &&& v.id == col_i64(c, "id"@)->0
    &&& v.room_id == col_i64(c, "room_id"@)->0
    &&& v.year_month@ == col_text(c, "year_month"@)->0
    &&& v.total_amount == col_i64(c, "total_amount"@)->0
    &&& v.actual_paid == col_i64(c, "actual_paid"@)->0
    &&& v.status@ == col_text(c, "status"@)->0
    &&& opt_view(v.due_date) == col_opt_text(c, "due_date"@)->0
    &&& opt_view(v.created_at) == col_opt_text(c, "created_at"@)->0
    &&& v.room_number@ == col_text(c, "room_number"@)->0
    &&& v.building@ == col_text(c, "building"@)->0
    &&& opt_view(v.tenant_name) == col_opt_text(c, "tenant_name"@)->0
}

impl BillRow {
    /// Reads a bill list row from a result row; the read fails when a required column
    /// is missing or holds a value of another type.
    pub fn from_row(row: &Row) -> (r: Result<BillRow, RowError>)
        ensures
            r is Ok <==> bill_row_readable(row@),
            r matches Ok(v) ==> bill_row_read(v, row@),
    {
        let id = row.get_i64("id")?;
        let room_id = row.get_i64("room_id")?;
        let year_month = row.get_text("year_month")?;
        let total_amount = row.get_i64("total_amount")?;
        let actual_paid = row.get_i64("actual_paid")?;
        let status = row.get_text("status")?;
        let due_date = row.get_opt_text("due_date")?;
        let created_at = row.get_opt_text("created_at")?;
        let room_number = row.get_text("room_number")?;
        let building = row.get_text("building")?;
        let tenant_name = row.get_opt_text("tenant_name")?;
        Ok(BillRow {
            id,
            room_id,
            year_month,
            total_amount,
            actual_paid,
            status,
            due_date,
            created_at,
            room_number,
            building,
            tenant_name,
        })
    }
}

/// Whether every column that a bill with its details requires can be read from `c`.
pub open spec fn bill_detail_row_readable(c: Seq<(Seq<char>, ColumnValueView)>) -> bool {
    &&& col_i64(c, "id"@) is Some
    &&& col_i64(c, "room_id"@) is Some
    &&& col_opt_i64(c, "lease_id"@) is Some
    &&& col_text(c, "year_month"@) is Some
    &&& col_i64(c, "rent_fee"@) is Some
    &&& col_i64(c, "property_fee"@) is Some
    &&& col_i64(c, "water_fee"@) is Some
    &&& col_i64(c, "electric_fee"@) is Some
    &&& col_i64(c, "management_fee"@) is Some
    &&& col_i64(c, "previous_balance"@) is Some
    &&& col_i64(c, "total_amount"@) is Some
    &&& col_i64(c, "actual_paid"@) is Some
    &&& col_text(c, "status"@) is Some
    &&& col_opt_text(c, "due_date"@) is Some
    &&& col_opt_text(c, "created_at"@) is Some
    &&& col_i64(c, "water_reading_prev"@) is Some
    &&& col_i64(c, "water_reading_current"@) is Some
    &&& col_i64(c, "electric_reading_prev"@) is Some
    &&& col_i64(c, "electric_reading_current"@) is Some
    &&& col_text(c, "room_number"@) is Some
    &&& col_text(c, "building"@) is Some
    &&& col_opt_text(c, "tenant_name"@) is Some
    &&& col_opt_text(c, "tenant_phone"@) is Some
}

/// Whether `v` holds the values read from `c` for a bill with its details.
pub open spec fn bill_detail_row_read(v: BillDetailRow, c: Seq<(Seq<char>, ColumnValueView)>) -> bool {
    &&& v.id == col_i64(c, "id"@)->0
    &&& v.room_id == col_i64(c, "room_id"@)->0
    &&& v.lease_id == col_opt_i64(c, "lease_id"@)->0
    &&& v.year_month@ == col_text(c, "year_month"@)->0
    &&& v.rent_fee == col_i64(c, "rent_fee"@)->0
    &&& v.property_fee == col_i64(c, "property_fee"@)->0
    &&& v.water_fee == col_i64(c, "water_fee"@)->0
    &&& v.electric_fee == col_i64(c, "electric_fee"@)->0
    &&& v.management_fee == col_i64(c, "management_fee"@)->0
    &&& v.misc_fee == (match col_i64(c, "misc_fee"@) { Some(x) => x, None => 0i64 })
    &&& opt_view(v.misc_fee_remark) == col_text(c, "misc_fee_remark"@)
    &&& v.previous_balance == col_i64(c, "previous_balance"@)->0
    &&& v.total_amount == col_i64(c, "total_amount"@)->0
    &&& v.actual_paid == col_i64(c, "actual_paid"@)->0
    &&& v.status@ == col_text(c, "status"@)->0
    &&& opt_view(v.due_date) == col_opt_text(c, "due_date"@)->0
    &&& opt_view(v.created_at) == col_opt_text(c, "created_at"@)->0
    &&& v.water_reading_prev == col_i64(c, "water_reading_prev"@)->0
    &&& v.water_reading_current == col_i64(c, "water_reading_current"@)->0
    &&& v.electric_reading_prev == col_i64(c, "electric_reading_prev"@)->0
    &&& v.electric_reading_current == col_i64(c, "electric_reading_current"@)->0
    &&& v.repair_fee == (match col_i64(c, "repair_fee"@) { Some(x) => x, None => 0i64 })
    &&& v.room_number@ == col_text(c, "room_number"@)->0
    &&& v.building@ == col_text(c, "building"@)->0
    &&& opt_view(v.tenant_name) == col_opt_text(c, "tenant_name"@)->0
    &&& opt_view(v.tenant_phone) == col_opt_text(c, "tenant_phone"@)->0
}

impl BillDetailRow {
    /// Reads a bill with its details from a result row; the read fails when a required column
    /// is missing or holds a value of another type.
    pub fn from_row(row: &Row) -> (r: Result<BillDetailRow, RowError>)
        ensures
            r is Ok <==> bill_detail_row_readable(row@),
            r matches Ok(v) ==> bill_detail_row_read(v, row@),
    {
        let id = row.get_i64("id")?;
        let room_id = row.get_i64("room_id")?;
        let lease_id = row.get_opt_i64("lease_id")?;
        let year_month = row.get_text("year_month")?;
        let rent_fee = row.get_i64("rent_fee")?;
        let property_fee = row.get_i64("property_fee")?;
        let water_fee = row.get_i64("water_fee")?;
        let electric_fee = row.get_i64("electric_fee")?;
        let management_fee = row.get_i64("management_fee")?;
        let misc_fee = match row.get_i64("misc_fee") { Ok(x) => x, Err(_) => 0 };
        let misc_fee_remark = match row.get_text("misc_fee_remark") { Ok(t) => Some(t), Err(_) => None };
        let previous_balance = row.get_i64("previous_balance")?;
        let total_amount = row.get_i64("total_amount")?;
        let actual_paid = row.get_i64("actual_paid")?;
        let status = row.get_text("status")?;
        let due_date = row.get_opt_text("due_date")?;
        let created_at = row.get_opt_text("created_at")?;
        let water_reading_prev = row.get_i64("water_reading_prev")?;
        let water_reading_current = row.get_i64("water_reading_current")?;
        let electric_reading_prev = row.get_i64("electric_reading_prev")?;
        let electric_reading_current = row.get_i64("electric_reading_current")?;
        let repair_fee = match row.get_i64("repair_fee") { Ok(x) => x, Err(_) => 0 };
        let room_number = row.get_text("room_number")?;
        let building = row.get_text("building")?;
        let tenant_name = row.get_opt_text("tenant_name")?;
        let tenant_phone = row.get_opt_text("tenant_phone")?;
        Ok(BillDetailRow {
            id,
            room_id,
            lease_id,
            year_month,
            rent_fee,
            property_fee,
            water_fee,
            electric_fee,
            management_fee,
            misc_fee,
            misc_fee_remark,
            previous_balance,
            total_amount,
            actual_paid,
            status,
            due_date,
            created_at,
            water_reading_prev,
            water_reading_current,
            electric_reading_prev,
            electric_reading_current,
            repair_fee,
            room_number,
            building,
            tenant_name,
            tenant_phone,
        })
    }
}

/// Whether every column that the part of a bill an action reads requires can be read from `c`.
pub open spec fn bill_for_action_readable(c: Seq<(Seq<char>, ColumnValueView)>) -> bool {
    &&& col_i64(c, "id"@) is Some
    &&& col_i64(c, "room_id"@) is Some
    &&& col_i64(c, "total_amount"@) is Some
    &&& col_i64(c, "actual_paid"@) is Some
    &&& col_text(c, "status"@) is Some
}

/// Whether `v` holds the values read from `c` for the part of a bill an action reads.
pub open spec fn bill_for_action_read(v: BillForAction, c: Seq<(Seq<char>, ColumnValueView)>) -> bool {
    &&& v.id == col_i64(c, "id"@)->0
    &&& v.room_id == col_i64(c, "room_id"@)->0
    &&& v.total_amount == col_i64(c, "total_amount"@)->0
    &&& v.actual_paid == col_i64(c, "actual_paid"@)->0
    &&& v.status@ == col_text(c, "status"@)->0
}

impl BillForAction {
    /// Reads the part of a bill an action reads from a result row; the read fails when a required column
    /// is missing or holds a value of another type.
    pub fn from_row(row: &Row) -> (r: Result<BillForAction, RowError>)
        ensures
            r is Ok <==> bill_for_action_readable(row@),
            r matches Ok(v) ==> bill_for_action_read(v, row@),
    {
        let id = row.get_i64("id")?;
        let room_id = row.get_i64("room_id")?;
        let total_amount = row.get_i64("total_amount")?;
        let actual_paid = row.get_i64("actual_paid")?;
        let status = row.get_text("status")?;
        Ok(BillForAction {
            id,
            room_id,
            total_amount,
            actual_paid,
            status,
        })
    }
}

/// Whether every column that a meter reading requires can be read from `c`.
pub open spec fn meter_reading_row_readable(c: Seq<(Seq<char>, ColumnValueView)>) -> bool {
    &&& col_i64(c, "id"@) is Some
    &&& col_i64(c, "room_id"@) is Some
    &&& col_i32(c, "year"@) is Some
    &&& col_i32(c, "month"@) is Some
    &&& col_i64(c, "water_reading"@) is Some
    &&& col_i64(c, "electric_reading"@) is Some
    &&& col_text(c, "reading_date"@) is Some
    &&& col_opt_text(c, "operator"@) is Some
    &&& col_flag(c, "is_replacement"@) is Some
    &&& col_flag(c, "is_deleted"@) is Some
}

/// Whether `v` holds the values read from `c` for a meter reading.
pub open spec fn meter_reading_row_read(v: MeterReadingRow, c: Seq<(Seq<char>, ColumnValueView)>) -> bool {
    &&& v.id == col_i64(c, "id"@)->0
    &&& v.room_id == col_i64(c, "room_id"@)->0
    &&& v.year == col_i32(c, "year"@)->0
    &&& v.month == col_i32(c, "month"@)->0
    &&& v.water_reading == col_i64(c, "water_reading"@)->0
    &&& v.electric_reading == col_i64(c, "electric_reading"@)->0
    &&& v.reading_date@ == col_text(c, "reading_date"@)->0
    &&& opt_view(v.operator) == col_opt_text(c, "operator"@)->0
    &&& v.is_replacement == col_flag(c, "is_replacement"@)->0
    &&& v.is_deleted == col_flag(c, "is_deleted"@)->0
}

impl MeterReadingRow {
    /// Reads a meter reading from a result row; the read fails when a required column
    /// is missing or holds a value of another type.
    pub fn from_row(row: &Row) -> (r: Result<MeterReadingRow, RowError>)
        ensures
            r is Ok <==> meter_reading_row_readable(row@),
            r matches Ok(v) ==> meter_reading_row_read(v, row@),
    {
        let id = row.get_i64("id")?;
        let room_id = row.get_i64("room_id")?;
        let year = row.get_i32("year")?;
        let month = row.get_i32("month")?;
        let water_reading = row.get_i64("water_reading")?;
        let electric_reading = row.get_i64("electric_reading")?;
        let reading_date = row.get_text("reading_date")?;
        let operator = row.get_opt_text("operator")?;
        let is_replacement = row.get_flag("is_replacement")?;
        let is_deleted = row.get_flag("is_deleted")?;
        Ok(MeterReadingRow {
            id,
            room_id,
            year,
            month,
            water_reading,
            electric_reading,
            reading_date,
            operator,
            is_replacement,
            is_deleted,
        })
    }
}

/// Whether every column that a payment requires can be read from `c`.
pub open spec fn payment_readable(c: Seq<(Seq<char>, ColumnValueView)>) -> bool {
    &&& col_i64(c, "id"@) is Some
    &&& col_opt_i64(c, "bill_id"@) is Some
    &&& col_i64(c, "room_id"@) is Some
    &&& col_opt_i64(c, "lease_id"@) is Some
    &&& col_i64(c, "amount"@) is Some
    &&& col_opt_text(c, "payment_date"@) is Some
    &&& col_opt_text(c, "payment_method"@) is Some
    &&& col_i64(c, "wechat_amount"@) is Some
    &&& col_i64(c, "alipay_amount"@) is Some
    &&& col_i64(c, "cash_amount"@) is Some
    &&& col_i64(c, "bank_amount"@) is Some
    &&& col_i64(c, "deposit_deduct_amount"@) is Some
    &&& col_opt_text(c, "payer_name"@) is Some
    &&& col_opt_text(c, "confirmation_screenshot"@) is Some
    &&& col_opt_text(c, "operator"@) is Some
    &&& col_opt_text(c, "notes"@) is Some
    &&& col_flag(c, "is_deleted"@) is Some
    &&& col_opt_text(c, "created_at"@) is Some
}

/// Whether `v` holds the values read from `c` for a payment.
pub open spec fn payment_read(v: Payment, c: Seq<(Seq<char>, ColumnValueView)>) -> bool {
    &&& v.id == col_i64(c, "id"@)->0
    &&& v.bill_id == col_opt_i64(c, "bill_id"@)->0
    &&& v.room_id == col_i64(c, "room_id"@)->0
    &&& v.lease_id == col_opt_i64(c, "lease_id"@)->0
    &&& v.amount == col_i64(c, "amount"@)->0
    &&& opt_view(v.payment_date) == col_opt_text(c, "payment_date"@)->0
    &&& opt_view(v.payment_method) == col_opt_text(c, "payment_method"@)->0
    &&& v.wechat_amount == col_i64(c, "wechat_amount"@)->0
    &&& v.alipay_amount == col_i64(c, "alipay_amount"@)->0
    &&& v.cash_amount == col_i64(c, "cash_amount"@)->0
    &&& v.bank_amount == col_i64(c, "bank_amount"@)->0
    &&& v.deposit_deduct_amount == col_i64(c, "deposit_deduct_amount"@)->0
    &&& opt_view(v.payer_name) == col_opt_text(c, "payer_name"@)->0
    &&& opt_view(v.confirmation_screenshot) == col_opt_text(c, "confirmation_screenshot"@)->0
    &&& opt_view(v.operator) == col_opt_text(c, "operator"@)->0
    &&& opt_view(v.notes) == col_opt_text(c, "notes"@)->0
    &&& v.is_deleted == col_flag(c, "is_deleted"@)->0
    &&& opt_view(v.created_at) == col_opt_text(c, "created_at"@)->0
}

/// Reads a payment from a result row; the read fails when a required column
/// is missing or holds a value of another type.
pub fn map_payment_row(row: &Row) -> (r: Result<Payment, RowError>)
    ensures
        r is Ok <==> payment_readable(row@),
        r matches Ok(v) ==> payment_read(v, row@),
{
    let id = row.get_i64("id")?;
    let bill_id = row.get_opt_i64("bill_id")?;
    let room_id = row.get_i64("room_id")?;
    let lease_id = row.get_opt_i64("lease_id")?;
    let amount = row.get_i64("amount")?;
    let payment_date = row.get_opt_text("payment_date")?;
    let payment_method = row.get_opt_text("payment_method")?;
    let wechat_amount = row.get_i64("wechat_amount")?;
    let alipay_amount = row.get_i64("alipay_amount")?;
    let cash_amount = row.get_i64("cash_amount")?;
    let bank_amount = row.get_i64("bank_amount")?;
    let deposit_deduct_amount = row.get_i64("deposit_deduct_amount")?;
    let payer_name = row.get_opt_text("payer_name")?;
    let confirmation_screenshot = row.get_opt_text("confirmation_screenshot")?;
    let operator = row.get_opt_text("operator")?;
    let notes = row.get_opt_text("notes")?;
    let is_deleted = row.get_flag("is_deleted")?;
    let created_at = row.get_opt_text("created_at")?;
    Ok(Payment {
        id,
        bill_id,
        room_id,
        lease_id,
        amount,
        payment_date,
        payment_method,
        wechat_amount,
        alipay_amount,
        cash_amount,
        bank_amount,
        deposit_deduct_amount,
        payer_name,
        confirmation_screenshot,
        operator,
        notes,
        is_deleted,
        created_at,
    })
}

/// Whether every column that a deposit ledger entry with its room and tenant requires can be read from `c`.
pub open spec fn deposit_ledger_row_readable(c: Seq<(Seq<char>, ColumnValueView)>) -> bool {
    &&& col_i64(c, "id"@) is Some
    &&& col_i64(c, "lease_id"@) is Some
    &&& col_i64(c, "room_id"@) is Some
    &&& col_text(c, "room_number"@) is Some
    &&& col_opt_text(c, "tenant_name"@) is Some
    &&& col_text(c, "transaction_type"@) is Some
    &&& col_i64(c, "amount"@) is Some
    &&& col_i64(c, "balance"@) is Some
    &&& col_opt_i64(c, "reference_bill_id"@) is Some
    &&& col_opt_i64(c, "reference_payment_id"@) is Some
    &&& col_opt_text(c, "operator"@) is Some
    &&& col_opt_text(c, "transaction_date"@) is Some
    &&& col_opt_text(c, "notes"@) is Some
    &&& col_opt_text(c, "created_at"@) is Some
}

/// Whether `v` holds the values read from `c` for a deposit ledger entry with its room and tenant.
pub open spec fn deposit_ledger_row_read(v: DepositLedgerRow, c: Seq<(Seq<char>, ColumnValueView)>) -> bool {
    &&& v.id == col_i64(c, "id"@)->0
    &&& v.lease_id == col_i64(c, "lease_id"@)->0
    &&& v.room_id == col_i64(c, "room_id"@)->0
    &&& v.room_number@ == col_text(c, "room_number"@)->0
    &&& opt_view(v.tenant_name) == col_opt_text(c, "tenant_name"@)->0
    &&& v.transaction_type@ == col_text(c, "transaction_type"@)->0
    &&& v.amount == col_i64(c, "amount"@)->0
    &&& v.balance == col_i64(c, "balance"@)->0
    &&& v.reference_bill_id == col_opt_i64(c, "reference_bill_id"@)->0
    &&& v.reference_payment_id == col_opt_i64(c, "reference_payment_id"@)->0
    &&& opt_view(v.operator) == col_opt_text(c, "operator"@)->0
    &&& opt_view(v.transaction_date) == col_opt_text(c, "transaction_date"@)->0
    &&& opt_view(v.notes) == col_opt_text(c, "notes"@)->0
    &&& opt_view(v.created_at) == col_opt_text(c, "created_at"@)->0
}

/// Reads a deposit ledger entry with its room and tenant from a result row; the read fails when a required column
/// is missing or holds a value of another type.
pub fn map_deposit_row(row: &Row) -> (r: Result<DepositLedgerRow, RowError>)
    ensures
        r is Ok <==> deposit_ledger_row_readable(row@),
        r matches Ok(v) ==> deposit_ledger_row_read(v, row@),
{
    let id = row.get_i64("id")?;
    let lease_id = row.get_i64("lease_id")?;
    let room_id = row.get_i64("room_id")?;
    let room_number = row.get_text("room_number")?;
    let tenant_name = row.get_opt_text("tenant_name")?;
    let transaction_type = row.get_text("transaction_type")?;
    let amount = row.get_i64("amount")?;
    let balance = row.get_i64("balance")?;
    let reference_bill_id = row.get_opt_i64("reference_bill_id")?;
    let reference_payment_id = row.get_opt_i64("reference_payment_id")?;
    let operator = row.get_opt_text("operator")?;
    let transaction_date = row.get_opt_text("transaction_date")?;
    let notes = row.get_opt_text("notes")?;
    let created_at = row.get_opt_text("created_at")?;
    Ok(DepositLedgerRow {
        id,
        lease_id,
        room_id,
        room_number,
        tenant_name,
        transaction_type,
        amount,
        balance,
        reference_bill_id,
        reference_payment_id,
        operator,
        transaction_date,
        notes,
        created_at,
    })
}

/// Whether every column that a configuration entry requires can be read from `c`.
pub open spec fn system_config_readable(c: Seq<(Seq<char>, ColumnValueView)>) -> bool {
    &&& col_i64(c, "id"@) is Some
    &&& col_text(c, "config_key"@) is Some
    &&& col_opt_text(c, "config_value"@) is Some
    &&& col_opt_text(c, "config_type"@) is Some
    &&& col_opt_text(c, "description"@) is Some
    &&& col_flag(c, "is_active"@) is Some
}

/// Whether `v` holds the values read from `c` for a configuration entry.
pub open spec fn system_config_read(v: SystemConfig, c: Seq<(Seq<char>, ColumnValueView)>) -> bool {
    &&& v.id == col_i64(c, "id"@)->0
    &&& v.config_key@ == col_text(c, "config_key"@)->0
    &&& opt_view(v.config_value) == col_opt_text(c, "config_value"@)->0
    &&& opt_view(v.config_type) == col_opt_text(c, "config_type"@)->0
    &&& opt_view(v.description) == col_opt_text(c, "description"@)->0
    &&& v.is_active == col_flag(c, "is_active"@)->0
}

/// Reads a configuration entry from a result row; the read fails when a required column
/// is missing or holds a value of another type.
pub fn system_config_from_row(row: &Row) -> (r: Result<SystemConfig, RowError>)
    ensures
        r is Ok <==> system_config_readable(row@),
        r matches Ok(v) ==> system_config_read(v, row@),
{
    let id = row.get_i64("id")?;
    let config_key = row.get_text("config_key")?;
    let config_value = row.get_opt_text("config_value")?;
    let config_type = row.get_opt_text("config_type")?;
    let description = row.get_opt_text("description")?;
    let is_active = row.get_flag("is_active")?;
    Ok(SystemConfig {
        id,
        config_key,
        config_value,
        config_type,
        description,
        is_active,
    })
}


/// Whether the six account columns (id, user name, password hash, role,
/// display name, active flag, in that order) can be read from `c`.
pub open spec fn user_readable(c: Seq<(Seq<char>, ColumnValueView)>) -> bool {
    &&& at_i64(c, 0) is Some
    &&& at_text(c, 1) is Some
    &&& at_text(c, 2) is Some
    &&& at_text(c, 3) is Some
    &&& at_opt_text(c, 4) is Some
    &&& at_i64(c, 5) is Some
}

/// Whether `u` holds the account read from `c` by position; the account is
/// active when its flag is exactly 1.
pub open spec fn user_read(u: User, c: Seq<(Seq<char>, ColumnValueView)>) -> bool {
    &&& u.id == at_i64(c, 0)->0
    &&& u.username@ == at_text(c, 1)->0
    &&& u.password_hash@ == at_text(c, 2)->0
    &&& u.role@ == at_text(c, 3)->0
    &&& opt_view(u.display_name) == at_opt_text(c, 4)->0
    &&& u.is_active == (at_i64(c, 5)->0 == 1)
}

/// Reads an account from a row of the account query, by position; the read
/// fails when a column is missing or holds a value of another type.
pub fn user_from_row(row: &Row) -> (r: Result<User, RowError>)
    ensures
        r is Ok <==> user_readable(row@),
        r matches Ok(u) ==> user_read(u, row@),
{
    let id = row.get_i64_at(0)?;
    let username = row.get_text_at(1)?;
    let password_hash = row.get_text_at(2)?;
    let role = row.get_text_at(3)?;
    let display_name = row.get_opt_text_at(4)?;
    let active = row.get_i64_at(5)?;
    Ok(User { id, username, password_hash, role, display_name, is_active: active == 1 })
}

} // verus!
