//! Row types of the database, the statements that filter and update them,
//! and the bill actions decided inside a transaction.
//!
//! Every write that depends on a read is decided from the row read in the
//! same transaction: the storage layer reads the row, asks this module for
//! the outcome and writes it back.

use vstd::prelude::*;

use crate::db::statement::{
    join_seq, join_strings, join_strs, opt_item, opt_text_value, optional_text_value, params_view,
    SqlStatement, SqlValue, SqlValueView,
};
use crate::errors::{AppError, Result};
use crate::models::bill::{bill_status_from_label, BillStatus};
use crate::models::lease::LeaseStatus;
use crate::text::{padded_int_text, push_padded_int};

pub use self::get_config_value as get_config_value_tx;
pub use self::get_lease_by_id as get_lease_by_id_tx;
pub use self::get_room_by_id as get_room_by_id_tx;

verus! {

// ---------------------------------------------------------------------
// Row types
// ---------------------------------------------------------------------

/// A bill in the paged bill list, with its room and tenant.
#[derive(Debug, Clone)]
pub struct BillRow {
    pub id: i64,
    pub room_id: i64,
    pub year_month: String,
    pub total_amount: i64,
    pub actual_paid: i64,
    pub status: String,
    pub due_date: Option<String>,
    pub created_at: Option<String>,
    pub room_number: String,
    pub building: String,
    pub tenant_name: Option<String>,
}

/// One bill with its fees, meter readings, room and tenant.
#[derive(Debug, Clone)]
pub struct BillDetailRow {
    pub id: i64,
    pub room_id: i64,
    pub lease_id: Option<i64>,
    pub year_month: String,
    pub rent_fee: i64,
    pub property_fee: i64,
    pub water_fee: i64,
    pub electric_fee: i64,
    pub management_fee: i64,
    pub misc_fee: i64,
    pub misc_fee_remark: Option<String>,
    pub previous_balance: i64,
    pub total_amount: i64,
    pub actual_paid: i64,
    pub status: String,
    pub due_date: Option<String>,
    pub created_at: Option<String>,
    pub water_reading_prev: i64,
    pub water_reading_current: i64,
    pub electric_reading_prev: i64,
    pub electric_reading_current: i64,
    pub repair_fee: i64,
    pub room_number: String,
    pub building: String,
    pub tenant_name: Option<String>,
    pub tenant_phone: Option<String>,
}

/// The part of a bill that a bill action reads before writing.
#[derive(Debug, Clone)]
pub struct BillForAction {
    pub id: i64,
    pub room_id: i64,
    pub total_amount: i64,
    pub actual_paid: i64,
    pub status: String,
}

/// A stored meter reading.
#[derive(Debug, Clone)]
pub struct MeterReadingRow {
    pub id: i64,
    pub room_id: i64,
    pub year: i32,
    pub month: i32,
    pub water_reading: i64,
    pub electric_reading: i64,
    pub reading_date: String,
    pub operator: Option<String>,
    pub is_replacement: bool,
    pub is_deleted: bool,
}

// ---------------------------------------------------------------------
// Bill actions
// ---------------------------------------------------------------------

/// What a bill action writes: the new status and the new paid amount.
#[derive(Debug, Clone, Copy, PartialEq, Eq, Structural)]
pub struct BillUpdate {
    pub status: BillStatus,
    pub actual_paid: i64,
}

/// Whether a stored status label is pending or partially paid, the only
/// statuses that can still be paid or voided.
pub open spec fn is_open_label(label: Seq<char>) -> bool {
    bill_status_from_label(label) == Some(BillStatus::Pending) || bill_status_from_label(label)
        == Some(BillStatus::Partial)
}

/// Full payment: an open bill becomes paid with the paid amount set to the
/// total.
pub open spec fn confirm_paid_outcome(total: i64, label: Seq<char>) -> Option<BillUpdate> {
    if is_open_label(label) {
        Some(BillUpdate { status: BillStatus::Paid, actual_paid: total })
    } else {
        None
    }
}

/// Partial payment of `amount`: an open bill's paid amount grows by
/// `amount`; it becomes paid when that covers the total, partially paid
/// otherwise.
pub open spec fn partial_pay_outcome(total: i64, paid: i64, amount: i64, label: Seq<char>) -> Option<BillUpdate> {
    if is_open_label(label) {
        Some(BillUpdate {
            status: if paid + amount >= total { BillStatus::Paid } else { BillStatus::Partial },
            actual_paid: (paid + amount) as i64,
        })
    } else {
        None
    }
}

/// Voiding: an open bill becomes voided, its paid amount kept.
pub open spec fn void_outcome(paid: i64, label: Seq<char>) -> Option<BillUpdate> {
    if is_open_label(label) {
        Some(BillUpdate { status: BillStatus::Voided, actual_paid: paid })
    } else {
        None
    }
}

/// Regeneration: a voided bill becomes pending again with nothing paid.
pub open spec fn regenerate_outcome(label: Seq<char>) -> Option<BillUpdate> {
    if bill_status_from_label(label) == Some(BillStatus::Voided) {
        Some(BillUpdate { status: BillStatus::Pending, actual_paid: 0 })
    } else {
        None
    }
}

fn is_open_status(label: &str) -> (r: bool)
    ensures
        r == is_open_label(label@),
{
    match BillStatus::from_str(label) {
        Ok(BillStatus::Pending) | Ok(BillStatus::Partial) => true,
        _ => false,
    }
}

/// Confirms full payment of the bill with the given id, as read in the
/// transaction (`None` when no bill has that id); a missing bill, or one
/// that is not pending or partially paid, is an invalid-status error.
pub fn confirm_bill_paid_tx(bill: Option<&BillForAction>) -> (r: Result<BillUpdate>)
    ensures
        match bill {
            Some(b) => match confirm_paid_outcome(b.total_amount, b.status@) {
                Some(u) => r matches Ok(x) && x == u,
                None => r matches Err(AppError::InvalidStatus(m)) && m@ == "账单当前状态不允许确认支付"@,
            },
            None => r matches Err(AppError::InvalidStatus(m)) && m@ == "账单当前状态不允许确认支付"@,
        },
{
    if let Some(bill) = bill {
        if is_open_status(bill.status.as_str()) {
            return Ok(BillUpdate { status: BillStatus::Paid, actual_paid: bill.total_amount });
        }
    }
    Err(AppError::InvalidStatus(String::from_str("账单当前状态不允许确认支付")))
}

/// Records a partial payment of `amount` on the bill with the given id, as
/// read in the transaction (`None` when no bill has that id); a missing
/// bill, or one that is not pending or partially paid, is an invalid-status
/// error.
pub fn partial_pay_bill_tx(bill: Option<&BillForAction>, amount: i64) -> (r: Result<BillUpdate>)
    requires
        bill matches Some(b) ==> i64::MIN <= b.actual_paid + amount <= i64::MAX,
    ensures
        match bill {
            Some(b) => match partial_pay_outcome(b.total_amount, b.actual_paid, amount, b.status@) {
                Some(u) => r matches Ok(x) && x == u,
                None => r matches Err(AppError::InvalidStatus(m)) && m@ == "账单当前状态不允许部分支付"@,
            },
            None => r matches Err(AppError::InvalidStatus(m)) && m@ == "账单当前状态不允许部分支付"@,
        },
{
    if let Some(bill) = bill {
        if is_open_status(bill.status.as_str()) {
            let paid = bill.actual_paid + amount;
            let status = if paid >= bill.total_amount {
                BillStatus::Paid
            } else {
                BillStatus::Partial
            };
            return Ok(BillUpdate { status, actual_paid: paid });
        }
    }
    Err(AppError::InvalidStatus(String::from_str("账单当前状态不允许部分支付")))
}

/// Voids the bill with the given id, as read in the transaction (`None`
/// when no bill has that id); a missing bill, or one that is not pending or
/// partially paid, is an invalid-status error.
pub fn void_bill_tx(bill: Option<&BillForAction>) -> (r: Result<BillUpdate>)
    ensures
        match bill {
            Some(b) => match void_outcome(b.actual_paid, b.status@) {
                Some(u) => r matches Ok(x) && x == u,
                None => r matches Err(AppError::InvalidStatus(m)) && m@ == "账单当前状态不允许作废"@,
            },
            None => r matches Err(AppError::InvalidStatus(m)) && m@ == "账单当前状态不允许作废"@,
        },
{
    if let Some(bill) = bill {
        if is_open_status(bill.status.as_str()) {
            return Ok(BillUpdate { status: BillStatus::Voided, actual_paid: bill.actual_paid });
        }
    }
    Err(AppError::InvalidStatus(String::from_str("账单当前状态不允许作废")))
}

/// Restores the voided bill with the given id, as read in the transaction
/// (`None` when no bill has that id), to pending with nothing paid; a
/// missing bill or any other bill is an invalid-status error.
pub fn regenerate_voided_bill_tx(bill: Option<&BillForAction>) -> (r: Result<BillUpdate>)
    ensures
        match bill {
            Some(b) => match regenerate_outcome(b.status@) {
                Some(u) => r matches Ok(x) && x == u,
                None => r matches Err(AppError::InvalidStatus(m)) && m@ == "只有已作废的账单才能重新生成"@,
            },
            None => r matches Err(AppError::InvalidStatus(m)) && m@ == "只有已作废的账单才能重新生成"@,
        },
{
    if let Some(bill) = bill {
        if let Ok(BillStatus::Voided) = BillStatus::from_str(bill.status.as_str()) {
            return Ok(BillUpdate { status: BillStatus::Pending, actual_paid: 0 });
        }
    }
    Err(AppError::InvalidStatus(String::from_str("只有已作废的账单才能重新生成")))
}

/// Full payment and voiding follow the bill state machine, and a final bill
/// (paid or voided) accepts neither payment nor voiding.
pub proof fn lemma_bill_actions_follow_state_machine(s: BillStatus, total: i64, paid: i64, amount: i64)
    ensures
        confirm_paid_outcome(total, s.label()) matches Some(u) ==> crate::models::bill::bill_transition_allowed(s, u.status),
        void_outcome(paid, s.label()) matches Some(u) ==> crate::models::bill::bill_transition_allowed(s, u.status),
        s == BillStatus::Pending ==> (partial_pay_outcome(total, paid, amount, s.label()) matches Some(u)
            ==> crate::models::bill::bill_transition_allowed(s, u.status)),
        crate::models::bill::bill_status_is_terminal(s) ==> confirm_paid_outcome(total, s.label()) is None
            && void_outcome(paid, s.label()) is None && partial_pay_outcome(total, paid, amount, s.label()) is None,
{
    crate::models::bill::lemma_bill_status_label_roundtrip(s);
}

/// What each bill action gives for a bill in each status. Confirming full
/// payment of a pending or partially paid bill makes it paid with the paid
/// amount equal to its total, whichever of the two it was; a partial
/// payment adds the amount to what was paid; voiding keeps what was paid;
/// only a voided bill is regenerated, to pending with nothing paid. A paid
/// or voided bill accepts no payment and cannot be voided.
pub proof fn lemma_bill_action_results(s: BillStatus, total: i64, paid: i64, amount: i64)
    requires
        i64::MIN <= paid + amount <= i64::MAX,
    ensures
        s == BillStatus::Pending || s == BillStatus::Partial ==> {
            &&& confirm_paid_outcome(total, s.label()) == Some(
                BillUpdate { status: BillStatus::Paid, actual_paid: total },
            )
            &&& partial_pay_outcome(total, paid, amount, s.label()) matches Some(u) && u.actual_paid == paid
                + amount && (u.status == BillStatus::Paid <==> paid + amount >= total) && (u.status
                == BillStatus::Partial <==> paid + amount < total)
            &&& void_outcome(paid, s.label()) == Some(BillUpdate { status: BillStatus::Voided, actual_paid: paid })
        },
        confirm_paid_outcome(total, BillStatus::Pending.label()) == confirm_paid_outcome(
            total,
            BillStatus::Partial.label(),
        ),
        s == BillStatus::Paid || s == BillStatus::Voided ==> {
            &&& confirm_paid_outcome(total, s.label()) is None
            &&& partial_pay_outcome(total, paid, amount, s.label()) is None
            &&& void_outcome(paid, s.label()) is None
        },
        regenerate_outcome(s.label()) == (if s == BillStatus::Voided {
            Some(BillUpdate { status: BillStatus::Pending, actual_paid: 0 })
        } else {
            None
        }),
{
    crate::models::bill::lemma_bill_status_label_roundtrip(s);
    crate::models::bill::lemma_bill_status_label_roundtrip(BillStatus::Pending);
    crate::models::bill::lemma_bill_status_label_roundtrip(BillStatus::Partial);
}

/// Voiding a bill and then regenerating it gives a pending bill with
/// nothing paid; only a voided bill can be regenerated.
pub proof fn lemma_void_then_regenerate(s: BillStatus, paid: i64)
    ensures
        void_outcome(paid, s.label()) matches Some(u) ==> regenerate_outcome(u.status.label())
            == Some(BillUpdate { status: BillStatus::Pending, actual_paid: 0 }),
        regenerate_outcome(s.label()) is Some <==> s == BillStatus::Voided,
{
    crate::models::bill::lemma_bill_status_label_roundtrip(s);
    crate::models::bill::lemma_bill_status_label_roundtrip(BillStatus::Voided);
}

/// A payment that reaches the total leaves the bill in the status its paid
/// amount implies.
pub proof fn lemma_partial_pay_matches_paid_status(s: BillStatus, total: i64, paid: i64, amount: i64)
    requires
        paid + amount > 0,
    ensures
        partial_pay_outcome(total, paid, amount, s.label()) matches Some(u) ==> u.status
            == crate::models::bill::bill_status_for_paid(total as int, paid + amount),
{
}


// ---------------------------------------------------------------------
// Room update under optimistic locking
// ---------------------------------------------------------------------

/// The assignments of a room update, one for each field given, in the
/// order base rent, property fee, water meter, electric meter, room type.
pub open spec fn room_update_sets(
    base_rent: Option<i64>,
    property_fee: Option<i64>,
    water_meter_current: Option<i64>,
    electric_meter_current: Option<i64>,
    room_type: Option<&str>,
) -> Seq<Seq<char>> {
    opt_item(base_rent is Some, "base_rent = ?"@) + opt_item(property_fee is Some, "property_fee = ?"@)
        + opt_item(water_meter_current is Some, "water_meter_current = ?"@) + opt_item(
        electric_meter_current is Some,
        "electric_meter_current = ?"@,
    ) + opt_item(room_type is Some, "room_type = ?"@)
}

/// The values of the fields given, in the order of [`room_update_sets`].
pub open spec fn room_update_values(
    base_rent: Option<i64>,
    property_fee: Option<i64>,
    water_meter_current: Option<i64>,
    electric_meter_current: Option<i64>,
    room_type: Option<&str>,
) -> Seq<SqlValueView> {
    opt_item(base_rent is Some, SqlValueView::Integer(base_rent->0)) + opt_item(
        property_fee is Some,
        SqlValueView::Integer(property_fee->0),
    ) + opt_item(water_meter_current is Some, SqlValueView::Integer(water_meter_current->0))
        + opt_item(electric_meter_current is Some, SqlValueView::Integer(electric_meter_current->0))
        + opt_item(room_type is Some, SqlValueView::Text(room_type->0@))
}

/// The value a room update binds for an assignment: the field the
/// assignment names, as given.
pub open spec fn room_field_value(
    assignment: Seq<char>,
    base_rent: Option<i64>,
    property_fee: Option<i64>,
    water_meter_current: Option<i64>,
    electric_meter_current: Option<i64>,
    room_type: Option<&str>,
) -> Option<SqlValueView> {
    if assignment == "base_rent = ?"@ {
        if base_rent is Some { Some(SqlValueView::Integer(base_rent->0)) } else { None }
    } else if assignment == "property_fee = ?"@ {
        if property_fee is Some { Some(SqlValueView::Integer(property_fee->0)) } else { None }
    } else if assignment == "water_meter_current = ?"@ {
        if water_meter_current is Some { Some(SqlValueView::Integer(water_meter_current->0)) } else { None }
    } else if assignment == "electric_meter_current = ?"@ {
        if electric_meter_current is Some { Some(SqlValueView::Integer(electric_meter_current->0)) } else { None }
    } else if assignment == "room_type = ?"@ {
        if room_type is Some { Some(SqlValueView::Text(room_type->0@)) } else { None }
    } else {
        None
    }
}

/// A room update binds one value per assignment, in the same order, and
/// the value bound for each assignment is the given value of the field
/// that assignment names.
pub proof fn lemma_room_update_binds_each_field(
    base_rent: Option<i64>,
    property_fee: Option<i64>,
    water_meter_current: Option<i64>,
    electric_meter_current: Option<i64>,
    room_type: Option<&str>,
)
    ensures
        room_update_sets(base_rent, property_fee, water_meter_current, electric_meter_current, room_type).len()
            == room_update_values(base_rent, property_fee, water_meter_current, electric_meter_current, room_type).len(),
        forall|i: int|
            0 <= i < room_update_sets(base_rent, property_fee, water_meter_current, electric_meter_current, room_type).len()
                ==> room_field_value(
                #[trigger] room_update_sets(base_rent, property_fee, water_meter_current, electric_meter_current, room_type)[i],
                base_rent,
                property_fee,
                water_meter_current,
                electric_meter_current,
                room_type,
            ) == Some(room_update_values(base_rent, property_fee, water_meter_current, electric_meter_current, room_type)[i]),
{
    reveal_strlit("base_rent = ?");
    reveal_strlit("property_fee = ?");
    reveal_strlit("water_meter_current = ?");
    reveal_strlit("electric_meter_current = ?");
    reveal_strlit("room_type = ?");
    let f = |a: Seq<char>| room_field_value(a, base_rent, property_fee, water_meter_current, electric_meter_current, room_type);
    assert("property_fee = ?"@[0] != "base_rent = ?"@[0]);
    assert("water_meter_current = ?"@[0] != "base_rent = ?"@[0]);
    assert("water_meter_current = ?"@[0] != "property_fee = ?"@[0]);
    assert("electric_meter_current = ?"@[0] != "base_rent = ?"@[0]);
    assert("electric_meter_current = ?"@[0] != "property_fee = ?"@[0]);
    assert("electric_meter_current = ?"@[0] != "water_meter_current = ?"@[0]);
    assert("room_type = ?"@[0] != "base_rent = ?"@[0]);
    assert("room_type = ?"@[0] != "property_fee = ?"@[0]);
    assert("room_type = ?"@[0] != "water_meter_current = ?"@[0]);
    assert("room_type = ?"@[0] != "electric_meter_current = ?"@[0]);
    let s1 = opt_item(base_rent is Some, "base_rent = ?"@);
    let v1 = opt_item(base_rent is Some, SqlValueView::Integer(base_rent->0));
    let s2 = opt_item(property_fee is Some, "property_fee = ?"@);
    let v2 = opt_item(property_fee is Some, SqlValueView::Integer(property_fee->0));
    let s3 = opt_item(water_meter_current is Some, "water_meter_current = ?"@);
    let v3 = opt_item(water_meter_current is Some, SqlValueView::Integer(water_meter_current->0));
    let s4 = opt_item(electric_meter_current is Some, "electric_meter_current = ?"@);
    let v4 = opt_item(electric_meter_current is Some, SqlValueView::Integer(electric_meter_current->0));
    let s5 = opt_item(room_type is Some, "room_type = ?"@);
    let v5 = opt_item(room_type is Some, SqlValueView::Text(room_type->0@));
    assert(forall|i: int| 0 <= i < s1.len() ==> f(#[trigger] s1[i]) == Some(v1[i]));
    assert(forall|i: int| 0 <= i < s2.len() ==> f(#[trigger] s2[i]) == Some(v2[i]));
    assert(forall|i: int| 0 <= i < s3.len() ==> f(#[trigger] s3[i]) == Some(v3[i]));
    assert(forall|i: int| 0 <= i < s4.len() ==> f(#[trigger] s4[i]) == Some(v4[i]));
    assert(forall|i: int| 0 <= i < s5.len() ==> f(#[trigger] s5[i]) == Some(v5[i]));
    crate::db::statement::lemma_paired_concat(s1, v1, s2, v2, f);
    crate::db::statement::lemma_paired_concat(s1 + s2, v1 + v2, s3, v3, f);
    crate::db::statement::lemma_paired_concat(s1 + s2 + s3, v1 + v2 + v3, s4, v4, f);
    crate::db::statement::lemma_paired_concat(s1 + s2 + s3 + s4, v1 + v2 + v3 + v4, s5, v5, f);
}

/// The versioned room update: the given assignments, then the version bump
/// and the modification time, guarded by the room id and expected version.
pub open spec fn room_version_sql(sets: Seq<Seq<char>>) -> Seq<char> {
    "UPDATE rooms SET "@ + join_seq(
        sets + seq!["version = version + 1"@, "updated_at = datetime('now')"@],
        ", "@,
    ) + " WHERE id = ? AND version = ?"@
}

/// The assignments and values of a room update, before the version bump.
pub(crate) fn room_update_parts(
    base_rent: Option<i64>,
    property_fee: Option<i64>,
    water_meter_current: Option<i64>,
    electric_meter_current: Option<i64>,
    room_type: Option<&str>,
) -> (r: (Vec<&'static str>, Vec<SqlValue>))
    ensures
        r.0@.map_values(|p: &str| p@) == room_update_sets(
            base_rent,
            property_fee,
            water_meter_current,
            electric_meter_current,
            room_type,
        ),
        params_view(r.1@) == room_update_values(
            base_rent,
            property_fee,
            water_meter_current,
            electric_meter_current,
            room_type,
        ),
{
    let mut sets: Vec<&'static str> = Vec::new();
    let mut values: Vec<SqlValue> = Vec::new();
    if let Some(v) = base_rent {
        sets.push("base_rent = ?");
        values.push(SqlValue::Integer(v));
    }
    if let Some(v) = property_fee {
        sets.push("property_fee = ?");
        values.push(SqlValue::Integer(v));
    }
    if let Some(v) = water_meter_current {
        sets.push("water_meter_current = ?");
        values.push(SqlValue::Integer(v));
    }
    if let Some(v) = electric_meter_current {
        sets.push("electric_meter_current = ?");
        values.push(SqlValue::Integer(v));
    }
    if let Some(v) = room_type {
        sets.push("room_type = ?");
        values.push(SqlValue::Text(String::from_str(v)));
    }
    proof {
        assert(sets@.map_values(|p: &str| p@) =~= room_update_sets(
            base_rent,
            property_fee,
            water_meter_current,
            electric_meter_current,
            room_type,
        ));
        assert(params_view(values@) =~= room_update_values(
            base_rent,
            property_fee,
            water_meter_current,
            electric_meter_current,
            room_type,
        ));
    }
    (sets, values)
}

/// The statement text of a versioned room update with the given
/// assignments.
pub(crate) fn room_version_sql_text(sets: Vec<&'static str>) -> (r: String)
    ensures
        r@ == room_version_sql(sets@.map_values(|p: &str| p@)),
{
    let mut all = sets;
    let ghost given = all@.map_values(|p: &str| p@);
    all.push("version = version + 1");
    all.push("updated_at = datetime('now')");
    let mut sql = String::from_str("UPDATE rooms SET ");
    let joined = join_strs(&all, ", ");
    sql.append(joined.as_str());
    sql.append(" WHERE id = ? AND version = ?");
    proof {
        assert(all@.map_values(|p: &str| p@) =~= given + seq![
            "version = version + 1"@,
            "updated_at = datetime('now')"@,
        ]);
    }
    sql
}

/// The statement that writes the given room fields only while the room
/// still has `expected_version`, bumping the version; `None` when no field
/// is given, in which case nothing is written and the update counts zero
/// rows.
pub fn update_room_with_version_check_tx(
    room_id: i64,
    expected_version: i64,
    base_rent: Option<i64>,
    property_fee: Option<i64>,
    water_meter_current: Option<i64>,
    electric_meter_current: Option<i64>,
    room_type: Option<&str>,
) -> (r: Option<SqlStatement>)
    ensures
        (base_rent is None && property_fee is None && water_meter_current is None
            && electric_meter_current is None && room_type is None) <==> r is None,
        r matches Some(st) ==> st.sql@ == room_version_sql(
            room_update_sets(base_rent, property_fee, water_meter_current, electric_meter_current, room_type),
        ) && params_view(st.params@) == room_update_values(
            base_rent,
            property_fee,
            water_meter_current,
            electric_meter_current,
            room_type,
        ) + seq![SqlValueView::Integer(room_id), SqlValueView::Integer(expected_version)],
{
    let (sets, mut values) = room_update_parts(
        base_rent,
        property_fee,
        water_meter_current,
        electric_meter_current,
        room_type,
    );
    proof {
        assert(sets@.map_values(|p: &str| p@).len() == sets@.len());
    }
    if sets.len() == 0 {
        return None;
    }
    let ghost before = values@;
    values.push(SqlValue::Integer(room_id));
    values.push(SqlValue::Integer(expected_version));
    let sql = room_version_sql_text(sets);
    proof {
        assert(params_view(values@) =~= params_view(before) + seq![
            SqlValueView::Integer(room_id),
            SqlValueView::Integer(expected_version),
        ]);
    }
    Some(SqlStatement { sql, params: values })
}

/// What a versioned room update reports from the number of rows it
/// changed: that number when positive; otherwise a concurrent-modification
/// error if the room still exists (its version moved on), a "room not
/// found" error if not.
pub fn version_check_outcome(room_id: i64, affected: usize, room_exists: bool) -> (r: Result<i64>)
    requires
        affected <= i64::MAX,
    ensures
        affected > 0 ==> (r matches Ok(n) && n == affected),
        (affected == 0 && room_exists) ==> r matches Err(AppError::ConcurrentModification),
        (affected == 0 && !room_exists) ==> (r matches Err(AppError::NotFound { entity, id })
            && entity@ == "房间"@ && id == room_id),
{
    if affected == 0 {
        if room_exists {
            return Err(AppError::ConcurrentModification);
        }
        return Err(AppError::not_found(String::from_str("房间"), room_id));
    }
    Ok(affected as i64)
}


// ---------------------------------------------------------------------
// Tenants and leases
// ---------------------------------------------------------------------

/// The assignments of a tenant update, one for each field given, in the
/// order name, phone, second phone, emergency contact, emergency phone.
pub open spec fn tenant_update_sets(
    name: Option<&str>,
    phone: Option<&str>,
    phone2: Option<&str>,
    emergency_contact: Option<&str>,
    emergency_phone: Option<&str>,
) -> Seq<Seq<char>> {
    opt_item(name is Some, "name"@) + opt_item(phone is Some, "phone"@) + opt_item(
        phone2 is Some,
        "phone2"@,
    ) + opt_item(emergency_contact is Some, "emergency_contact"@) + opt_item(
        emergency_phone is Some,
        "emergency_phone"@,
    )
}

/// The values of the tenant fields given, in the order of
/// [`tenant_update_sets`].
pub open spec fn tenant_update_values(
    name: Option<&str>,
    phone: Option<&str>,
    phone2: Option<&str>,
    emergency_contact: Option<&str>,
    emergency_phone: Option<&str>,
) -> Seq<SqlValueView> {
    opt_item(name is Some, SqlValueView::Text(name->0@)) + opt_item(
        phone is Some,
        SqlValueView::Text(phone->0@),
    ) + opt_item(phone2 is Some, SqlValueView::Text(phone2->0@)) + opt_item(
        emergency_contact is Some,
        SqlValueView::Text(emergency_contact->0@),
    ) + opt_item(emergency_phone is Some, SqlValueView::Text(emergency_phone->0@))
}

/// The value a tenant update binds for a column: the field of that name,
/// as given.
pub open spec fn tenant_field_value(
    column: Seq<char>,
    name: Option<&str>,
    phone: Option<&str>,
    phone2: Option<&str>,
    emergency_contact: Option<&str>,
    emergency_phone: Option<&str>,
) -> Option<SqlValueView> {
    let given = |f: Option<&str>| if f is Some { Some(SqlValueView::Text(f->0@)) } else { None };
    if column == "name"@ {
        given(name)
    } else if column == "phone"@ {
        given(phone)
    } else if column == "phone2"@ {
        given(phone2)
    } else if column == "emergency_contact"@ {
        given(emergency_contact)
    } else if column == "emergency_phone"@ {
        given(emergency_phone)
    } else {
        None
    }
}

/// A tenant update binds one value per column, in the same order, and the
/// value bound for each column is the given value of the field of that
/// name.
pub proof fn lemma_tenant_update_binds_each_field(
    name: Option<&str>,
    phone: Option<&str>,
    phone2: Option<&str>,
    emergency_contact: Option<&str>,
    emergency_phone: Option<&str>,
)
    ensures
        tenant_update_sets(name, phone, phone2, emergency_contact, emergency_phone).len()
            == tenant_update_values(name, phone, phone2, emergency_contact, emergency_phone).len(),
        forall|i: int|
            0 <= i < tenant_update_sets(name, phone, phone2, emergency_contact, emergency_phone).len()
                ==> tenant_field_value(
                #[trigger] tenant_update_sets(name, phone, phone2, emergency_contact, emergency_phone)[i],
                name,
                phone,
                phone2,
                emergency_contact,
                emergency_phone,
            ) == Some(tenant_update_values(name, phone, phone2, emergency_contact, emergency_phone)[i]),
{
    reveal_strlit("name");
    reveal_strlit("phone");
    reveal_strlit("phone2");
    reveal_strlit("emergency_contact");
    reveal_strlit("emergency_phone");
    assert("name"@[0] != "phone"@[0]);
    assert("name"@[0] != "phone2"@[0]);
    assert("name"@[0] != "emergency_contact"@[0]);
    assert("name"@[0] != "emergency_phone"@[0]);
    assert("phone"@[0] != "emergency_contact"@[0]);
    assert("phone"@[0] != "emergency_phone"@[0]);
    assert("phone2"@[0] != "emergency_contact"@[0]);
    assert("phone2"@[0] != "emergency_phone"@[0]);
    assert("phone"@.len() != "phone2"@.len());
    assert("emergency_contact"@.len() != "emergency_phone"@.len());
    let f = |c: Seq<char>| tenant_field_value(c, name, phone, phone2, emergency_contact, emergency_phone);
    let s1 = opt_item(name is Some, "name"@);
    let v1 = opt_item(name is Some, SqlValueView::Text(name->0@));
    let s2 = opt_item(phone is Some, "phone"@);
    let v2 = opt_item(phone is Some, SqlValueView::Text(phone->0@));
    let s3 = opt_item(phone2 is Some, "phone2"@);
    let v3 = opt_item(phone2 is Some, SqlValueView::Text(phone2->0@));
    let s4 = opt_item(emergency_contact is Some, "emergency_contact"@);
    let v4 = opt_item(emergency_contact is Some, SqlValueView::Text(emergency_contact->0@));
    let s5 = opt_item(emergency_phone is Some, "emergency_phone"@);
    let v5 = opt_item(emergency_phone is Some, SqlValueView::Text(emergency_phone->0@));
    assert(forall|i: int| 0 <= i < s1.len() ==> f(#[trigger] s1[i]) == Some(v1[i]));
    assert(forall|i: int| 0 <= i < s2.len() ==> f(#[trigger] s2[i]) == Some(v2[i]));
    assert(forall|i: int| 0 <= i < s3.len() ==> f(#[trigger] s3[i]) == Some(v3[i]));
    assert(forall|i: int| 0 <= i < s4.len() ==> f(#[trigger] s4[i]) == Some(v4[i]));
    assert(forall|i: int| 0 <= i < s5.len() ==> f(#[trigger] s5[i]) == Some(v5[i]));
    crate::db::statement::lemma_paired_concat(s1, v1, s2, v2, f);
    crate::db::statement::lemma_paired_concat(s1 + s2, v1 + v2, s3, v3, f);
    crate::db::statement::lemma_paired_concat(s1 + s2 + s3, v1 + v2 + v3, s4, v4, f);
    crate::db::statement::lemma_paired_concat(s1 + s2 + s3 + s4, v1 + v2 + v3 + v4, s5, v5, f);
}

/// The column names and values of a tenant update.
pub(crate) fn tenant_update_parts(
    name: Option<&str>,
    phone: Option<&str>,
    phone2: Option<&str>,
    emergency_contact: Option<&str>,
    emergency_phone: Option<&str>,
) -> (r: (Vec<&'static str>, Vec<SqlValue>))
    ensures
        r.0@.map_values(|p: &str| p@) == tenant_update_sets(
            name,
            phone,
            phone2,
            emergency_contact,
            emergency_phone,
        ),
        params_view(r.1@) == tenant_update_values(
            name,
            phone,
            phone2,
            emergency_contact,
            emergency_phone,
        ),
        r.0@.len() == r.1@.len(),
{
    let mut cols: Vec<&'static str> = Vec::new();
    let mut values: Vec<SqlValue> = Vec::new();
    if let Some(v) = name {
        cols.push("name");
        values.push(SqlValue::Text(String::from_str(v)));
    }
    if let Some(v) = phone {
        cols.push("phone");
        values.push(SqlValue::Text(String::from_str(v)));
    }
    if let Some(v) = phone2 {
        cols.push("phone2");
        values.push(SqlValue::Text(String::from_str(v)));
    }
    if let Some(v) = emergency_contact {
        cols.push("emergency_contact");
        values.push(SqlValue::Text(String::from_str(v)));
    }
    if let Some(v) = emergency_phone {
        cols.push("emergency_phone");
        values.push(SqlValue::Text(String::from_str(v)));
    }
    proof {
        assert(cols@.map_values(|p: &str| p@) =~= tenant_update_sets(
            name,
            phone,
            phone2,
            emergency_contact,
            emergency_phone,
        ));
        assert(params_view(values@) =~= tenant_update_values(
            name,
            phone,
            phone2,
            emergency_contact,
            emergency_phone,
        ));
    }
    (cols, values)
}

/// Each column name followed by `" = ?"`.
pub open spec fn placeholder_sets(cols: Seq<Seq<char>>) -> Seq<Seq<char>> {
    cols.map_values(|c: Seq<char>| c + " = ?"@)
}

/// The statement that writes the given tenant fields and the modification
/// time of tenant `id`; `None` when no field is given, in which case
/// nothing is written and the update reports no change.
pub fn update_tenant(
    id: i64,
    name: Option<&str>,
    phone: Option<&str>,
    phone2: Option<&str>,
    emergency_contact: Option<&str>,
    emergency_phone: Option<&str>,
) -> (r: Option<SqlStatement>)
    ensures
        (name is None && phone is None && phone2 is None && emergency_contact is None
            && emergency_phone is None) <==> r is None,
        r matches Some(st) ==> st.sql@ == "UPDATE tenants SET "@ + join_seq(
            placeholder_sets(tenant_update_sets(name, phone, phone2, emergency_contact, emergency_phone)).push(
                "updated_at = datetime('now')"@,
            ),
            ", "@,
        ) + " WHERE id = ?"@ && params_view(st.params@) == tenant_update_values(
            name,
            phone,
            phone2,
            emergency_contact,
            emergency_phone,
        ).push(SqlValueView::Integer(id)),
{
    let (cols, mut values) = tenant_update_parts(name, phone, phone2, emergency_contact, emergency_phone);
    let ghost col_views = cols@.map_values(|p: &str| p@);
    if cols.len() == 0 {
        return None;
    }
    let mut sets: Vec<String> = Vec::new();
    let mut i: usize = 0;
    while i < cols.len()
        invariant
            i <= cols@.len(),
            col_views == cols@.map_values(|p: &str| p@),
            sets@.map_values(|p: String| p@) == placeholder_sets(col_views.take(i as int)),
        decreases cols.len() - i,
    {
        let mut clause = String::from_str(cols[i]);
        clause.append(" = ?");
        let ghost old_sets = sets@;
        proof {
            assert(col_views[i as int] == cols@[i as int]@);
            assert(clause@ == col_views[i as int] + " = ?"@);
        }
        sets.push(clause);
        proof {
            assert(sets@.map_values(|p: String| p@) =~= old_sets.map_values(|p: String| p@).push(col_views[i as int] + " = ?"@));
            assert(col_views.take(i + 1) =~= col_views.take(i as int).push(col_views[i as int]));
            assert(sets@.map_values(|p: String| p@) =~= placeholder_sets(col_views.take(i + 1)));
        }
        i += 1;
    }
    proof {
        assert(col_views.take(cols@.len() as int) =~= col_views);
    }
    let ghost given = sets@.map_values(|p: String| p@);
    sets.push(String::from_str("updated_at = datetime('now')"));
    let mut sql = String::from_str("UPDATE tenants SET ");
    let joined = join_strings(&sets, ", ");
    sql.append(joined.as_str());
    sql.append(" WHERE id = ?");
    values.push(SqlValue::Integer(id));
    proof {
        assert(sets@.map_values(|p: String| p@) =~= given.push("updated_at = datetime('now')"@));
        assert(params_view(values@) =~= tenant_update_values(
            name,
            phone,
            phone2,
            emergency_contact,
            emergency_phone,
        ).push(SqlValueView::Integer(id)));
    }
    Some(SqlStatement { sql, params: values })
}

/// The statement that sets lease `id` to `status`, only while it is in
/// `expected_current_status` when one is given.
pub fn update_lease_status(id: i64, status: &str, expected_current_status: Option<&str>) -> (r: SqlStatement)
    ensures
        match expected_current_status {
            Some(e) => r.sql@ == "UPDATE leases SET status = ?, updated_at = datetime('now') WHERE id = ? AND status = ?"@
                && params_view(r.params@) == seq![SqlValueView::Text(status@), SqlValueView::Integer(id), SqlValueView::Text(e@)],
            None => r.sql@ == "UPDATE leases SET status = ?, updated_at = datetime('now') WHERE id = ?"@
                && params_view(r.params@) == seq![SqlValueView::Text(status@), SqlValueView::Integer(id)],
        },
{
    match expected_current_status {
        Some(e) => {
            let params = vec![
                SqlValue::Text(String::from_str(status)),
                SqlValue::Integer(id),
                SqlValue::Text(String::from_str(e)),
            ];
            proof {
                assert(params_view(params@) =~= seq![SqlValueView::Text(status@), SqlValueView::Integer(id), SqlValueView::Text(e@)]);
            }
            SqlStatement {
                sql: String::from_str(
                    "UPDATE leases SET status = ?, updated_at = datetime('now') WHERE id = ? AND status = ?",
                ),
                params,
            }
        },
        None => {
            let params = vec![SqlValue::Text(String::from_str(status)), SqlValue::Integer(id)];
            proof {
                assert(params_view(params@) =~= seq![SqlValueView::Text(status@), SqlValueView::Integer(id)]);
            }
            SqlStatement {
                sql: String::from_str("UPDATE leases SET status = ?, updated_at = datetime('now') WHERE id = ?"),
                params,
            }
        },
    }
}

/// The statement that makes draft lease `id` active; a lease in any other
/// status is left as it is.
pub fn activate_lease(id: i64) -> (r: SqlStatement)
    ensures
        r.sql@ == "UPDATE leases SET status = ?, updated_at = datetime('now') WHERE id = ? AND status = ?"@,
        params_view(r.params@) == seq![
            SqlValueView::Text(LeaseStatus::Active.label()),
            SqlValueView::Integer(id),
            SqlValueView::Text(LeaseStatus::Draft.label()),
        ],
{
    update_lease_status(id, LeaseStatus::Active.as_str(), Some(LeaseStatus::Draft.as_str()))
}

// ---------------------------------------------------------------------
// Listing queries
// ---------------------------------------------------------------------

/// The bills of one month (`Some`) in room order, or of every month, the
/// newest month first; deleted bills are left out.
pub fn list_bills(year_month: Option<String>) -> (r: SqlStatement)
    ensures
        match year_month {
            Some(ym) => r.sql@ == "SELECT * FROM monthly_bills WHERE is_deleted = 0 AND year_month = ? ORDER BY room_id"@
                && params_view(r.params@) == seq![SqlValueView::Text(ym@)],
            None => r.sql@ == "SELECT * FROM monthly_bills WHERE is_deleted = 0 ORDER BY year_month DESC, room_id"@
                && params_view(r.params@) == Seq::<SqlValueView>::empty(),
        },
{
    match year_month {
        Some(ym) => {
            let ghost v = ym@;
            let params = vec![SqlValue::Text(ym)];
            proof {
                assert(params_view(params@) =~= seq![SqlValueView::Text(v)]);
            }
            SqlStatement {
                sql: String::from_str(
                    "SELECT * FROM monthly_bills WHERE is_deleted = 0 AND year_month = ? ORDER BY room_id",
                ),
                params,
            }
        },
        None => {
            let params: Vec<SqlValue> = Vec::new();
            proof {
                assert(params_view(params@) =~= Seq::<SqlValueView>::empty());
            }
            SqlStatement {
                sql: String::from_str(
                    "SELECT * FROM monthly_bills WHERE is_deleted = 0 ORDER BY year_month DESC, room_id",
                ),
                params,
            }
        },
    }
}

/// The payments of one bill (`Some`) or of every bill, the newest first;
/// deleted payments are left out.
pub fn list_payments(bill_id: Option<i64>) -> (r: SqlStatement)
    ensures
        match bill_id {
            Some(id) => r.sql@ == "SELECT * FROM payments WHERE is_deleted = 0 AND bill_id = ? ORDER BY created_at DESC"@
                && params_view(r.params@) == seq![SqlValueView::Integer(id)],
            None => r.sql@ == "SELECT * FROM payments WHERE is_deleted = 0 ORDER BY created_at DESC"@
                && params_view(r.params@) == Seq::<SqlValueView>::empty(),
        },
{
    match bill_id {
        Some(id) => {
            let params = vec![SqlValue::Integer(id)];
            proof {
                assert(params_view(params@) =~= seq![SqlValueView::Integer(id)]);
            }
            SqlStatement {
                sql: String::from_str(
                    "SELECT * FROM payments WHERE is_deleted = 0 AND bill_id = ? ORDER BY created_at DESC",
                ),
                params,
            }
        },
        None => {
            let params: Vec<SqlValue> = Vec::new();
            proof {
                assert(params_view(params@) =~= Seq::<SqlValueView>::empty());
            }
            SqlStatement {
                sql: String::from_str("SELECT * FROM payments WHERE is_deleted = 0 ORDER BY created_at DESC"),
                params,
            }
        },
    }
}

/// The deposit ledger with its room number and tenant name: the entries of
/// one lease when a lease is given, else those of one room when a room is
/// given, newest first; with neither, the latest hundred entries.
pub fn get_deposit_ledger(lease_id: Option<i64>, room_id: Option<i64>) -> (r: SqlStatement)
    ensures
        match (lease_id, room_id) {
            (Some(l), _) => r.sql@ == "SELECT dl.*, r.room_number, t.name as tenant_name FROM deposit_ledger dl JOIN rooms r ON r.id = dl.room_id LEFT JOIN leases l ON l.id = dl.lease_id LEFT JOIN tenants t ON t.id = l.tenant_id WHERE dl.lease_id = ? ORDER BY dl.created_at DESC"@
                && params_view(r.params@) == seq![SqlValueView::Integer(l)],
            (None, Some(rm)) => r.sql@ == "SELECT dl.*, r.room_number, t.name as tenant_name FROM deposit_ledger dl JOIN rooms r ON r.id = dl.room_id LEFT JOIN leases l ON l.id = dl.lease_id LEFT JOIN tenants t ON t.id = l.tenant_id WHERE dl.room_id = ? ORDER BY dl.created_at DESC"@
                && params_view(r.params@) == seq![SqlValueView::Integer(rm)],
            (None, None) => r.sql@ == "SELECT dl.*, r.room_number, t.name as tenant_name FROM deposit_ledger dl JOIN rooms r ON r.id = dl.room_id LEFT JOIN leases l ON l.id = dl.lease_id LEFT JOIN tenants t ON t.id = l.tenant_id ORDER BY dl.created_at DESC LIMIT 100"@
                && params_view(r.params@) == Seq::<SqlValueView>::empty(),
        },
{
    match (lease_id, room_id) {
        (Some(l), _) => {
            let params = vec![SqlValue::Integer(l)];
            proof {
                assert(params_view(params@) =~= seq![SqlValueView::Integer(l)]);
            }
            SqlStatement {
                sql: String::from_str(
                    "SELECT dl.*, r.room_number, t.name as tenant_name FROM deposit_ledger dl JOIN rooms r ON r.id = dl.room_id LEFT JOIN leases l ON l.id = dl.lease_id LEFT JOIN tenants t ON t.id = l.tenant_id WHERE dl.lease_id = ? ORDER BY dl.created_at DESC",
                ),
                params,
            }
        },
        (None, Some(rm)) => {
            let params = vec![SqlValue::Integer(rm)];
            proof {
                assert(params_view(params@) =~= seq![SqlValueView::Integer(rm)]);
            }
            SqlStatement {
                sql: String::from_str(
                    "SELECT dl.*, r.room_number, t.name as tenant_name FROM deposit_ledger dl JOIN rooms r ON r.id = dl.room_id LEFT JOIN leases l ON l.id = dl.lease_id LEFT JOIN tenants t ON t.id = l.tenant_id WHERE dl.room_id = ? ORDER BY dl.created_at DESC",
                ),
                params,
            }
        },
        (None, None) => {
            let params: Vec<SqlValue> = Vec::new();
            proof {
                assert(params_view(params@) =~= Seq::<SqlValueView>::empty());
            }
            SqlStatement {
                sql: String::from_str(
                    "SELECT dl.*, r.room_number, t.name as tenant_name FROM deposit_ledger dl JOIN rooms r ON r.id = dl.room_id LEFT JOIN leases l ON l.id = dl.lease_id LEFT JOIN tenants t ON t.id = l.tenant_id ORDER BY dl.created_at DESC LIMIT 100",
                ),
                params,
            }
        },
    }
}


// ---------------------------------------------------------------------
// Paged bill list
// ---------------------------------------------------------------------

/// The month filter of the bill list: one month when both year and month
/// are given (`YYYY-MM`, zero-padded), the whole year when only the year
/// is, none without a year.
pub open spec fn year_month_filter(year: Option<i32>, month: Option<i32>) -> Seq<Seq<char>> {
    match year {
        Some(y) => match month {
            Some(m) => seq![
                "mb.year_month = '"@ + padded_int_text(y as int, 4) + "-"@ + padded_int_text(m as int, 2)
                    + "'"@,
            ],
            None => seq!["mb.year_month LIKE '"@ + padded_int_text(y as int, 4) + "-%'"@],
        },
        None => Seq::empty(),
    }
}

/// Every condition of the bill list: bills not deleted, the month filter,
/// then the room and status filters that are bound as parameters.
pub open spec fn bill_filters(year: Option<i32>, month: Option<i32>, room_id: Option<i64>, status: Option<&str>) -> Seq<Seq<char>> {
    seq!["mb.is_deleted = 0"@] + year_month_filter(year, month) + opt_item(room_id is Some, "mb.room_id = ?"@)
        + opt_item(status is Some, "mb.status = ?"@)
}

/// The values bound by the room and status filters, in that order.
pub open spec fn bill_filter_values(room_id: Option<i64>, status: Option<&str>) -> Seq<SqlValueView> {
    opt_item(room_id is Some, SqlValueView::Integer(room_id->0)) + opt_item(
        status is Some,
        SqlValueView::Text(status->0@),
    )
}

/// The bound filters of the bill list take the bound values in order: the
/// room filter binds the room id, the status filter the status.
pub proof fn lemma_bill_filters_bind_their_values(room_id: Option<i64>, status: Option<&str>)
    ensures
        opt_item(room_id is Some, "mb.room_id = ?"@).len() + opt_item(status is Some, "mb.status = ?"@).len()
            == bill_filter_values(room_id, status).len(),
        room_id matches Some(r) ==> bill_filter_values(room_id, status)[0] == SqlValueView::Integer(r),
        status matches Some(t) ==> bill_filter_values(room_id, status).last() == SqlValueView::Text(t@),
{
}

/// The page query of the bill list under the condition `where_sql`:
/// bills with room and tenant, newest month first, then by room.
pub open spec fn bill_page_sql(where_sql: Seq<char>) -> Seq<char> {
    "SELECT mb.id, mb.room_id, mb.year_month, mb.total_amount, mb.actual_paid, mb.status, mb.due_date, mb.created_at, r.room_number, r.building, t.name as tenant_name FROM monthly_bills mb LEFT JOIN rooms r ON mb.room_id = r.id LEFT JOIN leases l ON mb.lease_id = l.id AND l.is_deleted = 0 LEFT JOIN tenants t ON l.tenant_id = t.id AND t.is_deleted = 0 WHERE "@
        + where_sql + " ORDER BY mb.year_month DESC, mb.room_id LIMIT ? OFFSET ?"@
}

/// The two statements of a bill list page: the count of matching bills and
/// the page itself.
#[derive(Debug, Clone)]
pub struct BillQuery {
    pub count: SqlStatement,
    pub page: SqlStatement,
}

/// The month filter as text.
pub(crate) fn year_month_filter_text(year: Option<i32>, month: Option<i32>) -> (r: Option<String>)
    ensures
        match r {
            Some(t) => year_month_filter(year, month) == seq![t@],
            None => year_month_filter(year, month) == Seq::<Seq<char>>::empty(),
        },
{
    match year {
        Some(y) => {
            let mut c = String::new();
            match month {
                Some(m) => {
                    c.append("mb.year_month = '");
                    push_padded_int(&mut c, y as i64, 4);
                    c.append("-");
                    push_padded_int(&mut c, m as i64, 2);
                    c.append("'");
                    proof {
                        assert(c@ =~= "mb.year_month = '"@ + padded_int_text(y as int, 4) + "-"@
                            + padded_int_text(m as int, 2) + "'"@);
                    }
                },
                None => {
                    c.append("mb.year_month LIKE '");
                    push_padded_int(&mut c, y as i64, 4);
                    c.append("-%'");
                    proof {
                        assert(c@ =~= "mb.year_month LIKE '"@ + padded_int_text(y as int, 4) + "-%'"@);
                    }
                },
            }
            Some(c)
        },
        None => None,
    }
}

/// The conditions of the bill list as text.
pub(crate) fn bill_filter_texts(year: Option<i32>, month: Option<i32>, room_id: Option<i64>, status: Option<&str>) -> (r: Vec<String>)
    ensures
        r@.map_values(|p: String| p@) == bill_filters(year, month, room_id, status),
{
    let mut clauses: Vec<String> = Vec::new();
    clauses.push(String::from_str("mb.is_deleted = 0"));
    let ghost base = clauses@.map_values(|p: String| p@);
    match year_month_filter_text(year, month) {
        Some(t) => clauses.push(t),
        None => {},
    }
    let ghost with_month = clauses@.map_values(|p: String| p@);
    proof {
        assert(with_month =~= seq!["mb.is_deleted = 0"@] + year_month_filter(year, month));
    }
    if room_id.is_some() {
        clauses.push(String::from_str("mb.room_id = ?"));
    }
    if status.is_some() {
        clauses.push(String::from_str("mb.status = ?"));
    }
    proof {
        assert(clauses@.map_values(|p: String| p@) =~= bill_filters(year, month, room_id, status));
    }
    clauses
}

/// The values bound by the room and status filters.
pub(crate) fn bill_filter_params(room_id: Option<i64>, status: Option<&str>) -> (r: Vec<SqlValue>)
    ensures
        params_view(r@) == bill_filter_values(room_id, status),
{
    let mut values: Vec<SqlValue> = Vec::new();
    if let Some(rid) = room_id {
        values.push(SqlValue::Integer(rid));
    }
    if let Some(st) = status {
        values.push(SqlValue::Text(String::from_str(st)));
    }
    proof {
        assert(params_view(values@) =~= bill_filter_values(room_id, status));
    }
    values
}

/// The statements of one page of the bill list, filtered by month or year,
/// room and status (each optional), `page_size` bills from page `page`
/// (counted from one), with the count of all matching bills.
pub fn query_bills_tx(
    year: Option<i32>,
    month: Option<i32>,
    room_id: Option<i64>,
    status: Option<&str>,
    page: i32,
    page_size: i32,
) -> (r: BillQuery)
    requires
        page > i32::MIN,
        i32::MIN <= (page - 1) * page_size <= i32::MAX,
    ensures
        r.count.sql@ == "SELECT COUNT(*) FROM monthly_bills mb WHERE "@ + join_seq(
            bill_filters(year, month, room_id, status),
            " AND "@,
        ),
        params_view(r.count.params@) == bill_filter_values(room_id, status),
        r.page.sql@ == bill_page_sql(join_seq(bill_filters(year, month, room_id, status), " AND "@)),
        params_view(r.page.params@) == bill_filter_values(room_id, status) + seq![
            SqlValueView::Integer(page_size as i64),
            SqlValueView::Integer(((page - 1) * page_size) as i64),
        ],
{
    let clauses = bill_filter_texts(year, month, room_id, status);
    let where_sql = join_strings(&clauses, " AND ");
    let mut count_sql = String::from_str("SELECT COUNT(*) FROM monthly_bills mb WHERE ");
    count_sql.append(where_sql.as_str());
    let offset = (page - 1) * page_size;
    let mut page_sql = String::from_str(
        "SELECT mb.id, mb.room_id, mb.year_month, mb.total_amount, mb.actual_paid, mb.status, mb.due_date, mb.created_at, r.room_number, r.building, t.name as tenant_name FROM monthly_bills mb LEFT JOIN rooms r ON mb.room_id = r.id LEFT JOIN leases l ON mb.lease_id = l.id AND l.is_deleted = 0 LEFT JOIN tenants t ON l.tenant_id = t.id AND t.is_deleted = 0 WHERE ",
    );
    page_sql.append(where_sql.as_str());
    page_sql.append(" ORDER BY mb.year_month DESC, mb.room_id LIMIT ? OFFSET ?");
    let count_params = bill_filter_params(room_id, status);
    let mut page_params = bill_filter_params(room_id, status);
    let ghost filter_values = params_view(page_params@);
    page_params.push(SqlValue::Integer(page_size as i64));
    page_params.push(SqlValue::Integer(offset as i64));
    proof {
        assert(params_view(page_params@) =~= filter_values + seq![
            SqlValueView::Integer(page_size as i64),
            SqlValueView::Integer(((page - 1) * page_size) as i64),
        ]);
    }
    BillQuery {
        count: SqlStatement { sql: count_sql, params: count_params },
        page: SqlStatement { sql: page_sql, params: page_params },
    }
}


// ---------------------------------------------------------------------
// Reads and simple writes
// ---------------------------------------------------------------------

/// Every room not deleted, with the tenant of its latest active lease, by floor (no floor first) and room number.
pub fn list_rooms() -> (r: SqlStatement)
    ensures
        r.sql@ == "SELECT r.id, r.room_number, r.floor, r.building, r.room_type, r.base_rent, r.property_fee, r.deposit, r.status, r.water_meter_current, r.electric_meter_current, r.version, t.name as tenant_name, t.phone as tenant_phone, l.id as lease_id, l.start_date as lease_start_date, l.end_date as lease_end_date FROM rooms r LEFT JOIN (SELECT id, room_id, tenant_id, start_date, end_date, status, is_deleted FROM (SELECT id, room_id, tenant_id, start_date, end_date, status, is_deleted, ROW_NUMBER() OVER (PARTITION BY room_id ORDER BY start_date DESC) as rn FROM leases WHERE status = ? AND is_deleted = 0) WHERE rn = 1) l ON l.room_id = r.id LEFT JOIN tenants t ON t.id = l.tenant_id AND t.is_deleted = 0 WHERE r.is_deleted = 0 ORDER BY COALESCE(r.floor, 0), r.room_number"@,
        params_view(r.params@) == seq![SqlValueView::Text(LeaseStatus::Active.label())],
{
    let params = vec![SqlValue::Text(String::from_str(LeaseStatus::Active.as_str()))];
    proof {
        assert(params_view(params@) =~= seq![SqlValueView::Text(LeaseStatus::Active.label())]);
    }
    SqlStatement { sql: String::from_str("SELECT r.id, r.room_number, r.floor, r.building, r.room_type, r.base_rent, r.property_fee, r.deposit, r.status, r.water_meter_current, r.electric_meter_current, r.version, t.name as tenant_name, t.phone as tenant_phone, l.id as lease_id, l.start_date as lease_start_date, l.end_date as lease_end_date FROM rooms r LEFT JOIN (SELECT id, room_id, tenant_id, start_date, end_date, status, is_deleted FROM (SELECT id, room_id, tenant_id, start_date, end_date, status, is_deleted, ROW_NUMBER() OVER (PARTITION BY room_id ORDER BY start_date DESC) as rn FROM leases WHERE status = ? AND is_deleted = 0) WHERE rn = 1) l ON l.room_id = r.id LEFT JOIN tenants t ON t.id = l.tenant_id AND t.is_deleted = 0 WHERE r.is_deleted = 0 ORDER BY COALESCE(r.floor, 0), r.room_number"), params }
}

/// Room `id`, unless deleted.
pub fn get_room_by_id(id: i64) -> (r: SqlStatement)
    ensures
        r.sql@ == "SELECT * FROM rooms WHERE id = ? AND is_deleted = 0"@,
        params_view(r.params@) == seq![SqlValueView::Integer(id)],
{
    let params = vec![SqlValue::Integer(id)];
    proof {
        assert(params_view(params@) =~= seq![SqlValueView::Integer(id)]);
    }
    SqlStatement { sql: String::from_str("SELECT * FROM rooms WHERE id = ? AND is_deleted = 0"), params }
}

/// Room `id`, unless deleted, with the tenant of its active lease.
pub fn get_room_response_by_id(id: i64) -> (r: SqlStatement)
    ensures
        r.sql@ == "SELECT r.id, r.room_number, r.floor, r.building, r.room_type, r.base_rent, r.property_fee, r.deposit, r.status, r.water_meter_current, r.electric_meter_current, r.version, t.name as tenant_name, t.phone as tenant_phone, l.id as lease_id, l.start_date as lease_start_date, l.end_date as lease_end_date FROM rooms r LEFT JOIN (SELECT id, room_id, tenant_id, start_date, end_date, status, is_deleted FROM leases WHERE status = ? AND is_deleted = 0) l ON l.room_id = r.id LEFT JOIN tenants t ON t.id = l.tenant_id AND t.is_deleted = 0 WHERE r.id = ? AND r.is_deleted = 0"@,
        params_view(r.params@) == seq![SqlValueView::Text(LeaseStatus::Active.label()), SqlValueView::Integer(id)],
{
    let params = vec![SqlValue::Text(String::from_str(LeaseStatus::Active.as_str())), SqlValue::Integer(id)];
    proof {
        assert(params_view(params@) =~= seq![SqlValueView::Text(LeaseStatus::Active.label()), SqlValueView::Integer(id)]);
    }
    SqlStatement { sql: String::from_str("SELECT r.id, r.room_number, r.floor, r.building, r.room_type, r.base_rent, r.property_fee, r.deposit, r.status, r.water_meter_current, r.electric_meter_current, r.version, t.name as tenant_name, t.phone as tenant_phone, l.id as lease_id, l.start_date as lease_start_date, l.end_date as lease_end_date FROM rooms r LEFT JOIN (SELECT id, room_id, tenant_id, start_date, end_date, status, is_deleted FROM leases WHERE status = ? AND is_deleted = 0) l ON l.room_id = r.id LEFT JOIN tenants t ON t.id = l.tenant_id AND t.is_deleted = 0 WHERE r.id = ? AND r.is_deleted = 0"), params }
}

/// Every tenant not deleted, by name.
pub fn list_tenants() -> (r: SqlStatement)
    ensures
        r.sql@ == "SELECT * FROM tenants WHERE is_deleted = 0 ORDER BY name"@,
        params_view(r.params@) == Seq::<SqlValueView>::empty(),
{
    let params: Vec<SqlValue> = Vec::new();
    proof {
        assert(params_view(params@) =~= Seq::<SqlValueView>::empty());
    }
    SqlStatement { sql: String::from_str("SELECT * FROM tenants WHERE is_deleted = 0 ORDER BY name"), params }
}

/// Tenant `id`, unless deleted.
pub fn get_tenant_by_id(id: i64) -> (r: SqlStatement)
    ensures
        r.sql@ == "SELECT * FROM tenants WHERE id = ? AND is_deleted = 0"@,
        params_view(r.params@) == seq![SqlValueView::Integer(id)],
{
    let params = vec![SqlValue::Integer(id)];
    proof {
        assert(params_view(params@) =~= seq![SqlValueView::Integer(id)]);
    }
    SqlStatement { sql: String::from_str("SELECT * FROM tenants WHERE id = ? AND is_deleted = 0"), params }
}

/// A new tenant with a name and a phone.
pub fn create_tenant(name: &str, phone: &str) -> (r: SqlStatement)
    ensures
        r.sql@ == "INSERT INTO tenants (name, phone) VALUES (?, ?)"@,
        params_view(r.params@) == seq![SqlValueView::Text(name@), SqlValueView::Text(phone@)],
{
    let params = vec![SqlValue::Text(String::from_str(name)), SqlValue::Text(String::from_str(phone))];
    proof {
        assert(params_view(params@) =~= seq![SqlValueView::Text(name@), SqlValueView::Text(phone@)]);
    }
    SqlStatement { sql: String::from_str("INSERT INTO tenants (name, phone) VALUES (?, ?)"), params }
}

/// A new tenant with every contact field (absent ones NULL).
pub fn create_tenant_full(name: &str, phone: &str, phone2: Option<&str>, emergency_contact: Option<&str>, emergency_phone: Option<&str>) -> (r: SqlStatement)
    ensures
        r.sql@ == "INSERT INTO tenants (name, phone, phone2, emergency_contact, emergency_phone) VALUES (?, ?, ?, ?, ?)"@,
        params_view(r.params@) == seq![SqlValueView::Text(name@), SqlValueView::Text(phone@), optional_text_value(phone2), optional_text_value(emergency_contact), optional_text_value(emergency_phone)],
{
    let params = vec![SqlValue::Text(String::from_str(name)), SqlValue::Text(String::from_str(phone)), opt_text_value(phone2), opt_text_value(emergency_contact), opt_text_value(emergency_phone)];
    proof {
        assert(params_view(params@) =~= seq![SqlValueView::Text(name@), SqlValueView::Text(phone@), optional_text_value(phone2), optional_text_value(emergency_contact), optional_text_value(emergency_phone)]);
    }
    SqlStatement { sql: String::from_str("INSERT INTO tenants (name, phone, phone2, emergency_contact, emergency_phone) VALUES (?, ?, ?, ?, ?)"), params }
}

/// Marks tenant `id` deleted, unless it already is.
pub fn delete_tenant(id: i64) -> (r: SqlStatement)
    ensures
        r.sql@ == "UPDATE tenants SET is_deleted = 1, updated_at = datetime('now') WHERE id = ? AND is_deleted = 0"@,
        params_view(r.params@) == seq![SqlValueView::Integer(id)],
{
    let params = vec![SqlValue::Integer(id)];
    proof {
        assert(params_view(params@) =~= seq![SqlValueView::Integer(id)]);
    }
    SqlStatement { sql: String::from_str("UPDATE tenants SET is_deleted = 1, updated_at = datetime('now') WHERE id = ? AND is_deleted = 0"), params }
}

/// Every lease not deleted, the newest first.
pub fn list_leases() -> (r: SqlStatement)
    ensures
        r.sql@ == "SELECT * FROM leases WHERE is_deleted = 0 ORDER BY created_at DESC"@,
        params_view(r.params@) == Seq::<SqlValueView>::empty(),
{
    let params: Vec<SqlValue> = Vec::new();
    proof {
        assert(params_view(params@) =~= Seq::<SqlValueView>::empty());
    }
    SqlStatement { sql: String::from_str("SELECT * FROM leases WHERE is_deleted = 0 ORDER BY created_at DESC"), params }
}

/// Lease `id`, unless deleted.
pub fn get_lease_by_id(id: i64) -> (r: SqlStatement)
    ensures
        r.sql@ == "SELECT * FROM leases WHERE id = ? AND is_deleted = 0"@,
        params_view(r.params@) == seq![SqlValueView::Integer(id)],
{
    let params = vec![SqlValue::Integer(id)];
    proof {
        assert(params_view(params@) =~= seq![SqlValueView::Integer(id)]);
    }
    SqlStatement { sql: String::from_str("SELECT * FROM leases WHERE id = ? AND is_deleted = 0"), params }
}

/// A new draft lease.
pub fn create_lease(room_id: i64, tenant_id: i64, start_date: &str, monthly_rent: i64, property_fee: i64, deposit: i64, contract_number: Option<&str>, end_date: Option<&str>) -> (r: SqlStatement)
    ensures
        r.sql@ == "INSERT INTO leases (room_id, tenant_id, contract_number, start_date, end_date, monthly_rent, property_fee, deposit, status) VALUES (?, ?, ?, ?, ?, ?, ?, ?, ?)"@,
        params_view(r.params@) == seq![SqlValueView::Integer(room_id), SqlValueView::Integer(tenant_id), optional_text_value(contract_number), SqlValueView::Text(start_date@), optional_text_value(end_date), SqlValueView::Integer(monthly_rent), SqlValueView::Integer(property_fee), SqlValueView::Integer(deposit), SqlValueView::Text(LeaseStatus::Draft.label())],
{
    let params = vec![SqlValue::Integer(room_id), SqlValue::Integer(tenant_id), opt_text_value(contract_number), SqlValue::Text(String::from_str(start_date)), opt_text_value(end_date), SqlValue::Integer(monthly_rent), SqlValue::Integer(property_fee), SqlValue::Integer(deposit), SqlValue::Text(String::from_str(LeaseStatus::Draft.as_str()))];
    proof {
        assert(params_view(params@) =~= seq![SqlValueView::Integer(room_id), SqlValueView::Integer(tenant_id), optional_text_value(contract_number), SqlValueView::Text(start_date@), optional_text_value(end_date), SqlValueView::Integer(monthly_rent), SqlValueView::Integer(property_fee), SqlValueView::Integer(deposit), SqlValueView::Text(LeaseStatus::Draft.label())]);
    }
    SqlStatement { sql: String::from_str("INSERT INTO leases (room_id, tenant_id, contract_number, start_date, end_date, monthly_rent, property_fee, deposit, status) VALUES (?, ?, ?, ?, ?, ?, ?, ?, ?)"), params }
}

/// The latest bill of room `room_id` for month `year_month`, deleted bills left out.
pub fn get_bill_by_room_month_tx(room_id: i64, year_month: &str) -> (r: SqlStatement)
    ensures
        r.sql@ == "SELECT * FROM monthly_bills WHERE room_id = ?1 AND year_month = ?2 AND is_deleted = 0 ORDER BY bill_sequence DESC LIMIT 1"@,
        params_view(r.params@) == seq![SqlValueView::Integer(room_id), SqlValueView::Text(year_month@)],
{
    let params = vec![SqlValue::Integer(room_id), SqlValue::Text(String::from_str(year_month))];
    proof {
        assert(params_view(params@) =~= seq![SqlValueView::Integer(room_id), SqlValueView::Text(year_month@)]);
    }
    SqlStatement { sql: String::from_str("SELECT * FROM monthly_bills WHERE room_id = ?1 AND year_month = ?2 AND is_deleted = 0 ORDER BY bill_sequence DESC LIMIT 1"), params }
}

/// The latest bill of room `room_id`, deleted bills left out.
pub fn get_latest_bill_for_room(room_id: i64) -> (r: SqlStatement)
    ensures
        r.sql@ == "SELECT * FROM monthly_bills WHERE room_id = ?1 AND is_deleted = 0 ORDER BY year_month DESC, bill_sequence DESC LIMIT 1"@,
        params_view(r.params@) == seq![SqlValueView::Integer(room_id)],
{
    let params = vec![SqlValue::Integer(room_id)];
    proof {
        assert(params_view(params@) =~= seq![SqlValueView::Integer(room_id)]);
    }
    SqlStatement { sql: String::from_str("SELECT * FROM monthly_bills WHERE room_id = ?1 AND is_deleted = 0 ORDER BY year_month DESC, bill_sequence DESC LIMIT 1"), params }
}

/// What a bill action reads of bill `bill_id`, unless deleted.
pub fn get_bill_by_id_tx(bill_id: i64) -> (r: SqlStatement)
    ensures
        r.sql@ == "SELECT id, room_id, total_amount, actual_paid, status FROM monthly_bills WHERE id = ?1 AND is_deleted = 0"@,
        params_view(r.params@) == seq![SqlValueView::Integer(bill_id)],
{
    let params = vec![SqlValue::Integer(bill_id)];
    proof {
        assert(params_view(params@) =~= seq![SqlValueView::Integer(bill_id)]);
    }
    SqlStatement { sql: String::from_str("SELECT id, room_id, total_amount, actual_paid, status FROM monthly_bills WHERE id = ?1 AND is_deleted = 0"), params }
}

/// Bill `bill_id` with its fees, readings, room and tenant, unless deleted.
pub fn get_bill_detail_tx(bill_id: i64) -> (r: SqlStatement)
    ensures
        r.sql@ == "SELECT mb.id, mb.room_id, mb.lease_id, mb.year_month, mb.rent_fee, mb.property_fee, mb.water_fee, mb.electric_fee, mb.management_fee, mb.repair_fee, mb.misc_fee, mb.misc_fee_remark, mb.previous_balance, mb.total_amount, mb.actual_paid, mb.status, mb.due_date, mb.created_at, mb.water_reading_prev, mb.water_reading_current, mb.electric_reading_prev, mb.electric_reading_current, r.room_number, r.building, t.name as tenant_name, t.phone as tenant_phone FROM monthly_bills mb LEFT JOIN rooms r ON mb.room_id = r.id LEFT JOIN leases l ON mb.lease_id = l.id AND l.is_deleted = 0 LEFT JOIN tenants t ON l.tenant_id = t.id AND t.is_deleted = 0 WHERE mb.id = ?1 AND mb.is_deleted = 0 LIMIT 1"@,
        params_view(r.params@) == seq![SqlValueView::Integer(bill_id)],
{
    let params = vec![SqlValue::Integer(bill_id)];
    proof {
        assert(params_view(params@) =~= seq![SqlValueView::Integer(bill_id)]);
    }
    SqlStatement { sql: String::from_str("SELECT mb.id, mb.room_id, mb.lease_id, mb.year_month, mb.rent_fee, mb.property_fee, mb.water_fee, mb.electric_fee, mb.management_fee, mb.repair_fee, mb.misc_fee, mb.misc_fee_remark, mb.previous_balance, mb.total_amount, mb.actual_paid, mb.status, mb.due_date, mb.created_at, mb.water_reading_prev, mb.water_reading_current, mb.electric_reading_prev, mb.electric_reading_current, r.room_number, r.building, t.name as tenant_name, t.phone as tenant_phone FROM monthly_bills mb LEFT JOIN rooms r ON mb.room_id = r.id LEFT JOIN leases l ON mb.lease_id = l.id AND l.is_deleted = 0 LEFT JOIN tenants t ON l.tenant_id = t.id AND t.is_deleted = 0 WHERE mb.id = ?1 AND mb.is_deleted = 0 LIMIT 1"), params }
}

/// Archives the bills of month `year_month` not deleted and not yet archived.
pub fn archive_bills_by_month_tx(year_month: &str) -> (r: SqlStatement)
    ensures
        r.sql@ == "UPDATE monthly_bills SET is_archived = 1, archived_at = datetime('now') WHERE year_month = ? AND is_deleted = 0 AND is_archived = 0"@,
        params_view(r.params@) == seq![SqlValueView::Text(year_month@)],
{
    let params = vec![SqlValue::Text(String::from_str(year_month))];
    proof {
        assert(params_view(params@) =~= seq![SqlValueView::Text(year_month@)]);
    }
    SqlStatement { sql: String::from_str("UPDATE monthly_bills SET is_archived = 1, archived_at = datetime('now') WHERE year_month = ? AND is_deleted = 0 AND is_archived = 0"), params }
}

/// Restores the archived bills of month `year_month` not deleted.
pub fn restore_bills_by_month_tx(year_month: &str) -> (r: SqlStatement)
    ensures
        r.sql@ == "UPDATE monthly_bills SET is_archived = 0, archived_at = NULL WHERE year_month = ? AND is_deleted = 0 AND is_archived = 1"@,
        params_view(r.params@) == seq![SqlValueView::Text(year_month@)],
{
    let params = vec![SqlValue::Text(String::from_str(year_month))];
    proof {
        assert(params_view(params@) =~= seq![SqlValueView::Text(year_month@)]);
    }
    SqlStatement { sql: String::from_str("UPDATE monthly_bills SET is_archived = 0, archived_at = NULL WHERE year_month = ? AND is_deleted = 0 AND is_archived = 1"), params }
}

/// The number of archived bills of month `year_month`, deleted bills left out.
pub fn get_archived_bills_count_tx(year_month: &str) -> (r: SqlStatement)
    ensures
        r.sql@ == "SELECT COUNT(*) FROM monthly_bills WHERE year_month = ? AND is_archived = 1 AND is_deleted = 0"@,
        params_view(r.params@) == seq![SqlValueView::Text(year_month@)],
{
    let params = vec![SqlValue::Text(String::from_str(year_month))];
    proof {
        assert(params_view(params@) =~= seq![SqlValueView::Text(year_month@)]);
    }
    SqlStatement { sql: String::from_str("SELECT COUNT(*) FROM monthly_bills WHERE year_month = ? AND is_archived = 1 AND is_deleted = 0"), params }
}

/// The months that have archived bills, the newest first.
pub fn list_archived_year_months() -> (r: SqlStatement)
    ensures
        r.sql@ == "SELECT DISTINCT year_month FROM monthly_bills WHERE is_archived = 1 AND is_deleted = 0 ORDER BY year_month DESC"@,
        params_view(r.params@) == Seq::<SqlValueView>::empty(),
{
    let params: Vec<SqlValue> = Vec::new();
    proof {
        assert(params_view(params@) =~= Seq::<SqlValueView>::empty());
    }
    SqlStatement { sql: String::from_str("SELECT DISTINCT year_month FROM monthly_bills WHERE is_archived = 1 AND is_deleted = 0 ORDER BY year_month DESC"), params }
}

/// A bill as the archive statements read and write it.
pub struct ArchiveRow {
    pub year_month: Seq<char>,
    pub is_deleted: bool,
    pub is_archived: bool,
    pub archived_at_set: bool,
}

/// What `archive_bills_by_month_tx` does to one bill.
pub open spec fn archive_row(r: ArchiveRow, year_month: Seq<char>) -> ArchiveRow {
    if r.year_month == year_month && !r.is_deleted && !r.is_archived {
        ArchiveRow { is_archived: true, archived_at_set: true, ..r }
    } else {
        r
    }
}

/// What `restore_bills_by_month_tx` does to one bill.
pub open spec fn restore_row(r: ArchiveRow, year_month: Seq<char>) -> ArchiveRow {
    if r.year_month == year_month && !r.is_deleted && r.is_archived {
        ArchiveRow { is_archived: false, archived_at_set: false, ..r }
    } else {
        r
    }
}

/// The bills after `archive_bills_by_month_tx`.
pub open spec fn archive_rows(rows: Seq<ArchiveRow>, year_month: Seq<char>) -> Seq<ArchiveRow> {
    rows.map_values(|r: ArchiveRow| archive_row(r, year_month))
}

/// The bills after `restore_bills_by_month_tx`.
pub open spec fn restore_rows(rows: Seq<ArchiveRow>, year_month: Seq<char>) -> Seq<ArchiveRow> {
    rows.map_values(|r: ArchiveRow| restore_row(r, year_month))
}

/// The number of bills of `year_month`, not deleted, whose archive flag is
/// `archived`: what the archive statement changes (`false`), and what the
/// restore statement changes and the archived count reports (`true`).
pub open spec fn month_bill_count(rows: Seq<ArchiveRow>, year_month: Seq<char>, archived: bool) -> nat
    decreases rows.len(),
{
    if rows.len() == 0 {
        0
    } else {
        month_bill_count(rows.drop_last(), year_month, archived) + (if rows.last().year_month == year_month
            && !rows.last().is_deleted && rows.last().is_archived == archived {
            1nat
        } else {
            0nat
        })
    }
}

/// Archiving a month and then restoring it gives its bills back: the
/// restore changes every bill of the month that is not deleted, those
/// archived before and those the archive changed, after it the month has
/// no archived bill and none with an archive time, and the bills of other
/// months and the deleted ones are as they were.
pub proof fn lemma_restore_after_archive(rows: Seq<ArchiveRow>, year_month: Seq<char>)
    ensures
        month_bill_count(archive_rows(rows, year_month), year_month, true) == month_bill_count(
            rows,
            year_month,
            true,
        ) + month_bill_count(rows, year_month, false),
        month_bill_count(restore_rows(archive_rows(rows, year_month), year_month), year_month, true) == 0,
        restore_rows(archive_rows(rows, year_month), year_month).len() == rows.len(),
        forall|i: int|
            0 <= i < rows.len() && rows[i].year_month == year_month && !rows[i].is_deleted ==> {
                let b = #[trigger] restore_rows(archive_rows(rows, year_month), year_month)[i];
                !b.is_archived && !b.archived_at_set
            },
        forall|i: int|
            0 <= i < rows.len() && (rows[i].year_month != year_month || rows[i].is_deleted)
                ==> #[trigger] restore_rows(archive_rows(rows, year_month), year_month)[i] == rows[i],
    decreases rows.len(),
{
    let a = archive_rows(rows, year_month);
    let b = restore_rows(a, year_month);
    if rows.len() > 0 {
        lemma_restore_after_archive(rows.drop_last(), year_month);
        assert(a.drop_last() =~= archive_rows(rows.drop_last(), year_month));
        assert(b.drop_last() =~= restore_rows(archive_rows(rows.drop_last(), year_month), year_month));
    }
}

/// The meter reading of room `room_id` for a year and month, deleted readings left out.
pub fn get_meter_reading_by_room_month_tx(room_id: i64, year: i32, month: i32) -> (r: SqlStatement)
    ensures
        r.sql@ == "SELECT id, room_id, year, month, water_reading, electric_reading, reading_date, operator, is_replacement, is_deleted FROM meter_readings WHERE room_id = ?1 AND year = ?2 AND month = ?3 AND is_deleted = 0 LIMIT 1"@,
        params_view(r.params@) == seq![SqlValueView::Integer(room_id), SqlValueView::Integer(year as i64), SqlValueView::Integer(month as i64)],
{
    let params = vec![SqlValue::Integer(room_id), SqlValue::Integer(year as i64), SqlValue::Integer(month as i64)];
    proof {
        assert(params_view(params@) =~= seq![SqlValueView::Integer(room_id), SqlValueView::Integer(year as i64), SqlValueView::Integer(month as i64)]);
    }
    SqlStatement { sql: String::from_str("SELECT id, room_id, year, month, water_reading, electric_reading, reading_date, operator, is_replacement, is_deleted FROM meter_readings WHERE room_id = ?1 AND year = ?2 AND month = ?3 AND is_deleted = 0 LIMIT 1"), params }
}

/// The latest meter reading of room `room_id`, deleted readings left out.
pub fn get_latest_meter_reading_tx(room_id: i64) -> (r: SqlStatement)
    ensures
        r.sql@ == "SELECT id, room_id, year, month, water_reading, electric_reading, reading_date, operator, is_replacement, is_deleted FROM meter_readings WHERE room_id = ?1 AND is_deleted = 0 ORDER BY year DESC, month DESC, created_at DESC LIMIT 1"@,
        params_view(r.params@) == seq![SqlValueView::Integer(room_id)],
{
    let params = vec![SqlValue::Integer(room_id)];
    proof {
        assert(params_view(params@) =~= seq![SqlValueView::Integer(room_id)]);
    }
    SqlStatement { sql: String::from_str("SELECT id, room_id, year, month, water_reading, electric_reading, reading_date, operator, is_replacement, is_deleted FROM meter_readings WHERE room_id = ?1 AND is_deleted = 0 ORDER BY year DESC, month DESC, created_at DESC LIMIT 1"), params }
}

/// Sets room `room_id`'s current water and electric meter readings.
pub fn update_room_meters_tx(room_id: i64, water_meter: i64, electric_meter: i64) -> (r: SqlStatement)
    ensures
        r.sql@ == "UPDATE rooms SET water_meter_current = ?1, electric_meter_current = ?2, updated_at = datetime('now') WHERE id = ?3"@,
        params_view(r.params@) == seq![SqlValueView::Integer(water_meter), SqlValueView::Integer(electric_meter), SqlValueView::Integer(room_id)],
{
    let params = vec![SqlValue::Integer(water_meter), SqlValue::Integer(electric_meter), SqlValue::Integer(room_id)];
    proof {
        assert(params_view(params@) =~= seq![SqlValueView::Integer(water_meter), SqlValueView::Integer(electric_meter), SqlValueView::Integer(room_id)]);
    }
    SqlStatement { sql: String::from_str("UPDATE rooms SET water_meter_current = ?1, electric_meter_current = ?2, updated_at = datetime('now') WHERE id = ?3"), params }
}

/// The value of active configuration entry `key`.
pub fn get_config_value(key: &str) -> (r: SqlStatement)
    ensures
        r.sql@ == "SELECT config_value FROM system_config WHERE config_key = ? AND is_active = 1"@,
        params_view(r.params@) == seq![SqlValueView::Text(key@)],
{
    let params = vec![SqlValue::Text(String::from_str(key))];
    proof {
        assert(params_view(params@) =~= seq![SqlValueView::Text(key@)]);
    }
    SqlStatement { sql: String::from_str("SELECT config_value FROM system_config WHERE config_key = ? AND is_active = 1"), params }
}

/// Every active configuration entry.
pub fn list_configs() -> (r: SqlStatement)
    ensures
        r.sql@ == "SELECT * FROM system_config WHERE is_active = 1"@,
        params_view(r.params@) == Seq::<SqlValueView>::empty(),
{
    let params: Vec<SqlValue> = Vec::new();
    proof {
        assert(params_view(params@) =~= Seq::<SqlValueView>::empty());
    }
    SqlStatement { sql: String::from_str("SELECT * FROM system_config WHERE is_active = 1"), params }
}

/// The status changes of room `room_id`, the latest first.
pub fn get_room_status_log(room_id: i64) -> (r: SqlStatement)
    ensures
        r.sql@ == "SELECT * FROM room_status_log WHERE room_id = ? ORDER BY change_date DESC, created_at DESC"@,
        params_view(r.params@) == seq![SqlValueView::Integer(room_id)],
{
    let params = vec![SqlValue::Integer(room_id)];
    proof {
        assert(params_view(params@) =~= seq![SqlValueView::Integer(room_id)]);
    }
    SqlStatement { sql: String::from_str("SELECT * FROM room_status_log WHERE room_id = ? ORDER BY change_date DESC, created_at DESC"), params }
}

/// The history of tenant `tenant_id`, the latest first.
pub fn get_tenant_history(tenant_id: i64) -> (r: SqlStatement)
    ensures
        r.sql@ == "SELECT * FROM tenant_history WHERE tenant_id = ? ORDER BY event_date DESC, created_at DESC"@,
        params_view(r.params@) == seq![SqlValueView::Integer(tenant_id)],
{
    let params = vec![SqlValue::Integer(tenant_id)];
    proof {
        assert(params_view(params@) =~= seq![SqlValueView::Integer(tenant_id)]);
    }
    SqlStatement { sql: String::from_str("SELECT * FROM tenant_history WHERE tenant_id = ? ORDER BY event_date DESC, created_at DESC"), params }
}

/// Lease `lease_id`, unless deleted, with its room number and tenant contacts.
pub fn get_lease_detail(lease_id: i64) -> (r: SqlStatement)
    ensures
        r.sql@ == "SELECT l.*, r.room_number, t.name as tenant_name, t.phone as tenant_phone, t.phone2 as tenant_phone2 FROM leases l JOIN rooms r ON r.id = l.room_id JOIN tenants t ON t.id = l.tenant_id WHERE l.id = ? AND l.is_deleted = 0"@,
        params_view(r.params@) == seq![SqlValueView::Integer(lease_id)],
{
    let params = vec![SqlValue::Integer(lease_id)];
    proof {
        assert(params_view(params@) =~= seq![SqlValueView::Integer(lease_id)]);
    }
    SqlStatement { sql: String::from_str("SELECT l.*, r.room_number, t.name as tenant_name, t.phone as tenant_phone, t.phone2 as tenant_phone2 FROM leases l JOIN rooms r ON r.id = l.room_id JOIN tenants t ON t.id = l.tenant_id WHERE l.id = ? AND l.is_deleted = 0"), params }
}

} // verus!
