//! Monthly bills and the bill state machine.

use vstd::prelude::*;

use crate::errors::{AppError, Result};
use crate::models::room::RoomStatus;
use crate::text::str_eq;

verus! {

/// Payment status of a bill.
#[derive(Debug, Clone, Copy, PartialEq, Eq, Structural)]
pub enum BillStatus {
    Pending,
    Partial,
    Paid,
    Voided,
}

impl BillStatus {
    /// The label stored in the database.
    pub open spec fn label(self) -> Seq<char> {
        match self {
            BillStatus::Pending => "待缴费"@,
            BillStatus::Partial => "部分支付"@,
            BillStatus::Paid => "已支付"@,
            BillStatus::Voided => "已作废"@,
        }
    }
}

/// The bill status a stored label denotes.
pub open spec fn bill_status_from_label(s: Seq<char>) -> Option<BillStatus> {
    if s == "待缴费"@ {
        Some(BillStatus::Pending)
    } else if s == "部分支付"@ {
        Some(BillStatus::Partial)
    } else if s == "已支付"@ {
        Some(BillStatus::Paid)
    } else if s == "已作废"@ {
        Some(BillStatus::Voided)
    } else {
        None
    }
}

/// Paid and voided bills are final.
pub open spec fn bill_status_is_terminal(s: BillStatus) -> bool {
    s == BillStatus::Paid || s == BillStatus::Voided
}

/// The bill state machine: pending → paid | partial | voided and
/// partial → paid | voided.
pub open spec fn bill_transition_allowed(from: BillStatus, to: BillStatus) -> bool {
    match (from, to) {
        (BillStatus::Pending, BillStatus::Paid) => true,
        (BillStatus::Pending, BillStatus::Partial) => true,
        (BillStatus::Pending, BillStatus::Voided) => true,
        (BillStatus::Partial, BillStatus::Paid) => true,
        (BillStatus::Partial, BillStatus::Voided) => true,
        _ => false,
    }
}

/// The status implied by the amount paid against a bill.
pub open spec fn bill_status_for_paid(total_amount: int, paid_amount: int) -> BillStatus {
    if paid_amount <= 0 {
        BillStatus::Pending
    } else if paid_amount >= total_amount {
        BillStatus::Paid
    } else {
        BillStatus::Partial
    }
}

/// "未知账单状态: " followed by the refused label.
pub open spec fn unknown_bill_status_message(s: Seq<char>) -> Seq<char> {
    "未知账单状态: "@ + s
}

impl BillStatus {
    /// Reads a stored label; an unknown label is an invalid-status error.
    pub fn from_str(s: &str) -> (r: Result<BillStatus>)
        ensures
            match bill_status_from_label(s@) {
                Some(st) => r matches Ok(x) && x == st,
                None => r matches Err(AppError::InvalidStatus(m)) && m@
                    == unknown_bill_status_message(s@),
            },
    {
        if str_eq(s, "待缴费") {
            Ok(BillStatus::Pending)
        } else if str_eq(s, "部分支付") {
            Ok(BillStatus::Partial)
        } else if str_eq(s, "已支付") {
            Ok(BillStatus::Paid)
        } else if str_eq(s, "已作废") {
            Ok(BillStatus::Voided)
        } else {
            let m = String::from_str("未知账单状态: ").concat(s);
            Err(AppError::InvalidStatus(m))
        }
    }

    /// Stored label of this status.
    pub fn as_str(&self) -> (r: &'static str)
        ensures
            r@ == self.label(),
    {
        match self {
            BillStatus::Pending => "待缴费",
            BillStatus::Partial => "部分支付",
            BillStatus::Paid => "已支付",
            BillStatus::Voided => "已作废",
        }
    }

    /// Whether this status is final.
    pub fn is_terminal(&self) -> (r: bool)
        ensures
            r == bill_status_is_terminal(*self),
    {
        match self {
            BillStatus::Paid | BillStatus::Voided => true,
            _ => false,
        }
    }

    /// The status implied by the amount paid against a bill total.
    pub fn from_paid_amount(total_amount: i64, paid_amount: i64) -> (r: BillStatus)
        ensures
            r == bill_status_for_paid(total_amount as int, paid_amount as int),
    {
        if paid_amount <= 0 {
            BillStatus::Pending
        } else if paid_amount >= total_amount {
            BillStatus::Paid
        } else {
            BillStatus::Partial
        }
    }

    /// Whether the bill state machine allows moving to `next`.
    pub fn can_transition_to(&self, next: &BillStatus) -> (r: bool)
        ensures
            r == bill_transition_allowed(*self, *next),
    {
        match (self, next) {
            (BillStatus::Pending, BillStatus::Paid)
            | (BillStatus::Pending, BillStatus::Partial)
            | (BillStatus::Pending, BillStatus::Voided)
            | (BillStatus::Partial, BillStatus::Paid)
            | (BillStatus::Partial, BillStatus::Voided) => true,
            _ => false,
        }
    }
}

/// Reading back a stored bill status label gives the status that was stored.
pub proof fn lemma_bill_status_label_roundtrip(s: BillStatus)
    ensures
        bill_status_from_label(s.label()) == Some(s),
{
    reveal_strlit("待缴费");
    reveal_strlit("部分支付");
    reveal_strlit("已支付");
    reveal_strlit("已作废");
    assert("待缴费"@[0] != "部分支付"@[0]);
    assert("待缴费"@[0] != "已支付"@[0]);
    assert("待缴费"@[0] != "已作废"@[0]);
    assert("部分支付"@[0] != "已支付"@[0]);
    assert("部分支付"@[0] != "已作废"@[0]);
    assert("已支付"@[1] != "已作废"@[1]);
}

/// A final bill status has no outgoing transition, and every transition of
/// the state machine leaves a non-final status.
pub proof fn lemma_bill_terminal_has_no_transition(from: BillStatus, to: BillStatus)
    ensures
        bill_status_is_terminal(from) ==> !bill_transition_allowed(from, to),
        bill_transition_allowed(from, to) ==> !bill_status_is_terminal(from),
{
}

/// The bill moves, as a table: a pending bill can be paid, partly paid or
/// voided; a partly paid bill can be paid or voided.
pub open spec fn bill_move_table() -> Set<(BillStatus, BillStatus)> {
    set![
        (BillStatus::Pending, BillStatus::Paid),
        (BillStatus::Pending, BillStatus::Partial),
        (BillStatus::Pending, BillStatus::Voided),
        (BillStatus::Partial, BillStatus::Paid),
        (BillStatus::Partial, BillStatus::Voided)
    ]
}

/// The bill state machine allows exactly the moves of the table.
pub proof fn lemma_bill_machine_is_table(from: BillStatus, to: BillStatus)
    ensures
        bill_transition_allowed(from, to) <==> bill_move_table().contains((from, to)),
{
}

/// The status a paid amount implies: pending while nothing is paid, partly
/// paid while something but less than the total is paid, paid once the
/// total is covered.
pub proof fn lemma_paid_amount_bands(total_amount: int, paid_amount: int)
    ensures
        bill_status_for_paid(total_amount, paid_amount) == BillStatus::Pending <==> paid_amount <= 0,
        bill_status_for_paid(total_amount, paid_amount) == BillStatus::Partial <==> 0 < paid_amount
            < total_amount,
{
}

/// A bill is paid exactly when something was paid and the payment covers
/// the total.
pub proof fn lemma_paid_status_covers_total(total_amount: int, paid_amount: int)
    ensures
        (bill_status_for_paid(total_amount, paid_amount) == BillStatus::Paid) <==> (paid_amount > 0
            && paid_amount >= total_amount),
        bill_status_for_paid(total_amount, paid_amount) != BillStatus::Voided,
{
}

/// Kind of a monthly bill.
#[derive(Debug, Clone, Copy, PartialEq, Eq, Structural)]
pub enum BillType {
    Normal,
    FirstMonthFree,
    HalfMonth,
    LastMonth,
    MidMonthCheckout,
}

impl BillType {
    /// The label stored in the database.
    pub open spec fn label(self) -> Seq<char> {
        match self {
            BillType::Normal => "正常"@,
            BillType::FirstMonthFree => "首月免水电"@,
            BillType::HalfMonth => "半月结算"@,
            BillType::LastMonth => "末月结算"@,
            BillType::MidMonthCheckout => "月中退房结算"@,
        }
    }

    /// Stored label of this bill type.
    pub fn as_str(&self) -> (r: &'static str)
        ensures
            r@ == self.label(),
    {
        match self {
            BillType::Normal => "正常",
            BillType::FirstMonthFree => "首月免水电",
            BillType::HalfMonth => "半月结算",
            BillType::LastMonth => "末月结算",
            BillType::MidMonthCheckout => "月中退房结算",
        }
    }
}

/// A monthly bill; amounts are in fen, unit prices in fen per unit.
#[derive(Debug, Clone)]
pub struct MonthlyBill {
    pub id: i64,
    pub year_month: String,
    pub room_id: i64,
    pub lease_id: Option<i64>,
    pub lease_start_date: Option<String>,
    pub lease_end_date: Option<String>,
    pub check_in_day: Option<i32>,
    pub check_out_day: Option<i32>,
    pub water_reading_prev: i64,
    pub water_reading_current: i64,
    pub electric_reading_prev: i64,
    pub electric_reading_current: i64,
    pub water_usage: i64,
    pub electric_usage: i64,
    pub water_unit_price: i64,
    pub electric_unit_price: i64,
    pub management_unit_price: i64,
    pub rent_fee: i64,
    pub rent_days: i32,
    pub rent_daily_rate: i64,
    pub property_fee: i64,
    pub water_fee: i64,
    pub electric_fee: i64,
    pub management_fee: i64,
    pub repair_fee: i64,
    pub misc_fee: i64,
    pub misc_fee_remark: Option<String>,
    pub deposit_fee: i64,
    pub previous_balance: i64,
    pub actual_paid: i64,
    pub total_amount: i64,
    pub bill_type: String,
    pub room_status: RoomStatus,
    pub status: String,
    pub due_date: Option<String>,
    pub paid_date: Option<String>,
    pub bill_sequence: i32,
    pub is_deleted: bool,
    pub is_archived: bool,
    pub archived_at: Option<String>,
    pub notes: Option<String>,
    pub created_at: Option<String>,
    pub updated_at: Option<String>,
}

/// A request to generate the bills of a month.
#[derive(Debug, Clone)]
pub struct GenerateBillsRequest {
    pub year_month: String,
    pub room_ids: Option<Vec<i64>>,
    pub operator: Option<String>,
    pub misc_fee: Option<i64>,
    pub misc_fee_remark: Option<String>,
}

/// Outcome of a bill generation run.
#[derive(Debug, Clone)]
pub struct BillResponse {
    pub success: bool,
    pub generated_count: i32,
    pub message: Option<String>,
}

impl BillResponse {
    pub fn success(count: i32) -> (r: BillResponse)
        ensures
            r.success,
            r.generated_count == count,
            r.message is None,
    {
        BillResponse { success: true, generated_count: count, message: None }
    }

    pub fn error(message: String) -> (r: BillResponse)
        ensures
            !r.success,
            r.generated_count == 0,
            r.message == Some(message),
    {
        BillResponse { success: false, generated_count: 0, message: Some(message) }
    }
}

/// Bill generation result of one room; every fee is zero when skipped.
#[derive(Debug, Clone)]
pub struct RoomBillResult {
    pub room_id: i64,
    pub room_number: String,
    pub bill_id: Option<i64>,
    pub skip_reason: Option<String>,
    pub rent: i64,
    pub property_fee: i64,
    pub water_fee: i64,
    pub electric_fee: i64,
    pub management_fee: i64,
    pub misc_fee: i64,
    pub misc_fee_remark: Option<String>,
    pub previous_balance: i64,
    pub total: i64,
}

impl RoomBillResult {
    /// A skipped room: no bill and every amount zero.
    pub fn skipped(room_id: i64, room_number: String, reason: &str) -> (r: RoomBillResult)
        ensures
            r.room_id == room_id,
            r.room_number == room_number,
            r.bill_id is None,
            r.skip_reason matches Some(s) && s@ == reason@,
            r.rent == 0 && r.property_fee == 0 && r.water_fee == 0 && r.electric_fee == 0,
            r.management_fee == 0 && r.misc_fee == 0 && r.previous_balance == 0 && r.total == 0,
            r.misc_fee_remark is None,
    {
        RoomBillResult {
            room_id,
            room_number,
            bill_id: None,
            skip_reason: Some(String::from_str(reason)),
            rent: 0,
            property_fee: 0,
            water_fee: 0,
            electric_fee: 0,
            management_fee: 0,
            misc_fee: 0,
            misc_fee_remark: None,
            previous_balance: 0,
            total: 0,
        }
    }

    /// A generated bill with its fee breakdown.
    pub fn success(
        room_id: i64,
        room_number: String,
        bill_id: i64,
        rent: i64,
        property_fee: i64,
        water_fee: i64,
        electric_fee: i64,
        management_fee: i64,
        misc_fee: i64,
        misc_fee_remark: Option<String>,
        previous_balance: i64,
        total: i64,
    ) -> (r: RoomBillResult)
        ensures
            r == (RoomBillResult {
                room_id,
                room_number,
                bill_id: Some(bill_id),
                skip_reason: None,
                rent,
                property_fee,
                water_fee,
                electric_fee,
                management_fee,
                misc_fee,
                misc_fee_remark,
                previous_balance,
                total,
            }),
    {
        RoomBillResult {
            room_id,
            room_number,
            bill_id: Some(bill_id),
            skip_reason: None,
            rent,
            property_fee,
            water_fee,
            electric_fee,
            management_fee,
            misc_fee,
            misc_fee_remark,
            previous_balance,
            total,
        }
    }
}

/// Fee breakdown of a bill.
#[derive(Debug, Clone)]
pub struct BillDetails {
    pub rent: i64,
    pub property_fee: i64,
    pub water_fee: i64,
    pub electric_fee: i64,
    pub management_fee: i64,
    pub misc_fee: i64,
    pub misc_fee_remark: Option<String>,
    pub previous_balance: i64,
    pub total: i64,
}

/// Bill preview shown before generation.
#[derive(Debug, Clone)]
pub struct BillPreview {
    pub room_id: i64,
    pub room_number: String,
    pub room_status: RoomStatus,
    pub water_usage: i64,
    pub electric_usage: i64,
    pub rent_fee_fen: i64,
    pub property_fee_fen: i64,
    pub water_fee_fen: i64,
    pub electric_fee_fen: i64,
    pub management_fee_fen: i64,
    pub total_fee_fen: i64,
}

/// Request to archive the bills of a month ("2024-01").
#[derive(Debug, Clone)]
pub struct ArchiveBillsRequest {
    pub year_month: String,
}

/// Outcome of archiving.
#[derive(Debug, Clone)]
pub struct ArchiveBillsResponse {
    pub success: bool,
    pub archived_count: i32,
    pub message: Option<String>,
}

impl ArchiveBillsResponse {
    pub fn success(count: i32) -> (r: ArchiveBillsResponse)
        ensures
            r.success,
            r.archived_count == count,
            r.message is None,
    {
        ArchiveBillsResponse { success: true, archived_count: count, message: None }
    }

    pub fn error(message: String) -> (r: ArchiveBillsResponse)
        ensures
            !r.success,
            r.archived_count == 0,
            r.message == Some(message),
    {
        ArchiveBillsResponse { success: false, archived_count: 0, message: Some(message) }
    }
}

/// Request to restore the archived bills of a month.
#[derive(Debug, Clone)]
pub struct RestoreBillsRequest {
    pub year_month: String,
}

} // verus!
