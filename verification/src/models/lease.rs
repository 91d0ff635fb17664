//! Leases, the lease state machine and the deposit state machine.

use vstd::prelude::*;

use crate::errors::{AppError, Result};
use crate::text::str_eq;

verus! {

/// Lifecycle status of a lease.
#[derive(Debug, Clone, Copy, PartialEq, Eq, Structural)]
pub enum LeaseStatus {
    Draft,
    Active,
    Violation,
    PendingSettle,
    CheckedOut,
    Archived,
    Cancelled,
}

impl LeaseStatus {
    /// The label stored in the database.
    pub open spec fn label(self) -> Seq<char> {
        match self {
            LeaseStatus::Draft => "草稿"@,
            LeaseStatus::Active => "生效中"@,
            LeaseStatus::Violation => "违约中"@,
            LeaseStatus::PendingSettle => "待结算"@,
            LeaseStatus::CheckedOut => "已退房"@,
            LeaseStatus::Archived => "已归档"@,
            LeaseStatus::Cancelled => "已作废"@,
        }
    }
}

/// The lease status a stored label denotes.
pub open spec fn lease_status_from_label(s: Seq<char>) -> Option<LeaseStatus> {
    if s == "草稿"@ {
        Some(LeaseStatus::Draft)
    } else if s == "生效中"@ {
        Some(LeaseStatus::Active)
    } else if s == "违约中"@ {
        Some(LeaseStatus::Violation)
    } else if s == "待结算"@ {
        Some(LeaseStatus::PendingSettle)
    } else if s == "已退房"@ {
        Some(LeaseStatus::CheckedOut)
    } else if s == "已归档"@ {
        Some(LeaseStatus::Archived)
    } else if s == "已作废"@ {
        Some(LeaseStatus::Cancelled)
    } else {
        None
    }
}

/// The lease state machine: draft → active ⇄ violation → pending settlement
/// → checked out → archived, and draft → cancelled.
pub open spec fn lease_transition_allowed(from: LeaseStatus, to: LeaseStatus) -> bool {
    match (from, to) {
        (LeaseStatus::Draft, LeaseStatus::Active) => true,
        (LeaseStatus::Active, LeaseStatus::Violation) => true,
        (LeaseStatus::Active, LeaseStatus::PendingSettle) => true,
        (LeaseStatus::Violation, LeaseStatus::PendingSettle) => true,
        (LeaseStatus::Violation, LeaseStatus::Active) => true,
        (LeaseStatus::PendingSettle, LeaseStatus::CheckedOut) => true,
        (LeaseStatus::CheckedOut, LeaseStatus::Archived) => true,
        (LeaseStatus::Draft, LeaseStatus::Cancelled) => true,
        _ => false,
    }
}

/// "未知合同状态: " followed by the refused label.
pub open spec fn unknown_lease_status_message(s: Seq<char>) -> Seq<char> {
    "未知合同状态: "@ + s
}

impl LeaseStatus {
    /// Stored label of this status.
    pub fn as_str(&self) -> (r: &'static str)
        ensures
            r@ == self.label(),
    {
        match self {
            LeaseStatus::Draft => "草稿",
            LeaseStatus::Active => "生效中",
            LeaseStatus::Violation => "违约中",
            LeaseStatus::PendingSettle => "待结算",
            LeaseStatus::CheckedOut => "已退房",
            LeaseStatus::Archived => "已归档",
            LeaseStatus::Cancelled => "已作废",
        }
    }

    /// Reads a stored label; an unknown label is an invalid-status error.
    pub fn from_str(s: &str) -> (r: Result<LeaseStatus>)
        ensures
            match lease_status_from_label(s@) {
                Some(st) => r matches Ok(x) && x == st,
                None => r matches Err(AppError::InvalidStatus(m)) && m@
                    == unknown_lease_status_message(s@),
            },
    {
        if str_eq(s, "草稿") {
            Ok(LeaseStatus::Draft)
        } else if str_eq(s, "生效中") {
            Ok(LeaseStatus::Active)
        } else if str_eq(s, "违约中") {
            Ok(LeaseStatus::Violation)
        } else if str_eq(s, "待结算") {
            Ok(LeaseStatus::PendingSettle)
        } else if str_eq(s, "已退房") {
            Ok(LeaseStatus::CheckedOut)
        } else if str_eq(s, "已归档") {
            Ok(LeaseStatus::Archived)
        } else if str_eq(s, "已作废") {
            Ok(LeaseStatus::Cancelled)
        } else {
            let m = String::from_str("未知合同状态: ").concat(s);
            Err(AppError::InvalidStatus(m))
        }
    }

    /// Whether the lease state machine allows moving to `next`.
    pub fn can_transition_to(&self, next: &LeaseStatus) -> (r: bool)
        ensures
            r == lease_transition_allowed(*self, *next),
    {
        match (self, next) {
            (LeaseStatus::Draft, LeaseStatus::Active)
            | (LeaseStatus::Active, LeaseStatus::Violation)
            | (LeaseStatus::Active, LeaseStatus::PendingSettle)
            | (LeaseStatus::Violation, LeaseStatus::PendingSettle)
            | (LeaseStatus::Violation, LeaseStatus::Active)
            | (LeaseStatus::PendingSettle, LeaseStatus::CheckedOut)
            | (LeaseStatus::CheckedOut, LeaseStatus::Archived)
            | (LeaseStatus::Draft, LeaseStatus::Cancelled) => true,
            _ => false,
        }
    }
}

/// Reading back a stored lease status label gives the status that was stored.
pub proof fn lemma_lease_status_label_roundtrip(s: LeaseStatus)
    ensures
        lease_status_from_label(s.label()) == Some(s),
{
    reveal_strlit("草稿");
    reveal_strlit("生效中");
    reveal_strlit("违约中");
    reveal_strlit("待结算");
    reveal_strlit("已退房");
    reveal_strlit("已归档");
    reveal_strlit("已作废");
    assert("草稿"@[0] != "生效中"@[0]);
    assert("草稿"@[0] != "违约中"@[0]);
    assert("草稿"@[0] != "待结算"@[0]);
    assert("草稿"@[0] != "已退房"@[0]);
    assert("草稿"@[0] != "已归档"@[0]);
    assert("草稿"@[0] != "已作废"@[0]);
    assert("生效中"@[0] != "违约中"@[0]);
    assert("生效中"@[0] != "待结算"@[0]);
    assert("生效中"@[0] != "已退房"@[0]);
    assert("生效中"@[0] != "已归档"@[0]);
    assert("生效中"@[0] != "已作废"@[0]);
    assert("违约中"@[0] != "待结算"@[0]);
    assert("违约中"@[0] != "已退房"@[0]);
    assert("违约中"@[0] != "已归档"@[0]);
    assert("违约中"@[0] != "已作废"@[0]);
    assert("待结算"@[0] != "已退房"@[0]);
    assert("待结算"@[0] != "已归档"@[0]);
    assert("待结算"@[0] != "已作废"@[0]);
    assert("已退房"@[1] != "已归档"@[1]);
    assert("已退房"@[1] != "已作废"@[1]);
    assert("已归档"@[1] != "已作废"@[1]);
}

/// The lease moves, as a table: a draft takes effect or is cancelled; an
/// active lease goes into violation or to settlement at check-out; a lease
/// in violation recovers or goes to settlement; a settled lease is checked
/// out and then archived.
pub open spec fn lease_move_table() -> Set<(LeaseStatus, LeaseStatus)> {
    set![
        (LeaseStatus::Draft, LeaseStatus::Active),
        (LeaseStatus::Draft, LeaseStatus::Cancelled),
        (LeaseStatus::Active, LeaseStatus::Violation),
        (LeaseStatus::Active, LeaseStatus::PendingSettle),
        (LeaseStatus::Violation, LeaseStatus::Active),
        (LeaseStatus::Violation, LeaseStatus::PendingSettle),
        (LeaseStatus::PendingSettle, LeaseStatus::CheckedOut),
        (LeaseStatus::CheckedOut, LeaseStatus::Archived)
    ]
}

/// The lease state machine allows exactly the moves of the table; no lease
/// stays put by a transition.
pub proof fn lemma_lease_machine_is_table(from: LeaseStatus, to: LeaseStatus)
    ensures
        lease_transition_allowed(from, to) <==> lease_move_table().contains((from, to)),
{
}

/// Archived and cancelled leases are final: no transition leaves them, and
/// nothing returns to a draft.
pub proof fn lemma_lease_final_states(s: LeaseStatus)
    ensures
        !lease_transition_allowed(LeaseStatus::Archived, s),
        !lease_transition_allowed(LeaseStatus::Cancelled, s),
        !lease_transition_allowed(s, LeaseStatus::Draft),
{
}

/// Deposit status of a lease.
#[derive(Debug, Clone, Copy, PartialEq, Eq, Structural)]
pub enum DepositStatus {
    Unreceived,
    Received,
    Partial,
    Refunded,
    Forfeited,
}

impl DepositStatus {
    /// The label stored in the database.
    pub open spec fn label(self) -> Seq<char> {
        match self {
            DepositStatus::Unreceived => "未收取"@,
            DepositStatus::Received => "已收取"@,
            DepositStatus::Partial => "部分收取"@,
            DepositStatus::Refunded => "退还"@,
            DepositStatus::Forfeited => "没收"@,
        }
    }
}

/// The deposit status a stored label denotes.
pub open spec fn deposit_status_from_label(s: Seq<char>) -> Option<DepositStatus> {
    if s == "未收取"@ {
        Some(DepositStatus::Unreceived)
    } else if s == "已收取"@ {
        Some(DepositStatus::Received)
    } else if s == "部分收取"@ {
        Some(DepositStatus::Partial)
    } else if s == "退还"@ {
        Some(DepositStatus::Refunded)
    } else if s == "没收"@ {
        Some(DepositStatus::Forfeited)
    } else {
        None
    }
}

/// The deposit state machine.
pub open spec fn deposit_transition_allowed(from: DepositStatus, to: DepositStatus) -> bool {
    match (from, to) {
        (DepositStatus::Unreceived, DepositStatus::Partial) => true,
        (DepositStatus::Unreceived, DepositStatus::Received) => true,
        (DepositStatus::Partial, DepositStatus::Partial) => true,
        (DepositStatus::Partial, DepositStatus::Received) => true,
        (DepositStatus::Partial, DepositStatus::Refunded) => true,
        (DepositStatus::Partial, DepositStatus::Forfeited) => true,
        (DepositStatus::Received, DepositStatus::Partial) => true,
        (DepositStatus::Received, DepositStatus::Refunded) => true,
        (DepositStatus::Received, DepositStatus::Forfeited) => true,
        _ => false,
    }
}

/// The status a deposit balance implies: received in full when the balance
/// covers a positive deposit, partial when some balance remains, unreceived
/// otherwise.
pub open spec fn deposit_status_for_balance(deposit: int, balance: int) -> DepositStatus {
    if balance >= deposit && deposit > 0 {
        DepositStatus::Received
    } else if balance > 0 {
        DepositStatus::Partial
    } else {
        DepositStatus::Unreceived
    }
}

/// "未知押金状态: " followed by the refused label.
pub open spec fn unknown_deposit_status_message(s: Seq<char>) -> Seq<char> {
    "未知押金状态: "@ + s
}

impl DepositStatus {
    /// Stored label of this status.
    pub fn as_str(&self) -> (r: &'static str)
        ensures
            r@ == self.label(),
    {
        match self {
            DepositStatus::Unreceived => "未收取",
            DepositStatus::Received => "已收取",
            DepositStatus::Partial => "部分收取",
            DepositStatus::Refunded => "退还",
            DepositStatus::Forfeited => "没收",
        }
    }

    /// Reads a stored label; an unknown label is an invalid-status error.
    pub fn from_str(s: &str) -> (r: Result<DepositStatus>)
        ensures
            match deposit_status_from_label(s@) {
                Some(st) => r matches Ok(x) && x == st,
                None => r matches Err(AppError::InvalidStatus(m)) && m@
                    == unknown_deposit_status_message(s@),
            },
    {
        if str_eq(s, "未收取") {
            Ok(DepositStatus::Unreceived)
        } else if str_eq(s, "已收取") {
            Ok(DepositStatus::Received)
        } else if str_eq(s, "部分收取") {
            Ok(DepositStatus::Partial)
        } else if str_eq(s, "退还") {
            Ok(DepositStatus::Refunded)
        } else if str_eq(s, "没收") {
            Ok(DepositStatus::Forfeited)
        } else {
            let m = String::from_str("未知押金状态: ").concat(s);
            Err(AppError::InvalidStatus(m))
        }
    }

    /// Whether the deposit state machine allows moving to `next`.
    pub fn can_transition_to(&self, next: &DepositStatus) -> (r: bool)
        ensures
            r == deposit_transition_allowed(*self, *next),
    {
        match (self, next) {
            (DepositStatus::Unreceived, DepositStatus::Partial)
            | (DepositStatus::Unreceived, DepositStatus::Received)
            | (DepositStatus::Partial, DepositStatus::Partial)
            | (DepositStatus::Partial, DepositStatus::Received)
            | (DepositStatus::Partial, DepositStatus::Refunded)
            | (DepositStatus::Partial, DepositStatus::Forfeited)
            | (DepositStatus::Received, DepositStatus::Partial)
            | (DepositStatus::Received, DepositStatus::Refunded)
            | (DepositStatus::Received, DepositStatus::Forfeited) => true,
            _ => false,
        }
    }

    /// The status implied by a deposit and the balance held against it.
    pub fn from_balance(deposit: i64, balance: i64) -> (r: DepositStatus)
        ensures
            r == deposit_status_for_balance(deposit as int, balance as int),
    {
        if balance >= deposit && deposit > 0 {
            DepositStatus::Received
        } else if balance > 0 {
            DepositStatus::Partial
        } else {
            DepositStatus::Unreceived
        }
    }
}

/// Reading back a stored deposit status label gives the status that was stored.
pub proof fn lemma_deposit_status_label_roundtrip(s: DepositStatus)
    ensures
        deposit_status_from_label(s.label()) == Some(s),
{
    reveal_strlit("未收取");
    reveal_strlit("已收取");
    reveal_strlit("部分收取");
    reveal_strlit("退还");
    reveal_strlit("没收");
    assert("未收取"@[0] != "已收取"@[0]);
    assert("未收取"@[0] != "部分收取"@[0]);
    assert("未收取"@[0] != "退还"@[0]);
    assert("未收取"@[0] != "没收"@[0]);
    assert("已收取"@[0] != "部分收取"@[0]);
    assert("已收取"@[0] != "退还"@[0]);
    assert("已收取"@[0] != "没收"@[0]);
    assert("部分收取"@[0] != "退还"@[0]);
    assert("部分收取"@[0] != "没收"@[0]);
    assert("退还"@[0] != "没收"@[0]);
}

/// The deposit moves, as a table: an unreceived deposit is received in part
/// or in full; a partial deposit grows, is completed, refunded or
/// forfeited; a received deposit is drawn on, refunded or forfeited.
pub open spec fn deposit_move_table() -> Set<(DepositStatus, DepositStatus)> {
    set![
        (DepositStatus::Unreceived, DepositStatus::Partial),
        (DepositStatus::Unreceived, DepositStatus::Received),
        (DepositStatus::Partial, DepositStatus::Partial),
        (DepositStatus::Partial, DepositStatus::Received),
        (DepositStatus::Partial, DepositStatus::Refunded),
        (DepositStatus::Partial, DepositStatus::Forfeited),
        (DepositStatus::Received, DepositStatus::Partial),
        (DepositStatus::Received, DepositStatus::Refunded),
        (DepositStatus::Received, DepositStatus::Forfeited)
    ]
}

/// The deposit state machine allows exactly the moves of the table.
pub proof fn lemma_deposit_machine_is_table(from: DepositStatus, to: DepositStatus)
    ensures
        deposit_transition_allowed(from, to) <==> deposit_move_table().contains((from, to)),
{
}

/// The status a balance implies: received once a positive deposit is
/// covered, partial while something short of that is held, unreceived when
/// nothing is held.
pub proof fn lemma_deposit_balance_bands(deposit: int, balance: int)
    ensures
        deposit_status_for_balance(deposit, balance) == DepositStatus::Received <==> (deposit > 0 && balance
            >= deposit),
        deposit_status_for_balance(deposit, balance) == DepositStatus::Partial <==> (balance > 0 && !(deposit
            > 0 && balance >= deposit)),
        deposit_status_for_balance(deposit, balance) == DepositStatus::Unreceived <==> balance <= 0,
{
}

/// Refunded and forfeited deposits are final, and a balance never implies
/// either of them.
pub proof fn lemma_deposit_final_states(s: DepositStatus, deposit: int, balance: int)
    ensures
        !deposit_transition_allowed(DepositStatus::Refunded, s),
        !deposit_transition_allowed(DepositStatus::Forfeited, s),
        deposit_status_for_balance(deposit, balance) != DepositStatus::Refunded,
        deposit_status_for_balance(deposit, balance) != DepositStatus::Forfeited,
{
}

/// A lease contract; amounts are in fen.
#[derive(Debug, Clone)]
pub struct Lease {
    pub id: i64,
    pub room_id: i64,
    pub tenant_id: i64,
    pub contract_number: Option<String>,
    pub start_date: String,
    pub end_date: Option<String>,
    pub monthly_rent: i64,
    pub property_fee: i64,
    pub deposit: i64,
    pub deposit_received: i64,
    pub deposit_balance: i64,
    pub deposit_status: String,
    pub move_in_date: Option<String>,
    pub move_out_date: Option<String>,
    pub termination_reason: Option<String>,
    pub status: String,
    pub status_reason: Option<String>,
    pub notes: Option<String>,
    pub is_deleted: bool,
    pub created_at: Option<String>,
    pub updated_at: Option<String>,
}

/// A check-in request.
#[derive(Debug, Clone)]
pub struct CheckInRequest {
    pub room_id: i64,
    pub tenant_id: i64,
    pub lease_id: i64,
    pub move_in_date: String,
    pub operator: Option<String>,
}

/// A check-out request.
#[derive(Debug, Clone)]
pub struct CheckOutRequest {
    pub lease_id: i64,
    pub room_id: i64,
    pub move_out_date: String,
    pub reason: String,
    pub operator: Option<String>,
}

/// Outcome of a lease operation.
#[derive(Debug, Clone)]
pub struct LeaseResponse {
    pub success: bool,
    pub lease_id: Option<i64>,
    pub message: Option<String>,
}

impl LeaseResponse {
    pub fn success() -> (r: LeaseResponse)
        ensures
            r.success,
            r.lease_id is None,
            r.message is None,
    {
        LeaseResponse { success: true, lease_id: None, message: None }
    }

    pub fn success_with_id(lease_id: i64) -> (r: LeaseResponse)
        ensures
            r.success,
            r.lease_id == Some(lease_id),
            r.message is None,
    {
        LeaseResponse { success: true, lease_id: Some(lease_id), message: None }
    }

    pub fn error(message: String) -> (r: LeaseResponse)
        ensures
            !r.success,
            r.lease_id is None,
            r.message == Some(message),
    {
        LeaseResponse { success: false, lease_id: None, message: Some(message) }
    }
}

/// A lease with its room number and tenant contact details.
#[derive(Debug, Clone)]
pub struct LeaseDetail {
    pub id: i64,
    pub room_id: i64,
    pub tenant_id: i64,
    pub room_number: String,
    pub tenant_name: String,
    pub tenant_phone: Option<String>,
    pub tenant_phone2: Option<String>,
    pub contract_number: Option<String>,
    pub start_date: String,
    pub end_date: Option<String>,
    pub monthly_rent: i64,
    pub property_fee: i64,
    pub deposit: i64,
    pub deposit_received: i64,
    pub deposit_balance: i64,
    pub deposit_status: String,
    pub move_in_date: Option<String>,
    pub move_out_date: Option<String>,
    pub termination_reason: Option<String>,
    pub status: String,
    pub notes: Option<String>,
    pub created_at: Option<String>,
}

} // verus!
