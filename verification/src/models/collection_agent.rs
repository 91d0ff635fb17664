//! Rent collection: overdue escalation levels and the collection report.

use vstd::prelude::*;

use crate::text::str_eq;

verus! {

/// How far a bill is overdue.
#[derive(Debug, Clone, Copy, PartialEq, Eq, Structural)]
pub enum EscalationLevel {
    NotOverdue,
    Mild,
    Moderate,
    Severe,
}

impl EscalationLevel {
    /// The label stored in the database.
    pub open spec fn label_text(self) -> Seq<char> {
        match self {
            EscalationLevel::NotOverdue => "无"@,
            EscalationLevel::Mild => "轻微"@,
            EscalationLevel::Moderate => "中度"@,
            EscalationLevel::Severe => "严重"@,
        }
    }

    /// Severity rank: none 0, mild 1, moderate 2, severe 3.
    pub open spec fn rank(self) -> int {
        match self {
            EscalationLevel::NotOverdue => 0,
            EscalationLevel::Mild => 1,
            EscalationLevel::Moderate => 2,
            EscalationLevel::Severe => 3,
        }
    }
}

/// Level for a number of overdue days: none up to 0, mild for 1 to 7,
/// moderate for 8 to 14, severe from 15.
pub open spec fn escalation_for_days(days: int) -> EscalationLevel {
    if days <= 0 {
        EscalationLevel::NotOverdue
    } else if days <= 7 {
        EscalationLevel::Mild
    } else if days <= 14 {
        EscalationLevel::Moderate
    } else {
        EscalationLevel::Severe
    }
}

/// The level a stored label denotes; anything unknown reads as not overdue.
pub open spec fn escalation_from_label(s: Seq<char>) -> EscalationLevel {
    if s == "轻微"@ {
        EscalationLevel::Mild
    } else if s == "中度"@ {
        EscalationLevel::Moderate
    } else if s == "严重"@ {
        EscalationLevel::Severe
    } else {
        EscalationLevel::NotOverdue
    }
}

impl EscalationLevel {
    /// The level for a number of overdue days.
    pub fn from_overdue_days(days: i64) -> (r: EscalationLevel)
        ensures
            r == escalation_for_days(days as int),
    {
        if days <= 0 {
            EscalationLevel::NotOverdue
        } else if days <= 7 {
            EscalationLevel::Mild
        } else if days <= 14 {
            EscalationLevel::Moderate
        } else {
            EscalationLevel::Severe
        }
    }

    /// Stored label of this level.
    pub fn as_str(&self) -> (r: &'static str)
        ensures
            r@ == self.label_text(),
    {
        match self {
            EscalationLevel::NotOverdue => "无",
            EscalationLevel::Mild => "轻微",
            EscalationLevel::Moderate => "中度",
            EscalationLevel::Severe => "严重",
        }
    }

    /// Reads a stored label; unknown labels read as `NotOverdue`.
    pub fn from_str(s: &str) -> (r: EscalationLevel)
        ensures
            r == escalation_from_label(s@),
    {
        if str_eq(s, "轻微") {
            EscalationLevel::Mild
        } else if str_eq(s, "中度") {
            EscalationLevel::Moderate
        } else if str_eq(s, "严重") {
            EscalationLevel::Severe
        } else {
            EscalationLevel::NotOverdue
        }
    }

    /// Display label of this level (the stored label).
    pub fn label(&self) -> (r: &'static str)
        ensures
            r@ == self.label_text(),
    {
        match self {
            EscalationLevel::NotOverdue => "无",
            EscalationLevel::Mild => "轻微",
            EscalationLevel::Moderate => "中度",
            EscalationLevel::Severe => "严重",
        }
    }

    /// Front-end colour of this level.
    pub fn color(&self) -> (r: &'static str)
        ensures
            r@ == match *self {
                EscalationLevel::NotOverdue => "info"@,
                EscalationLevel::Mild => "blue"@,
                EscalationLevel::Moderate => "warning"@,
                EscalationLevel::Severe => "danger"@,
            },
    {
        match self {
            EscalationLevel::NotOverdue => "info",
            EscalationLevel::Mild => "blue",
            EscalationLevel::Moderate => "warning",
            EscalationLevel::Severe => "danger",
        }
    }
}

/// The escalation bands: a bill not yet due or due today is not overdue,
/// one to seven days overdue is mild, eight to fourteen moderate, and from
/// fifteen days severe.
pub proof fn lemma_escalation_bands(days: int)
    ensures
        escalation_for_days(days) == EscalationLevel::NotOverdue <==> days <= 0,
        escalation_for_days(days) == EscalationLevel::Mild <==> 1 <= days <= 7,
        escalation_for_days(days) == EscalationLevel::Moderate <==> 8 <= days <= 14,
        escalation_for_days(days) == EscalationLevel::Severe <==> days >= 15,
{
}

/// Escalation never decreases as a bill stays overdue longer.
pub proof fn lemma_escalation_monotone(d1: int, d2: int)
    requires
        d1 <= d2,
    ensures
        escalation_for_days(d1).rank() <= escalation_for_days(d2).rank(),
{
}

/// Reading back a stored escalation label gives the level that was stored.
pub proof fn lemma_escalation_label_roundtrip(l: EscalationLevel)
    ensures
        escalation_from_label(l.label_text()) == l,
{
    reveal_strlit("无");
    reveal_strlit("轻微");
    reveal_strlit("中度");
    reveal_strlit("严重");
    assert("无"@[0] != "轻微"@[0]);
    assert("无"@[0] != "中度"@[0]);
    assert("无"@[0] != "严重"@[0]);
    assert("轻微"@[0] != "中度"@[0]);
    assert("轻微"@[0] != "严重"@[0]);
    assert("中度"@[0] != "严重"@[0]);
}

/// An overdue bill found by a collection run.
#[derive(Debug, Clone)]
pub struct OverdueBill {
    pub bill_id: i64,
    pub room_id: i64,
    pub lease_id: Option<i64>,
    pub room_number: String,
    pub building: String,
    pub tenant_name: Option<String>,
    pub tenant_phone: Option<String>,
    pub year_month: String,
    pub total_amount: i64,
    pub actual_paid: i64,
    pub unpaid_amount: i64,
    pub due_date: Option<String>,
    pub overdue_days: i64,
    pub escalation_level: EscalationLevel,
}

/// Saturating `total - paid` for two `i64` amounts.
pub open spec fn saturating_unpaid(total: i64, paid: i64) -> i64 {
    if total - paid > i64::MAX {
        i64::MAX
    } else if total - paid < i64::MIN {
        i64::MIN
    } else {
        (total - paid) as i64
    }
}

/// `total - paid`, clamped to the `i64` range.
fn unpaid_of(total: i64, paid: i64) -> (r: i64)
    ensures
        r == saturating_unpaid(total, paid),
{
    let d: i128 = total as i128 - paid as i128;
    if d > i64::MAX as i128 {
        i64::MAX
    } else if d < i64::MIN as i128 {
        i64::MIN
    } else {
        d as i64
    }
}

impl OverdueBill {
    /// An unpaid bill read from storage: the unpaid amount is the total less
    /// what was paid (saturating), the overdue days start at zero and the
    /// stored escalation label is read back.
    pub fn from_unpaid_row(
        bill_id: i64,
        room_id: i64,
        lease_id: Option<i64>,
        room_number: String,
        building: String,
        tenant_name: Option<String>,
        tenant_phone: Option<String>,
        year_month: String,
        total_amount: i64,
        actual_paid: i64,
        due_date: Option<String>,
        escalation_label: &str,
    ) -> (r: OverdueBill)
        ensures
            r == (OverdueBill {
                bill_id,
                room_id,
                lease_id,
                room_number,
                building,
                tenant_name,
                tenant_phone,
                year_month,
                total_amount,
                actual_paid,
                unpaid_amount: saturating_unpaid(total_amount, actual_paid),
                due_date,
                overdue_days: 0,
                escalation_level: escalation_from_label(escalation_label@),
            }),
    {
        OverdueBill {
            bill_id,
            room_id,
            lease_id,
            room_number,
            building,
            tenant_name,
            tenant_phone,
            year_month,
            total_amount,
            actual_paid,
            unpaid_amount: unpaid_of(total_amount, actual_paid),
            due_date,
            overdue_days: 0,
            escalation_level: EscalationLevel::from_str(escalation_label),
        }
    }
}

/// A drafted collection message for one overdue bill.
#[derive(Debug, Clone)]
pub struct ReminderDraft {
    pub bill_id: i64,
    pub room_id: i64,
    pub lease_id: Option<i64>,
    pub room_number: String,
    pub building: String,
    pub tenant_name: Option<String>,
    pub tenant_phone: Option<String>,
    pub year_month: String,
    pub unpaid_amount: i64,
    pub overdue_days: i64,
    pub escalation_level: EscalationLevel,
    pub title: String,
    pub message: String,
}

/// Summary of a collection run.
#[derive(Debug, Clone)]
pub struct CollectionAgentReport {
    pub scanned_count: i32,
    pub overdue_count: i32,
    pub mild_count: i32,
    pub moderate_count: i32,
    pub severe_count: i32,
    pub reminders_created: i32,
    pub rooms_marked_violation: i32,
    pub total_unpaid: i64,
    pub drafts: Vec<ReminderDraft>,
    pub executed: bool,
}

/// Options of a collection run.
#[derive(Debug, Clone)]
pub struct RunCollectionAgentRequest {
    pub auto_escalate: bool,
    pub auto_mark_violation: bool,
    pub dry_run: bool,
    pub year_month: Option<String>,
}

impl Default for RunCollectionAgentRequest {
    /// A preview run over every month that changes nothing.
    fn default() -> (r: Self)
        ensures
            !r.auto_escalate,
            !r.auto_mark_violation,
            r.dry_run,
            r.year_month is None,
    {
        RunCollectionAgentRequest {
            auto_escalate: false,
            auto_mark_violation: false,
            dry_run: true,
            year_month: None,
        }
    }
}

} // verus!
