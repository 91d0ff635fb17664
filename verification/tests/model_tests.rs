use apartment_manager::models::{
    BillResponse, BillStatus, BillType, DepositStatus, EscalationLevel, LeaseResponse, LeaseStatus,
    OverdueBill, PaymentMethod, PaymentResponse, RoomBillResult, RoomStatus,
    RunCollectionAgentRequest, TransactionType, ArchiveBillsResponse, ConfigResponse,
};
use apartment_manager::errors::AppError;

#[test]
fn room_status_labels_round_trip() {
    let all = [
        RoomStatus::Vacant,
        RoomStatus::Rented,
        RoomStatus::NewRented,
        RoomStatus::Staff,
        RoomStatus::Management,
        RoomStatus::Violation,
        RoomStatus::Maintenance,
        RoomStatus::PendingClean,
    ];
    for s in all {
        assert_eq!(RoomStatus::from_str(s.as_str()), Ok(s));
    }
    assert_eq!(RoomStatus::from_str("退房"), Ok(RoomStatus::PendingClean));
    assert_eq!(RoomStatus::from_str("出租"), Err("未知房间状态"));
}

#[test]
fn room_check_in_and_out() {
    assert!(RoomStatus::Vacant.allows_check_in());
    assert!(RoomStatus::PendingClean.allows_check_in());
    assert!(!RoomStatus::Rented.allows_check_in());
    assert!(RoomStatus::Violation.allows_check_out());
    assert!(!RoomStatus::Vacant.allows_check_out());
}

#[test]
fn room_state_machine() {
    assert!(RoomStatus::Vacant.can_transition_to(&RoomStatus::Rented));
    assert!(RoomStatus::Rented.can_transition_to(&RoomStatus::Violation));
    assert!(!RoomStatus::Rented.can_transition_to(&RoomStatus::Vacant));
    assert!(RoomStatus::Violation.can_transition_to(&RoomStatus::Rented));
    assert!(RoomStatus::Staff.can_transition_to(&RoomStatus::Staff));
    assert!(RoomStatus::PendingClean.can_transition_to(&RoomStatus::Rented));
    assert!(RoomStatus::PendingClean.can_transition_to(&RoomStatus::NewRented));
    assert!(!RoomStatus::Staff.can_transition_to(&RoomStatus::Rented));
}

#[test]
fn room_manual_changes() {
    assert!(RoomStatus::Vacant.allows_manual_transition_to(RoomStatus::Maintenance));
    assert!(!RoomStatus::Vacant.allows_manual_transition_to(RoomStatus::Rented));
    assert!(!RoomStatus::Rented.allows_manual_transition_to(RoomStatus::Rented));
    assert!(!RoomStatus::PendingClean.allows_manual_transition_to(RoomStatus::NewRented));
    assert!(RoomStatus::Maintenance.allows_manual_transition_to(RoomStatus::Maintenance));
}

#[test]
fn lease_status_machine() {
    assert_eq!(LeaseStatus::from_str("生效中").unwrap(), LeaseStatus::Active);
    match LeaseStatus::from_str("暂停") {
        Err(AppError::InvalidStatus(m)) => assert_eq!(m, "未知合同状态: 暂停"),
        other => panic!("unexpected {:?}", other),
    }
    assert!(LeaseStatus::Draft.can_transition_to(&LeaseStatus::Active));
    assert!(LeaseStatus::Violation.can_transition_to(&LeaseStatus::Active));
    assert!(!LeaseStatus::Archived.can_transition_to(&LeaseStatus::Active));
    assert_eq!(LeaseStatus::PendingSettle.as_str(), "待结算");
}

#[test]
fn deposit_status_from_balance() {
    assert_eq!(DepositStatus::from_balance(1000, 1000), DepositStatus::Received);
    assert_eq!(DepositStatus::from_balance(1000, 400), DepositStatus::Partial);
    assert_eq!(DepositStatus::from_balance(1000, 0), DepositStatus::Unreceived);
    assert_eq!(DepositStatus::from_balance(0, 0), DepositStatus::Unreceived);
    assert_eq!(DepositStatus::from_balance(0, 50), DepositStatus::Partial);
    assert!(DepositStatus::Received.can_transition_to(&DepositStatus::Refunded));
    assert!(!DepositStatus::Refunded.can_transition_to(&DepositStatus::Received));
    match DepositStatus::from_str("冻结") {
        Err(AppError::InvalidStatus(m)) => assert_eq!(m, "未知押金状态: 冻结"),
        other => panic!("unexpected {:?}", other),
    }
    assert_eq!(DepositStatus::from_str("没收").unwrap().as_str(), "没收");
}

#[test]
fn bill_status_rules() {
    assert_eq!(BillStatus::from_paid_amount(500, 0), BillStatus::Pending);
    assert_eq!(BillStatus::from_paid_amount(500, 200), BillStatus::Partial);
    assert_eq!(BillStatus::from_paid_amount(500, 500), BillStatus::Paid);
    assert_eq!(BillStatus::from_paid_amount(500, -5), BillStatus::Pending);
    assert!(BillStatus::Paid.is_terminal());
    assert!(!BillStatus::Partial.is_terminal());
    assert!(BillStatus::Pending.can_transition_to(&BillStatus::Voided));
    assert!(!BillStatus::Paid.can_transition_to(&BillStatus::Voided));
    match BillStatus::from_str("逾期") {
        Err(AppError::InvalidStatus(m)) => assert_eq!(m, "未知账单状态: 逾期"),
        other => panic!("unexpected {:?}", other),
    }
    assert_eq!(BillType::MidMonthCheckout.as_str(), "月中退房结算");
}

#[test]
fn escalation_levels() {
    assert_eq!(EscalationLevel::from_overdue_days(0), EscalationLevel::NotOverdue);
    assert_eq!(EscalationLevel::from_overdue_days(7), EscalationLevel::Mild);
    assert_eq!(EscalationLevel::from_overdue_days(8), EscalationLevel::Moderate);
    assert_eq!(EscalationLevel::from_overdue_days(14), EscalationLevel::Moderate);
    assert_eq!(EscalationLevel::from_overdue_days(15), EscalationLevel::Severe);
    assert_eq!(EscalationLevel::from_str("中度"), EscalationLevel::Moderate);
    assert_eq!(EscalationLevel::from_str("unknown"), EscalationLevel::NotOverdue);
    assert_eq!(EscalationLevel::Severe.as_str(), "严重");
    assert_eq!(EscalationLevel::Mild.label(), "轻微");
    assert_eq!(EscalationLevel::NotOverdue.color(), "info");
}

#[test]
fn overdue_bill_from_row() {
    let b = OverdueBill::from_unpaid_row(
        1, 2, None, "101".to_string(), "A".to_string(), None, None, "2024-05".to_string(),
        1000, 300, None, "轻微",
    );
    assert_eq!(b.unpaid_amount, 700);
    assert_eq!(b.overdue_days, 0);
    assert_eq!(b.escalation_level, EscalationLevel::Mild);
    let s = OverdueBill::from_unpaid_row(
        1, 2, None, "101".to_string(), "A".to_string(), None, None, "2024-05".to_string(),
        i64::MIN, 1, None, "",
    );
    assert_eq!(s.unpaid_amount, i64::MIN);
}

#[test]
fn responses() {
    let r = BillResponse::success(3);
    assert!(r.success && r.generated_count == 3 && r.message.is_none());
    let r = BillResponse::error("boom".to_string());
    assert!(!r.success && r.generated_count == 0);
    assert_eq!(LeaseResponse::success_with_id(9).lease_id, Some(9));
    assert_eq!(PaymentResponse::success(4).payment_id, Some(4));
    assert!(!PaymentResponse::error("e".to_string()).success);
    assert_eq!(ArchiveBillsResponse::success(2).archived_count, 2);
    assert!(ConfigResponse::success().success);
    let skipped = RoomBillResult::skipped(5, "205".to_string(), "无有效合同");
    assert_eq!(skipped.skip_reason.as_deref(), Some("无有效合同"));
    assert_eq!(skipped.total, 0);
    let ok = RoomBillResult::success(5, "205".to_string(), 77, 1, 2, 3, 4, 5, 6, None, 7, 28);
    assert_eq!(ok.bill_id, Some(77));
    assert_eq!(ok.total, 28);
}

#[test]
fn labels_of_methods_and_transactions() {
    assert_eq!(PaymentMethod::Wechat.as_str(), "微信");
    assert_eq!(TransactionType::Receive.as_str(), "收取");
    let d = RunCollectionAgentRequest::default();
    assert!(d.dry_run && !d.auto_escalate && !d.auto_mark_violation && d.year_month.is_none());
}
