use apartment_manager::db::migrations::{run_incremental_migrations, run_migrations, version_less_than, MigrationPlan};
use apartment_manager::models::{BillStatus, DepositStatus, EscalationLevel, LeaseStatus, RoomStatus};

const ROOMS: [RoomStatus; 8] = [
    RoomStatus::Vacant,
    RoomStatus::Rented,
    RoomStatus::NewRented,
    RoomStatus::Staff,
    RoomStatus::Management,
    RoomStatus::Violation,
    RoomStatus::Maintenance,
    RoomStatus::PendingClean,
];

#[test]
fn manual_changes_are_machine_moves_and_reversible() {
    for a in ROOMS {
        for b in ROOMS {
            if a.allows_manual_transition_to(b) {
                assert!(a.can_transition_to(&b));
            }
            assert_eq!(a.allows_manual_transition_to(b), b.allows_manual_transition_to(a));
        }
    }
}

#[test]
fn check_in_and_check_out_never_both() {
    for s in ROOMS {
        assert!(!(s.allows_check_in() && s.allows_check_out()));
        assert!(s.can_transition_to(&s));
        if s.allows_check_in() {
            assert!(s.can_transition_to(&RoomStatus::NewRented));
            assert!(s.can_transition_to(&RoomStatus::Rented));
        }
        if s.allows_check_out() {
            assert!(s.can_transition_to(&RoomStatus::PendingClean));
        }
    }
}

#[test]
fn final_bills_accept_nothing() {
    let all = [BillStatus::Pending, BillStatus::Partial, BillStatus::Paid, BillStatus::Voided];
    for s in all {
        if s.is_terminal() {
            for t in all {
                assert!(!s.can_transition_to(&t));
            }
        }
        assert_eq!(BillStatus::from_str(s.as_str()).unwrap(), s);
    }
}

#[test]
fn lease_and_deposit_labels_round_trip() {
    for s in [LeaseStatus::Draft, LeaseStatus::Active, LeaseStatus::Violation, LeaseStatus::PendingSettle, LeaseStatus::CheckedOut, LeaseStatus::Archived, LeaseStatus::Cancelled] {
        assert_eq!(LeaseStatus::from_str(s.as_str()).unwrap(), s);
    }
    for s in [DepositStatus::Unreceived, DepositStatus::Received, DepositStatus::Partial, DepositStatus::Refunded, DepositStatus::Forfeited] {
        assert_eq!(DepositStatus::from_str(s.as_str()).unwrap(), s);
    }
}

#[test]
fn escalation_grows_with_overdue_days() {
    let rank = |l: EscalationLevel| match l {
        EscalationLevel::NotOverdue => 0,
        EscalationLevel::Mild => 1,
        EscalationLevel::Moderate => 2,
        EscalationLevel::Severe => 3,
    };
    let mut last = 0;
    for d in -3..40 {
        let r = rank(EscalationLevel::from_overdue_days(d));
        assert!(r >= last);
        last = r;
        let l = EscalationLevel::from_overdue_days(d);
        assert_eq!(EscalationLevel::from_str(l.as_str()), l);
    }
}

#[test]
fn version_order_is_strict_and_total() {
    let vs = ["0.0.0", "1.9.9", "2.0.2", "2.0.10", "2.1", "2.1.0", "3"];
    for a in vs {
        assert!(!version_less_than(a, a));
        for b in vs {
            assert!(!(version_less_than(a, b) && version_less_than(b, a)));
            if a != b {
                assert!(version_less_than(a, b) || version_less_than(b, a));
            }
            for c in vs {
                if version_less_than(a, b) && version_less_than(b, c) {
                    assert!(version_less_than(a, c));
                }
            }
        }
    }
}

#[test]
fn later_versions_run_a_subset_of_steps() {
    let early = run_incremental_migrations("2.0.3", true);
    let late = run_incremental_migrations("2.1.0", true);
    for s in &late {
        assert!(early.contains(s));
    }
    assert!(matches!(run_migrations("2.1.1"), MigrationPlan::UpToDate));
    assert!(matches!(run_migrations("2.1.2"), MigrationPlan::NewerThanTarget));
    assert!(matches!(run_migrations("2.2.0"), MigrationPlan::NewerThanTarget));
}
