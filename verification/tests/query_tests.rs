use apartment_manager::db::mapping::{
    user_from_row, get_room_status_nullable, map_bill_row, map_deposit_row, room_from_row, tenant_from_row,
};
use apartment_manager::db::queries::{
    activate_lease, confirm_bill_paid_tx, get_deposit_ledger, list_bills, list_payments,
    partial_pay_bill_tx, query_bills_tx, regenerate_voided_bill_tx, update_lease_status,
    update_room_with_version_check_tx, update_tenant, version_check_outcome, void_bill_tx,
    BillDetailRow, BillForAction, BillRow, MeterReadingRow,
};
use apartment_manager::db::queries;
use apartment_manager::db::queries_async;
use apartment_manager::db::row::{names_equal, ColumnValue, Row, RowError};
use apartment_manager::db::statement::SqlValue;
use apartment_manager::errors::AppError;
use apartment_manager::models::{BillStatus, EscalationLevel, RoomStatus};

fn bill(status: &str, total: i64, paid: i64) -> BillForAction {
    BillForAction { id: 1, room_id: 2, total_amount: total, actual_paid: paid, status: status.to_string() }
}

fn int_of(v: &SqlValue) -> i64 {
    match v {
        SqlValue::Integer(i) => *i,
        other => panic!("not an integer: {:?}", other),
    }
}

fn text(v: &SqlValue) -> String {
    match v {
        SqlValue::Text(t) => t.clone(),
        other => panic!("not a text: {:?}", other),
    }
}

fn row(cols: Vec<(&str, ColumnValue)>) -> Row {
    Row { columns: cols.into_iter().map(|(n, v)| (n.to_string(), v)).collect() }
}

fn t(s: &str) -> ColumnValue {
    ColumnValue::Text(s.to_string())
}

#[test]
fn bill_actions_follow_the_state_machine() {
    let u = confirm_bill_paid_tx(Some(&bill("部分支付", 900, 100))).unwrap();
    assert_eq!(u.status, BillStatus::Paid);
    assert_eq!(u.actual_paid, 900);
    match confirm_bill_paid_tx(Some(&bill("已支付", 900, 900))) {
        Err(AppError::InvalidStatus(m)) => assert_eq!(m, "账单当前状态不允许确认支付"),
        other => panic!("unexpected {:?}", other),
    }
    assert!(matches!(confirm_bill_paid_tx(None), Err(AppError::InvalidStatus(_))));

    let u = partial_pay_bill_tx(Some(&bill("待缴费", 900, 100)), 300).unwrap();
    assert_eq!((u.status, u.actual_paid), (BillStatus::Partial, 400));
    let u = partial_pay_bill_tx(Some(&bill("部分支付", 900, 400)), 500).unwrap();
    assert_eq!((u.status, u.actual_paid), (BillStatus::Paid, 900));
    match partial_pay_bill_tx(Some(&bill("已作废", 900, 0)), 1) {
        Err(AppError::InvalidStatus(m)) => assert_eq!(m, "账单当前状态不允许部分支付"),
        other => panic!("unexpected {:?}", other),
    }

    let u = void_bill_tx(Some(&bill("待缴费", 900, 50))).unwrap();
    assert_eq!((u.status, u.actual_paid), (BillStatus::Voided, 50));
    match void_bill_tx(Some(&bill("已支付", 900, 900))) {
        Err(AppError::InvalidStatus(m)) => assert_eq!(m, "账单当前状态不允许作废"),
        other => panic!("unexpected {:?}", other),
    }
}

#[test]
fn voided_bill_regenerates_as_pending() {
    let voided = void_bill_tx(Some(&bill("部分支付", 900, 300))).unwrap();
    let again = bill(voided.status.as_str(), 900, voided.actual_paid);
    let u = regenerate_voided_bill_tx(Some(&again)).unwrap();
    assert_eq!((u.status, u.actual_paid), (BillStatus::Pending, 0));
    match regenerate_voided_bill_tx(Some(&bill("待缴费", 1, 0))) {
        Err(AppError::InvalidStatus(m)) => assert_eq!(m, "只有已作废的账单才能重新生成"),
        other => panic!("unexpected {:?}", other),
    }
    assert!(queries_async::regenerate_voided_bill(None).is_err());
}

#[test]
fn versioned_room_update_statement() {
    let st = update_room_with_version_check_tx(7, 3, Some(120000), None, None, Some(55), Some("单间")).unwrap();
    assert_eq!(
        st.sql,
        "UPDATE rooms SET base_rent = ?, electric_meter_current = ?, room_type = ?, version = version + 1, updated_at = datetime('now') WHERE id = ? AND version = ?"
    );
    assert_eq!(st.params.len(), 5);
    assert_eq!(int_of(&st.params[0]), 120000);
    assert_eq!(int_of(&st.params[1]), 55);
    assert_eq!(text(&st.params[2]), "单间");
    assert_eq!(int_of(&st.params[3]), 7);
    assert_eq!(int_of(&st.params[4]), 3);
    assert!(update_room_with_version_check_tx(7, 3, None, None, None, None, None).is_none());
}

#[test]
fn pooled_room_update_binds_zero() {
    let st = queries_async::update_room_with_version_check(7, 3, None, Some(800), Some(12), None, None).unwrap();
    assert_eq!(
        st.sql,
        "UPDATE rooms SET property_fee = ?, water_meter_current = ?, version = version + 1, updated_at = datetime('now') WHERE id = ? AND version = ?"
    );
    let values: Vec<i64> = st.params.iter().map(int_of).collect();
    assert_eq!(values, vec![0, 0, 7, 3]);
}

#[test]
fn version_check_outcomes() {
    assert_eq!(version_check_outcome(4, 1, true).unwrap(), 1);
    assert!(matches!(version_check_outcome(4, 0, true), Err(AppError::ConcurrentModification)));
    match version_check_outcome(4, 0, false) {
        Err(AppError::NotFound { entity, id }) => {
            assert_eq!(entity, "房间");
            assert_eq!(id, 4);
        }
        other => panic!("unexpected {:?}", other),
    }
    assert!(matches!(queries_async::version_check_outcome(0), Err(AppError::ConcurrentModification)));
    assert_eq!(queries_async::version_check_outcome(2).unwrap(), 2);
}

#[test]
fn tenant_update_statements() {
    let st = update_tenant(9, Some("王五"), None, Some("139"), None, Some("")).unwrap();
    assert_eq!(
        st.sql,
        "UPDATE tenants SET name = ?, phone2 = ?, emergency_phone = ?, updated_at = datetime('now') WHERE id = ?"
    );
    assert_eq!(text(&st.params[0]), "王五");
    assert_eq!(text(&st.params[2]), "");
    assert_eq!(int_of(&st.params[3]), 9);
    assert!(update_tenant(9, None, None, None, None, None).is_none());

    let st = queries_async::update_tenant(9, None, Some("138"), None, Some("李四"), None).unwrap();
    assert_eq!(
        st.sql,
        "UPDATE tenants SET phone = ?1, emergency_contact = ?2, updated_at = datetime('now') WHERE id = ?3"
    );
    assert_eq!(text(&st.params[1]), "李四");
    assert_eq!(int_of(&st.params[2]), 9);
}

#[test]
fn lease_status_statements() {
    let st = update_lease_status(4, "违约中", Some("生效中"));
    assert_eq!(st.sql, "UPDATE leases SET status = ?, updated_at = datetime('now') WHERE id = ? AND status = ?");
    assert_eq!(text(&st.params[2]), "生效中");
    let st = update_lease_status(4, "已退房", None);
    assert_eq!(st.sql, "UPDATE leases SET status = ?, updated_at = datetime('now') WHERE id = ?");
    assert_eq!(st.params.len(), 2);
    let st = activate_lease(6);
    assert_eq!(text(&st.params[0]), "生效中");
    assert_eq!(int_of(&st.params[1]), 6);
    assert_eq!(text(&st.params[2]), "草稿");
}

#[test]
fn listing_statements() {
    let st = list_bills(Some("2024-03".to_string()));
    assert_eq!(st.sql, "SELECT * FROM monthly_bills WHERE is_deleted = 0 AND year_month = ? ORDER BY room_id");
    assert_eq!(text(&st.params[0]), "2024-03");
    assert!(list_bills(None).params.is_empty());
    assert_eq!(int_of(&list_payments(Some(3)).params[0]), 3);
    assert_eq!(list_payments(None).sql, "SELECT * FROM payments WHERE is_deleted = 0 ORDER BY created_at DESC");
    let by_lease = get_deposit_ledger(Some(1), Some(2));
    assert!(by_lease.sql.contains("WHERE dl.lease_id = ?"));
    assert_eq!(int_of(&by_lease.params[0]), 1);
    let by_room = get_deposit_ledger(None, Some(2));
    assert!(by_room.sql.contains("WHERE dl.room_id = ?"));
    let latest = get_deposit_ledger(None, None);
    assert!(latest.sql.ends_with("LIMIT 100"));
    assert!(latest.params.is_empty());
}

#[test]
fn bill_page_query_with_filters() {
    let q = query_bills_tx(Some(2024), Some(3), Some(12), Some("待缴费"), 3, 20);
    assert_eq!(
        q.count.sql,
        "SELECT COUNT(*) FROM monthly_bills mb WHERE mb.is_deleted = 0 AND mb.year_month = '2024-03' AND mb.room_id = ? AND mb.status = ?"
    );
    assert_eq!(int_of(&q.count.params[0]), 12);
    assert_eq!(text(&q.count.params[1]), "待缴费");
    assert!(q.page.sql.contains("WHERE mb.is_deleted = 0 AND mb.year_month = '2024-03' AND mb.room_id = ? AND mb.status = ? ORDER BY mb.year_month DESC, mb.room_id LIMIT ? OFFSET ?"));
    assert_eq!(int_of(&q.page.params[2]), 20);
    assert_eq!(int_of(&q.page.params[3]), 40);

    let q = query_bills_tx(Some(7), None, None, None, 1, 10);
    assert_eq!(q.count.sql, "SELECT COUNT(*) FROM monthly_bills mb WHERE mb.is_deleted = 0 AND mb.year_month LIKE '0007-%'");
    assert!(q.count.params.is_empty());
    assert_eq!(int_of(&q.page.params[1]), 0);

    let q = query_bills_tx(None, Some(5), None, None, 2, 5);
    assert_eq!(q.count.sql, "SELECT COUNT(*) FROM monthly_bills mb WHERE mb.is_deleted = 0");
}

#[test]
fn pooled_bill_page_filters_like_the_connection_layer() {
    let q = queries_async::query_bills(Some(2023), Some(11), Some(1), Some("已支付"), 2, 15);
    assert_eq!(
        q.count.sql,
        "SELECT COUNT(*) as cnt FROM monthly_bills mb WHERE mb.is_deleted = 0 AND mb.year_month = '2023-11' AND mb.room_id = ? AND mb.status = ?"
    );
    assert_eq!(int_of(&q.count.params[0]), 1);
    assert_eq!(text(&q.count.params[1]), "已支付");
    let sync = query_bills_tx(Some(2023), Some(11), Some(1), Some("已支付"), 2, 15);
    assert_eq!(q.page.sql, sync.page.sql);
    assert_eq!(text(&q.page.params[1]), "已支付");
    assert_eq!(int_of(&q.page.params[2]), 15);
    assert_eq!(int_of(&q.page.params[3]), 15);
    let plain = queries_async::query_bills(None, None, None, None, 1, 10);
    assert!(plain.count.params.is_empty());
}

#[test]
fn violation_flow() {
    assert!(queries_async::can_mark_violation(Some("在租")));
    assert!(queries_async::can_mark_violation(Some("新租")));
    assert!(!queries_async::can_mark_violation(Some("空房")));
    assert!(!queries_async::can_mark_violation(None));

    let w = queries_async::mark_room_violation(3, Some(8), "在租").unwrap();
    assert_eq!(w.room_update.sql, "UPDATE rooms SET status = ?, updated_at = datetime('now') WHERE id = ?");
    assert_eq!(text(&w.room_update.params[0]), "违约");
    assert_eq!(int_of(&w.status_log.params[1]), 8);
    assert_eq!(text(&w.status_log.params[2]), "在租");
    let w = queries_async::mark_room_violation(3, None, "新租").unwrap();
    assert!(matches!(w.status_log.params[1], SqlValue::Null));

    match queries_async::mark_room_violation(3, None, "空房") {
        Err(AppError::InvalidStatus(m)) => assert_eq!(m, "房间状态为'空房'，不允许标记为违约"),
        other => panic!("unexpected {:?}", other),
    }
    match queries_async::mark_room_violation(3, None, "坏") {
        Err(AppError::InvalidStatus(m)) => {
            assert_eq!(m, "房间状态无效: 状态不允许: 房间状态解析失败: 未知房间状态")
        }
        other => panic!("unexpected {:?}", other),
    }

    let u = queries_async::lease_violation_update(8, "生效中").unwrap().unwrap();
    assert_eq!(text(&u.params[0]), "违约中");
    assert!(queries_async::lease_violation_update(8, "草稿").unwrap().is_none());
    match queries_async::lease_violation_update(8, "?") {
        Err(AppError::InvalidStatus(m)) => assert_eq!(m, "合同状态无效: ?"),
        other => panic!("unexpected {:?}", other),
    }
}

#[test]
fn pooled_room_status_parsing() {
    assert_eq!(queries_async::parse_room_status("维修中").unwrap(), RoomStatus::Maintenance);
    match queries_async::parse_room_status("x") {
        Err(AppError::InvalidStatus(m)) => assert_eq!(m, "房间状态解析失败: 未知房间状态"),
        other => panic!("unexpected {:?}", other),
    }
    assert_eq!(queries_async::parse_room_status_nullable(None).unwrap(), None);
    assert_eq!(queries_async::parse_room_status_nullable(Some(String::new())).unwrap(), None);
    assert_eq!(
        queries_async::parse_room_status_nullable(Some("员工".to_string())).unwrap(),
        Some(RoomStatus::Staff)
    );
}

#[test]
fn collection_agent_statements() {
    let st = queries_async::update_bill_escalation_at(5, &EscalationLevel::Severe, "2024-06-01 08:00:00");
    assert_eq!(text(&st.params[0]), "严重");
    assert_eq!(text(&st.params[1]), "2024-06-01 08:00:00");
    assert_eq!(int_of(&st.params[2]), 5);
    let st = queries_async::update_bill_escalation(5, &EscalationLevel::Mild);
    assert_eq!(text(&st.params[1]).len(), 19);
    let st = queries_async::create_collection_reminder_on(2, None, "催租", "请缴费", "2024-06-01");
    assert!(st.sql.starts_with("INSERT INTO reminders"));
    assert!(matches!(st.params[1], SqlValue::Null));
    assert_eq!(text(&st.params[4]), "2024-06-01");
    let st = queries_async::create_collection_reminder(2, Some(4), "t", "m");
    assert_eq!(text(&st.params[4]).len(), 10);
    let st = queries_async::get_unpaid_bills(Some("2024-05"));
    assert_eq!(text(&st.params[0]), "2024-05");
    assert_eq!(text(&st.params[1]), "2024-05");
    assert!(matches!(queries_async::get_unpaid_bills(None).params[0], SqlValue::Null));
}

#[test]
fn row_names_ignore_ascii_case() {
    assert!(names_equal("Room_ID", "room_id"));
    assert!(!names_equal("room_id", "room_idx"));
    let r = row(vec![("ID", ColumnValue::Integer(4)), ("id", ColumnValue::Integer(5))]);
    assert_eq!(r.get_i64("id").unwrap(), 4);
    assert!(matches!(r.get_i64("name"), Err(RowError::NoSuchColumn(n)) if n == "name"));
    assert!(matches!(r.get_text("id"), Err(RowError::WrongType(_))));
    let big = row(vec![("n", ColumnValue::Integer(1 << 40))]);
    assert!(big.get_i32("n").is_err());
    assert_eq!(big.get_i64("n").unwrap(), 1 << 40);
}

#[test]
fn rows_map_to_records() {
    let r = row(vec![
        ("id", ColumnValue::Integer(1)),
        ("name", t("张三")),
        ("phone", t("138")),
        ("phone2", ColumnValue::Null),
        ("emergency_contact", ColumnValue::Null),
        ("emergency_phone", t("139")),
        ("is_deleted", ColumnValue::Integer(0)),
        ("created_at", t("2024-01-01")),
        ("updated_at", ColumnValue::Null),
    ]);
    let tenant = tenant_from_row(&r).unwrap();
    assert_eq!(tenant.name, "张三");
    assert!(tenant.phone2.is_none());
    assert_eq!(tenant.emergency_phone.as_deref(), Some("139"));
    assert!(!tenant.is_deleted);

    let missing_phone = row(vec![("id", ColumnValue::Integer(1)), ("name", t("x"))]);
    assert!(tenant_from_row(&missing_phone).is_err());
}

#[test]
fn room_rows_default_the_version() {
    let mut cols = vec![
        ("id", ColumnValue::Integer(3)),
        ("room_number", t("301")),
        ("floor", ColumnValue::Integer(3)),
        ("building", t("A")),
        ("room_type", t("单间")),
        ("base_rent", ColumnValue::Integer(150000)),
        ("property_fee", ColumnValue::Integer(5000)),
        ("deposit", ColumnValue::Integer(150000)),
        ("status", t("在租")),
        ("water_meter_current", ColumnValue::Integer(10)),
        ("electric_meter_current", ColumnValue::Integer(20)),
        ("is_deleted", ColumnValue::Integer(0)),
        ("created_at", ColumnValue::Null),
        ("updated_at", ColumnValue::Null),
    ];
    let room = room_from_row(&row(cols.clone())).unwrap();
    assert_eq!(room.version, 0);
    assert_eq!(room.status, RoomStatus::Rented);
    assert_eq!(room.floor, Some(3));
    cols.push(("version", ColumnValue::Integer(6)));
    assert_eq!(room_from_row(&row(cols.clone())).unwrap().version, 6);
    cols[8] = ("status", t("出租中"));
    assert!(room_from_row(&row(cols)).is_err());
}

#[test]
fn nullable_room_status_column() {
    let r = row(vec![("previous_status", ColumnValue::Null), ("s", t("违约")), ("b", ColumnValue::Other)]);
    assert_eq!(get_room_status_nullable(&r, "previous_status").unwrap(), None);
    assert_eq!(get_room_status_nullable(&r, "s").unwrap(), Some(RoomStatus::Violation));
    assert!(get_room_status_nullable(&r, "b").is_err());
    assert!(get_room_status_nullable(&r, "absent").is_err());
}

#[test]
fn small_rows_map() {
    let r = row(vec![
        ("id", ColumnValue::Integer(1)),
        ("room_id", ColumnValue::Integer(2)),
        ("total_amount", ColumnValue::Integer(900)),
        ("actual_paid", ColumnValue::Integer(0)),
        ("status", t("待缴费")),
    ]);
    let b = BillForAction::from_row(&r).unwrap();
    assert_eq!(b.total_amount, 900);
    assert_eq!(b.status, "待缴费");

    let r = row(vec![
        ("id", ColumnValue::Integer(1)),
        ("room_id", ColumnValue::Integer(2)),
        ("year_month", t("2024-02")),
        ("total_amount", ColumnValue::Integer(900)),
        ("actual_paid", ColumnValue::Integer(100)),
        ("status", t("部分支付")),
        ("due_date", ColumnValue::Null),
        ("created_at", t("2024-02-01")),
        ("room_number", t("101")),
        ("building", t("A")),
        ("tenant_name", ColumnValue::Null),
    ]);
    let b = BillRow::from_row(&r).unwrap();
    assert_eq!(b.actual_paid, 100);
    assert!(b.tenant_name.is_none());

    let r = row(vec![
        ("id", ColumnValue::Integer(1)),
        ("room_id", ColumnValue::Integer(2)),
        ("year", ColumnValue::Integer(2024)),
        ("month", ColumnValue::Integer(2)),
        ("water_reading", ColumnValue::Integer(10)),
        ("electric_reading", ColumnValue::Integer(20)),
        ("reading_date", t("2024-02-28")),
        ("operator", ColumnValue::Null),
        ("is_replacement", ColumnValue::Integer(1)),
        ("is_deleted", ColumnValue::Integer(0)),
    ]);
    let m = MeterReadingRow::from_row(&r).unwrap();
    assert!(m.is_replacement);
    assert_eq!(m.month, 2);
}

#[test]
fn bill_detail_rows_default_fees() {
    let mut cols: Vec<(&str, ColumnValue)> = vec![
        ("id", ColumnValue::Integer(1)),
        ("room_id", ColumnValue::Integer(2)),
        ("lease_id", ColumnValue::Integer(3)),
        ("year_month", t("2024-02")),
        ("rent_fee", ColumnValue::Integer(1000)),
        ("property_fee", ColumnValue::Integer(50)),
        ("water_fee", ColumnValue::Integer(30)),
        ("electric_fee", ColumnValue::Integer(40)),
        ("management_fee", ColumnValue::Integer(10)),
        ("previous_balance", ColumnValue::Integer(0)),
        ("total_amount", ColumnValue::Integer(1130)),
        ("actual_paid", ColumnValue::Integer(0)),
        ("status", t("待缴费")),
        ("due_date", ColumnValue::Null),
        ("created_at", ColumnValue::Null),
        ("water_reading_prev", ColumnValue::Integer(1)),
        ("water_reading_current", ColumnValue::Integer(2)),
        ("electric_reading_prev", ColumnValue::Integer(3)),
        ("electric_reading_current", ColumnValue::Integer(4)),
        ("room_number", t("101")),
        ("building", t("A")),
        ("tenant_name", t("张三")),
        ("tenant_phone", ColumnValue::Null),
    ];
    let d = BillDetailRow::from_row(&row(cols.clone())).unwrap();
    assert_eq!(d.repair_fee, 0);
    assert_eq!(d.misc_fee, 0);
    assert!(d.misc_fee_remark.is_none());
    cols.push(("misc_fee", ColumnValue::Integer(15)));
    cols.push(("misc_fee_remark", t("钥匙")));
    let d = BillDetailRow::from_row(&row(cols)).unwrap();
    assert_eq!(d.misc_fee, 15);
    assert_eq!(d.misc_fee_remark.as_deref(), Some("钥匙"));
}

#[test]
fn ledger_and_bill_rows_need_their_columns() {
    let r = row(vec![("id", ColumnValue::Integer(1))]);
    assert!(map_deposit_row(&r).is_err());
    assert!(map_bill_row(&r).is_err());
}

#[test]
fn read_statements() {
    let st = queries::list_rooms();
    assert!(st.sql.contains("ROW_NUMBER() OVER (PARTITION BY room_id ORDER BY start_date DESC)"));
    assert_eq!(text(&st.params[0]), "生效中");
    let st = queries::get_room_response_by_id(5);
    assert_eq!(text(&st.params[0]), "生效中");
    assert_eq!(int_of(&st.params[1]), 5);
    let st = queries::create_tenant_full("a", "1", None, Some("b"), None);
    assert!(matches!(st.params[2], SqlValue::Null));
    assert_eq!(text(&st.params[3]), "b");
    let st = queries::create_lease(1, 2, "2024-01-01", 100, 10, 200, None, Some("2024-12-31"));
    assert_eq!(text(&st.params[8]), "草稿");
    assert_eq!(text(&st.params[4]), "2024-12-31");
    let st = queries::get_meter_reading_by_room_month_tx(3, 2024, 7);
    let values: Vec<i64> = st.params.iter().map(int_of).collect();
    assert_eq!(values, vec![3, 2024, 7]);
    let st = queries::update_room_meters_tx(3, 10, 20);
    let values: Vec<i64> = st.params.iter().map(int_of).collect();
    assert_eq!(values, vec![10, 20, 3]);
    assert_eq!(queries::get_room_by_id_tx(4).sql, "SELECT * FROM rooms WHERE id = ? AND is_deleted = 0");
    assert_eq!(text(&queries::archive_bills_by_month_tx("2024-01").params[0]), "2024-01");
    assert!(queries::list_archived_year_months().params.is_empty());
}

#[test]
fn account_rows_read_by_position() {
    let r = row(vec![
        ("id", ColumnValue::Integer(3)),
        ("username", t("admin")),
        ("password_hash", t("$2b$12$x")),
        ("role", t("admin")),
        ("display_name", ColumnValue::Null),
        ("is_active", ColumnValue::Integer(2)),
    ]);
    let u = user_from_row(&r).unwrap();
    assert_eq!(u.id, 3);
    assert!(u.display_name.is_none());
    assert!(!u.is_active);
    let short = row(vec![("id", ColumnValue::Integer(3))]);
    assert!(user_from_row(&short).is_err());
    let st = apartment_manager::auth::find_active_user("bob");
    assert!(st.sql.ends_with("WHERE username = ? AND is_active = 1"));
    assert_eq!(text(&st.params[0]), "bob");
    assert!(apartment_manager::auth::list_users().params.is_empty());
}
