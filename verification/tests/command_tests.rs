use apartment_manager::commands::config_commands::{set_config, set_config_outcome};
use apartment_manager::commands::deposit_commands::refund_reason;
use apartment_manager::commands::room_commands::parse_requested_status;
use apartment_manager::db::connection::{get_database_path, init_db, DatabasePath};
use apartment_manager::db::connection_async;
use apartment_manager::db::migrations::{add_column_if_not_exists, get_schema_version, has_column};
use apartment_manager::db::statement::SqlValue;
use apartment_manager::errors::AppError;
use apartment_manager::models::RoomStatus;

#[test]
fn config_update_and_answer() {
    let st = set_config("收款二维码", "qr.png");
    assert_eq!(st.sql, "UPDATE system_config SET config_value = ?, updated_at = datetime('now') WHERE config_key = ?");
    assert!(matches!(&st.params[0], SqlValue::Text(v) if v == "qr.png"));
    assert!(matches!(&st.params[1], SqlValue::Text(k) if k == "收款二维码"));
    assert!(set_config_outcome("k", 1).success);
    let r = set_config_outcome("missing", 0);
    assert!(!r.success);
    assert_eq!(r.message.as_deref(), Some("配置项不存在: missing"));
}

#[test]
fn requested_room_status() {
    assert_eq!(parse_requested_status("维修中").unwrap(), RoomStatus::Maintenance);
    match parse_requested_status("坏掉") {
        Err(AppError::InvalidStatus(m)) => assert_eq!(m, "无效的房间状态 '坏掉': 未知房间状态"),
        other => panic!("unexpected {:?}", other),
    }
}

#[test]
fn refund_reason_defaults() {
    assert_eq!(refund_reason(None), "正常退房退还押金");
    assert_eq!(refund_reason(Some("提前退租")), "提前退租");
}

#[test]
fn schema_inspection() {
    assert_eq!(get_schema_version(false, Some("2.1.0".to_string())), "0.0.0");
    assert_eq!(get_schema_version(true, None), "0.0.0");
    assert_eq!(get_schema_version(true, Some("2.1.0".to_string())), "2.1.0");
    let cols = vec!["id".to_string(), "room_type".to_string()];
    assert!(has_column(&cols, "room_type"));
    assert!(!has_column(&cols, "version"));
    assert!(add_column_if_not_exists(&cols, "rooms", "room_type TEXT", "room_type").is_none());
    assert_eq!(
        add_column_if_not_exists(&cols, "rooms", "version INTEGER NOT NULL DEFAULT 0", "version").unwrap(),
        "ALTER TABLE rooms ADD COLUMN version INTEGER NOT NULL DEFAULT 0"
    );
}

#[test]
fn database_path_slot() {
    let mut slot = DatabasePath::new();
    match get_database_path(&slot) {
        Err(AppError::Business(m)) => assert_eq!(m, "数据库路径未初始化，请先调用 init_db"),
        other => panic!("unexpected {:?}", other),
    }
    match connection_async::get_database_path(&slot) {
        Err(AppError::Business(m)) => assert_eq!(m, "数据库路径未初始化，请先调用 init_db_async"),
        other => panic!("unexpected {:?}", other),
    }
    init_db(&mut slot, "/tmp/apartment.db".to_string()).unwrap();
    assert_eq!(get_database_path(&slot).unwrap(), "/tmp/apartment.db");
}
