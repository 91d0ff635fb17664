use apartment_manager::auth::{
    count_active_admins, count_username, delete_user_statement, hash_password, insert_user,
    permission_grant, stamp_last_login, user_role,
};
use apartment_manager::db::migrations::MigrationStep;
use apartment_manager::db::queries::{
    archive_bills_by_month_tx, get_archived_bills_count_tx, restore_bills_by_month_tx,
};
use apartment_manager::db::queries_async::update_bill_escalation;
use apartment_manager::db::schema_steps::{
    migration_step_statements, refusal_tolerated, SchemaState, SchemaStatement, SchemaTable,
    BILL_ARCHIVE_COLUMNS_SQL, COLLECTION_GRANT_FACT, CONFIG_INSERT_SQL, MISC_FEE_COLUMNS_SQL,
    PAYMENT_QR_CONFIG_KEY, REMINDER_SOFT_DELETE_SQL, ROOM_TYPE_COLUMN_SQL,
};
use apartment_manager::db::statement::SqlValue;
use apartment_manager::models::collection_agent::EscalationLevel;
use apartment_manager::text::text_contains;

fn empty_state() -> SchemaState {
    SchemaState {
        room_columns: vec!["id".to_string(), "room_number".to_string()],
        bill_columns: vec!["id".to_string(), "status".to_string()],
        summary_columns: vec!["id".to_string()],
        config_keys: vec![],
        has_collection_grant: false,
    }
}

/// Applies what the statements add to the state, as the database would.
fn apply(state: &mut SchemaState, statements: &[SchemaStatement]) {
    for st in statements {
        match st {
            SchemaStatement::AddColumns { table, columns, .. } => {
                let target = match table {
                    SchemaTable::Rooms => &mut state.room_columns,
                    SchemaTable::MonthlyBills => &mut state.bill_columns,
                    SchemaTable::MonthlySummaryCache => &mut state.summary_columns,
                    SchemaTable::Reminders => continue,
                };
                for c in columns {
                    if !target.contains(c) {
                        target.push(c.clone());
                    }
                }
            }
            SchemaStatement::InsertConfig { key, .. } => {
                if !state.config_keys.contains(key) {
                    state.config_keys.push(key.clone());
                }
            }
            SchemaStatement::IfMissing { fact, .. } => {
                if fact == COLLECTION_GRANT_FACT {
                    state.has_collection_grant = true;
                }
            }
        }
    }
}

fn checked_count(statements: &[SchemaStatement]) -> usize {
    statements
        .iter()
        .filter(|s| !matches!(s, SchemaStatement::IfMissing { fact, sql } if fact == sql))
        .count()
}

#[test]
fn misc_fee_columns_added_only_when_missing() {
    let mut state = empty_state();
    let first = migration_step_statements(MigrationStep::AddMiscFee, &state);
    assert_eq!(first.len(), 1);
    match &first[0] {
        SchemaStatement::AddColumns { table, columns, sql, tolerate_duplicate } => {
            assert_eq!(*table, SchemaTable::MonthlyBills);
            assert_eq!(columns, &vec!["misc_fee".to_string(), "misc_fee_remark".to_string()]);
            assert_eq!(sql, MISC_FEE_COLUMNS_SQL);
            assert!(!tolerate_duplicate);
        }
        _ => panic!("expected a column statement"),
    }
    apply(&mut state, &first);
    assert!(migration_step_statements(MigrationStep::AddMiscFee, &state).is_empty());
}

#[test]
fn misc_fee_check_looks_at_the_first_column_only() {
    let mut state = empty_state();
    state.bill_columns.push("misc_fee".to_string());
    assert!(migration_step_statements(MigrationStep::AddMiscFee, &state).is_empty());
    let mut other = empty_state();
    other.bill_columns.push("misc_fee_remark".to_string());
    assert_eq!(migration_step_statements(MigrationStep::AddMiscFee, &other).len(), 1);
}

#[test]
fn room_type_added_once() {
    let mut state = empty_state();
    let first = migration_step_statements(MigrationStep::EnsureRoomType, &state);
    assert_eq!(first.len(), 1);
    match &first[0] {
        SchemaStatement::AddColumns { sql, .. } => assert_eq!(sql, ROOM_TYPE_COLUMN_SQL),
        _ => panic!("expected a column statement"),
    }
    apply(&mut state, &first);
    assert!(migration_step_statements(MigrationStep::AddRoomType, &state).is_empty());
}

#[test]
fn reminder_soft_delete_always_runs_and_tolerates_duplicates() {
    let state = empty_state();
    let st = migration_step_statements(MigrationStep::AddReminderSoftDelete, &state);
    assert_eq!(st.len(), 1);
    match &st[0] {
        SchemaStatement::AddColumns { sql, tolerate_duplicate, .. } => {
            assert_eq!(sql, REMINDER_SOFT_DELETE_SQL);
            assert!(*tolerate_duplicate);
        }
        _ => panic!("expected a column statement"),
    }
    assert!(refusal_tolerated(&st[0], "duplicate column name: is_deleted"));
    assert!(!refusal_tolerated(&st[0], "no such table: reminders"));
}

#[test]
fn checked_column_refusal_is_not_tolerated() {
    let st = migration_step_statements(MigrationStep::AddBillArchive, &empty_state());
    match &st[0] {
        SchemaStatement::AddColumns { sql, .. } => assert_eq!(sql, BILL_ARCHIVE_COLUMNS_SQL),
        _ => panic!("expected a column statement"),
    }
    assert!(!refusal_tolerated(&st[0], "duplicate column name: is_archived"));
}

#[test]
fn payment_qr_config_inserted_only_when_missing() {
    let mut state = empty_state();
    let st = migration_step_statements(MigrationStep::AddPaymentQrConfig, &state);
    assert_eq!(st.len(), 1);
    state.config_keys.push(PAYMENT_QR_CONFIG_KEY.to_string());
    assert!(migration_step_statements(MigrationStep::AddPaymentQrConfig, &state).is_empty());
}

#[test]
fn collection_agent_step_then_rerun() {
    let mut state = empty_state();
    let first = migration_step_statements(MigrationStep::AddCollectionAgent, &state);
    // two columns, the index, seven settings and the grants
    assert_eq!(first.len(), 11);
    match &first[3] {
        SchemaStatement::InsertConfig { key, statement } => {
            assert_eq!(key, "轻微逾期天数阈值");
            assert_eq!(statement.sql, CONFIG_INSERT_SQL);
            assert_eq!(statement.params.len(), 4);
            assert!(matches!(&statement.params[1], SqlValue::Text(v) if v == "7"));
        }
        _ => panic!("expected a configuration insert"),
    }
    apply(&mut state, &first);
    let again = migration_step_statements(MigrationStep::AddCollectionAgent, &state);
    // only the index statement, which changes nothing where the index exists
    assert_eq!(again.len(), 1);
    assert_eq!(checked_count(&again), 0);
}

#[test]
fn operations_assistant_step_then_rerun() {
    let mut state = empty_state();
    let first = migration_step_statements(MigrationStep::AddOperationsAssistant, &state);
    assert_eq!(first.len(), 5);
    apply(&mut state, &first);
    assert!(migration_step_statements(MigrationStep::AddOperationsAssistant, &state).is_empty());
}

#[test]
fn users_and_permissions_statements_are_if_missing() {
    let st = migration_step_statements(MigrationStep::CreateUsersAndPermissions, &empty_state());
    assert_eq!(st.len(), 8);
    assert_eq!(checked_count(&st), 0);
    assert!(migration_step_statements(MigrationStep::InitialSchema, &empty_state()).is_empty());
}

#[test]
fn text_contains_finds_runs() {
    assert!(text_contains("duplicate column name: x", "duplicate column"));
    assert!(text_contains("abc", ""));
    assert!(!text_contains("dup column", "duplicate column"));
    assert!(!text_contains("", "a"));
}

#[test]
fn account_statements() {
    let st = insert_user("alice", "h", "finance", Some("Alice"));
    assert_eq!(st.sql, "INSERT INTO users (username, password_hash, role, display_name) VALUES (?, ?, ?, ?)");
    assert_eq!(st.params.len(), 4);
    assert_eq!(count_username("bob").sql, "SELECT COUNT(*) FROM users WHERE username = ?");
    assert_eq!(count_active_admins().sql, "SELECT COUNT(*) FROM users WHERE role = 'admin' AND is_active = 1");
    assert_eq!(user_role(3).sql, "SELECT role FROM users WHERE id = ?");
    assert_eq!(delete_user_statement(3).sql, "DELETE FROM users WHERE id = ?");
    assert_eq!(
        permission_grant("admin", "rooms", "room").sql,
        "SELECT action FROM permissions WHERE role = ? AND resource = ? AND permission = ?"
    );
    assert_eq!(stamp_last_login(7).sql, "UPDATE users SET last_login_at = datetime('now') WHERE id = ?");
    assert!(matches!(stamp_last_login(7).params[0], SqlValue::Integer(7)));
}

#[test]
fn password_hash_has_bcrypt_default_form() {
    let h = hash_password("secret").unwrap();
    assert_eq!(h.len(), 60);
    assert!(h.starts_with("$2b$12$"));
}

#[test]
fn escalation_time_has_local_time_form() {
    let st = update_bill_escalation(5, &EscalationLevel::Mild);
    match &st.params[1] {
        SqlValue::Text(t) => {
            let c: Vec<char> = t.chars().collect();
            assert!(c.len() >= 19);
            let n = c.len();
            assert_eq!(c[n - 9], ' ');
            assert_eq!(c[n - 6], ':');
            assert_eq!(c[n - 3], ':');
            assert_eq!(c[n - 12], '-');
            assert_eq!(c[n - 15], '-');
        }
        _ => panic!("expected a time"),
    }
}

#[test]
fn archive_restore_statements_share_their_month() {
    for st in [
        archive_bills_by_month_tx("2024-05"),
        restore_bills_by_month_tx("2024-05"),
        get_archived_bills_count_tx("2024-05"),
    ] {
        assert!(matches!(&st.params[0], SqlValue::Text(m) if m == "2024-05"));
    }
    assert!(archive_bills_by_month_tx("2024-05").sql.contains("is_archived = 0"));
    assert!(restore_bills_by_month_tx("2024-05").sql.contains("is_archived = 1"));
}
