use apartment_manager::db::migrations::{
    parse_version, plan_migrations_to, run_incremental_migrations, run_migrations,
    version_less_than, MigrationPlan, MigrationStep, CURRENT_VERSION,
};
use apartment_manager::db::migrations_async;
use apartment_manager::errors::AppError;

#[test]
fn test_version_comparison() {
    assert!(version_less_than("2.0.1", "2.0.2"));
    assert!(version_less_than("2.0.2", "2.1.0"));
    assert!(version_less_than("1.9.9", "2.0.0"));
    assert!(version_less_than("0.0.0", "2.0.2"));
    assert!(!version_less_than("2.0.2", "2.0.2"));
    assert!(!version_less_than("2.0.3", "2.0.2"));
    assert!(version_less_than("2.0.3", "2.0.4"));
    assert!(version_less_than("2.0.4", "2.0.5"));
}

#[test]
fn version_parts_compare_numerically() {
    assert!(version_less_than("2.0.9", "2.0.10"));
    assert!(!version_less_than("2.0.10", "2.0.9"));
    assert!(version_less_than("2.1", "2.1.0"));
    assert!(!version_less_than("2.1.0", "2.1"));
}

#[test]
fn parse_version_reads_dotted_numbers() {
    assert_eq!(parse_version("2.10.3"), vec![2, 10, 3]);
}

#[test]
fn new_database_runs_every_step() {
    let steps = run_incremental_migrations("0.0.0", false);
    assert_eq!(steps.len(), 12);
    assert_eq!(steps[0], MigrationStep::InitialSchema);
    assert_eq!(steps[11], MigrationStep::AddMissingIndexes);
    let extended = run_incremental_migrations("0.0.0", true);
    assert_eq!(extended.len(), 14);
    assert_eq!(extended[13], MigrationStep::AddOperationsAssistant);
}

#[test]
fn later_versions_run_only_later_steps() {
    assert_eq!(
        run_incremental_migrations("2.0.8", false),
        vec![
            MigrationStep::EnsureRoomType,
            MigrationStep::AddRoomVersion,
            MigrationStep::AddBillArchive,
            MigrationStep::CreateUsersAndPermissions,
            MigrationStep::AddMissingIndexes,
        ]
    );
    assert_eq!(run_incremental_migrations("2.1.2", false), vec![MigrationStep::EnsureRoomType]);
}

#[test]
fn migration_plans() {
    assert!(matches!(run_migrations(CURRENT_VERSION), MigrationPlan::UpToDate));
    assert!(matches!(run_migrations("9.0.0"), MigrationPlan::NewerThanTarget));
    match run_migrations("2.0.5") {
        MigrationPlan::Upgrade { steps, check_misc_fee, check_repair_fee } => {
            assert!(check_misc_fee);
            assert!(check_repair_fee);
            assert_eq!(steps[0], MigrationStep::EnsureRoomType);
            assert_eq!(steps[1], MigrationStep::AddMiscFee);
        }
        other => panic!("unexpected {:?}", other),
    }
    match plan_migrations_to("0.0.0", "2.1.2", false) {
        MigrationPlan::Upgrade { check_misc_fee, check_repair_fee, .. } => {
            assert!(!check_misc_fee);
            assert!(!check_repair_fee);
        }
        other => panic!("unexpected {:?}", other),
    }
}

#[test]
fn extended_schema_refuses_newer_databases() {
    match migrations_async::run_migrations("3.0.0") {
        Err(AppError::Business(m)) => assert_eq!(m, "数据库版本 3.0.0 高于目标版本 2.1.4"),
        other => panic!("unexpected {:?}", other),
    }
    assert!(matches!(migrations_async::run_migrations("2.1.4"), Ok(MigrationPlan::UpToDate)));
    match migrations_async::run_migrations("2.1.2") {
        Ok(MigrationPlan::Upgrade { steps, .. }) => assert_eq!(
            steps,
            vec![
                MigrationStep::EnsureRoomType,
                MigrationStep::AddCollectionAgent,
                MigrationStep::AddOperationsAssistant,
            ]
        ),
        other => panic!("unexpected {:?}", other),
    }
}

#[test]
fn test_get_schema_version_new_db() {
    let conn = rusqlite::Connection::open_in_memory().unwrap();
    let table_exists = conn
        .prepare("SELECT name FROM sqlite_master WHERE type='table' AND name='schema_version'")
        .and_then(|mut stmt| stmt.exists([]))
        .unwrap_or(false);

    assert_eq!(apartment_manager::db::migrations::get_schema_version(table_exists, None), "0.0.0");
}

#[test]
fn test_run_migrations() {
    let conn = rusqlite::Connection::open_in_memory().unwrap();
    let table_exists = conn
        .prepare("SELECT name FROM sqlite_master WHERE type='table' AND name='schema_version'")
        .and_then(|mut stmt| stmt.exists([]))
        .unwrap_or(false);
    let current = apartment_manager::db::migrations::get_schema_version(table_exists, None);

    match run_migrations(&current) {
        MigrationPlan::Upgrade { steps, check_misc_fee, check_repair_fee } => {
            // the first step creates the schema, rooms table included
            assert_eq!(steps[0], MigrationStep::InitialSchema);
            assert!(!check_misc_fee && !check_repair_fee);
        }
        other => panic!("unexpected {:?}", other),
    }
    assert!(matches!(run_migrations(CURRENT_VERSION), MigrationPlan::UpToDate));
}
