//! The statements each migration step runs, decided from what the database
//! already holds, and a model of what running them changes.
//!
//! A step is a list of statements, each either checked first (run only where
//! what it adds is missing) or run unconditionally because the database
//! leaves it without effect where its result is already there (`IF NOT
//! EXISTS`, `INSERT OR IGNORE`, a tolerated duplicate-column refusal).

use vstd::prelude::*;

use crate::db::migrations::{has_column, incremental_plan, MigrationStep};
use crate::db::statement::{params_view, SqlStatement, SqlValue, SqlValueView};
use crate::text::{contains_text, str_eq, text_contains};

verus! {

/// A table that migration steps add columns to.
#[derive(Debug, Clone, Copy, PartialEq, Eq, Structural)]
pub enum SchemaTable {
    Rooms,
    MonthlyBills,
    Reminders,
    MonthlySummaryCache,
}

/// One statement of a migration step.
#[derive(Debug)]
pub enum SchemaStatement {
    /// `sql` adds `columns` to `table`. The database refuses it where one of
    /// them is already there; with `tolerate_duplicate` that refusal counts
    /// as success.
    AddColumns { table: SchemaTable, columns: Vec<String>, sql: String, tolerate_duplicate: bool },
    /// Inserts the configuration entry `key`.
    InsertConfig { key: String, statement: SqlStatement },
    /// Creates or inserts what `fact` names; changes nothing where that is
    /// already there.
    IfMissing { fact: String, sql: String },
}

/// The mathematical content of a migration statement.
pub enum SchemaChange {
    AddColumns { table: SchemaTable, columns: Seq<Seq<char>>, sql: Seq<char>, tolerate_duplicate: bool },
    InsertConfig { key: Seq<char>, sql: Seq<char>, params: Seq<SqlValueView> },
    IfMissing { fact: Seq<char>, sql: Seq<char> },
}

impl View for SchemaStatement {
    type V = SchemaChange;

    open spec fn view(&self) -> SchemaChange {
        match self {
            SchemaStatement::AddColumns { table, columns, sql, tolerate_duplicate } => SchemaChange::AddColumns {
                table: *table,
                columns: columns@.map_values(|c: String| c@),
                sql: sql@,
                tolerate_duplicate: *tolerate_duplicate,
            },
            SchemaStatement::InsertConfig { key, statement } => SchemaChange::InsertConfig {
                key: key@,
                sql: statement.sql@,
                params: params_view(statement.params@),
            },
            SchemaStatement::IfMissing { fact, sql } => SchemaChange::IfMissing { fact: fact@, sql: sql@ },
        }
    }
}

/// The views of a list of statements.
pub open spec fn changes_view(s: Seq<SchemaStatement>) -> Seq<SchemaChange> {
    s.map_values(|x: SchemaStatement| x@)
}

// ---------------------------------------------------------------------
// The schema model
// ---------------------------------------------------------------------

/// What migrations read and change of a database: the columns of the tables
/// they extend, the configuration keys present, and the objects and rows
/// that if-missing statements create.
pub struct SchemaModel {
    pub rooms: Set<Seq<char>>,
    pub bills: Set<Seq<char>>,
    pub reminders: Set<Seq<char>>,
    pub summary: Set<Seq<char>>,
    pub config_keys: Set<Seq<char>>,
    pub present: Set<Seq<char>>,
}

/// The columns of `t` in `m`.
pub open spec fn table_columns(m: SchemaModel, t: SchemaTable) -> Set<Seq<char>> {
    match t {
        SchemaTable::Rooms => m.rooms,
        SchemaTable::MonthlyBills => m.bills,
        SchemaTable::Reminders => m.reminders,
        SchemaTable::MonthlySummaryCache => m.summary,
    }
}

/// `m` with `cols` added to the columns of `t`.
pub open spec fn with_columns(m: SchemaModel, t: SchemaTable, cols: Set<Seq<char>>) -> SchemaModel {
    SchemaModel {
        rooms: if t == SchemaTable::Rooms { m.rooms.union(cols) } else { m.rooms },
        bills: if t == SchemaTable::MonthlyBills { m.bills.union(cols) } else { m.bills },
        reminders: if t == SchemaTable::Reminders { m.reminders.union(cols) } else { m.reminders },
        summary: if t == SchemaTable::MonthlySummaryCache { m.summary.union(cols) } else { m.summary },
        config_keys: m.config_keys,
        present: m.present,
    }
}

/// Everything `a` holds, `b` holds too.
pub open spec fn model_within(a: SchemaModel, b: SchemaModel) -> bool {
    &&& a.rooms.subset_of(b.rooms)
    &&& a.bills.subset_of(b.bills)
    &&& a.reminders.subset_of(b.reminders)
    &&& a.summary.subset_of(b.summary)
    &&& a.config_keys.subset_of(b.config_keys)
    &&& a.present.subset_of(b.present)
}

/// Whether what `c` adds is already in `m`; for added columns, whether the
/// first of them is there, which is what the step checks.
pub open spec fn change_done(m: SchemaModel, c: SchemaChange) -> bool {
    match c {
        SchemaChange::AddColumns { table, columns, .. } => columns.len() == 0 || table_columns(m, table).contains(
            columns[0],
        ),
        SchemaChange::InsertConfig { key, .. } => m.config_keys.contains(key),
        SchemaChange::IfMissing { fact, .. } => m.present.contains(fact),
    }
}

/// Whether the database leaves `c` without effect, rather than refusing
/// it, where what it adds is already there.
pub open spec fn change_settles(c: SchemaChange) -> bool {
    match c {
        SchemaChange::AddColumns { tolerate_duplicate, .. } => tolerate_duplicate,
        _ => true,
    }
}

/// Running `c` on `m`: the new model, or `None` where the database refuses.
pub open spec fn apply_change(m: SchemaModel, c: SchemaChange) -> Option<SchemaModel> {
    match c {
        SchemaChange::AddColumns { table, columns, tolerate_duplicate, .. } => {
            if change_done(m, c) {
                if tolerate_duplicate { Some(m) } else { None }
            } else if exists|i: int| 0 <= i < columns.len() && #[trigger] table_columns(m, table).contains(columns[i]) {
                None
            } else {
                Some(with_columns(m, table, columns.to_set()))
            }
        },
        SchemaChange::InsertConfig { key, .. } => Some(
            SchemaModel { config_keys: m.config_keys.insert(key), ..m },
        ),
        SchemaChange::IfMissing { fact, .. } => Some(SchemaModel { present: m.present.insert(fact), ..m }),
    }
}

/// Running `cs` in order on `m`; `None` where one is refused.
pub open spec fn apply_changes(m: SchemaModel, cs: Seq<SchemaChange>) -> Option<SchemaModel>
    decreases cs.len(),
{
    if cs.len() == 0 {
        Some(m)
    } else {
        match apply_change(m, cs[0]) {
            Some(next) => apply_changes(next, cs.drop_first()),
            None => None,
        }
    }
}

// ---------------------------------------------------------------------
// Choosing a step's statements
// ---------------------------------------------------------------------

/// Whether the statement `c`, checked first when `checked`, runs against a
/// database described by `m`. A statement the database would refuse where
/// its result is there is always checked first.
pub open spec fn change_runs(c: SchemaChange, checked: bool, m: SchemaModel) -> bool {
    !((checked || !change_settles(c)) && change_done(m, c))
}

/// The statements of `items` that run against `m`, in order.
pub open spec fn select_changes(items: Seq<(SchemaChange, bool)>, m: SchemaModel) -> Seq<SchemaChange>
    decreases items.len(),
{
    if items.len() == 0 {
        Seq::empty()
    } else {
        let rest = select_changes(items.drop_first(), m);
        if change_runs(items[0].0, items[0].1, m) {
            seq![items[0].0] + rest
        } else {
            rest
        }
    }
}

// ---------------------------------------------------------------------
// Lemmas on the model
// ---------------------------------------------------------------------

proof fn lemma_change_done_grows(a: SchemaModel, b: SchemaModel, c: SchemaChange)
    requires
        model_within(a, b),
        change_done(a, c),
    ensures
        change_done(b, c),
{
    match c {
        SchemaChange::AddColumns { table, columns, .. } => {
            if columns.len() > 0 {
                assert(table_columns(a, table).contains(columns[0]));
            }
        },
        _ => {},
    }
}

proof fn lemma_apply_change(m: SchemaModel, c: SchemaChange)
    ensures
        apply_change(m, c) matches Some(r) ==> model_within(m, r) && change_done(r, c),
        change_settles(c) && change_done(m, c) ==> apply_change(m, c) == Some(m),
{
    match c {
        SchemaChange::AddColumns { table, columns, .. } => {
            if !change_done(m, c) && !(exists|i: int|
                0 <= i < columns.len() && #[trigger] table_columns(m, table).contains(columns[i])) {
                assert(columns.contains(columns[0]));
            }
        },
        SchemaChange::InsertConfig { key, .. } => {
            if change_done(m, c) {
                assert(m.config_keys.insert(key) =~= m.config_keys);
            }
        },
        SchemaChange::IfMissing { fact, .. } => {
            if change_done(m, c) {
                assert(m.present.insert(fact) =~= m.present);
            }
        },
    }
}

/// Running the statements chosen against `g` from any model `x` that holds
/// all of `g`: on success every statement's result is in the outcome.
proof fn lemma_selected_changes_done(items: Seq<(SchemaChange, bool)>, g: SchemaModel, x: SchemaModel)
    requires
        model_within(g, x),
        apply_changes(x, select_changes(items, g)) is Some,
    ensures
        model_within(x, apply_changes(x, select_changes(items, g))->0),
        forall|i: int|
            0 <= i < items.len() ==> change_done(apply_changes(x, select_changes(items, g))->0, #[trigger] items[i].0),
    decreases items.len(),
{
    if items.len() > 0 {
        let c = items[0].0;
        let rest = items.drop_first();
        let sel = select_changes(items, g);
        if change_runs(c, items[0].1, g) {
            assert((seq![c] + select_changes(rest, g))[0] == c);
            assert((seq![c] + select_changes(rest, g)).drop_first() =~= select_changes(rest, g));
            lemma_apply_change(x, c);
            let x1 = apply_change(x, c)->0;
            lemma_selected_changes_done(rest, g, x1);
            let r = apply_changes(x1, select_changes(rest, g))->0;
            assert(apply_changes(x, sel) == Some(r));
            lemma_change_done_grows(x1, r, c);
            assert forall|i: int| 0 <= i < items.len() implies change_done(r, #[trigger] items[i].0) by {
                if i > 0 {
                    assert(items[i] == rest[i - 1]);
                }
            }
        } else {
            lemma_selected_changes_done(rest, g, x);
            let r = apply_changes(x, select_changes(rest, g))->0;
            lemma_change_done_grows(g, x, c);
            lemma_change_done_grows(x, r, c);
            assert forall|i: int| 0 <= i < items.len() implies change_done(r, #[trigger] items[i].0) by {
                if i > 0 {
                    assert(items[i] == rest[i - 1]);
                }
            }
        }
    }
}

/// Where every statement's result is already in `m`, the statements chosen
/// against `m` run and change nothing.
proof fn lemma_done_changes_settle(items: Seq<(SchemaChange, bool)>, m: SchemaModel)
    requires
        forall|i: int| 0 <= i < items.len() ==> change_done(m, #[trigger] items[i].0),
    ensures
        apply_changes(m, select_changes(items, m)) == Some(m),
    decreases items.len(),
{
    if items.len() > 0 {
        let c = items[0].0;
        let rest = items.drop_first();
        assert(change_done(m, items[0].0));
        assert forall|i: int| 0 <= i < rest.len() implies change_done(m, #[trigger] rest[i].0) by {
            assert(rest[i] == items[i + 1]);
        }
        lemma_done_changes_settle(rest, m);
        if change_runs(c, items[0].1, m) {
            lemma_apply_change(m, c);
            assert((seq![c] + select_changes(rest, m))[0] == c);
            assert((seq![c] + select_changes(rest, m)).drop_first() =~= select_changes(rest, m));
        }
    }
}

// ---------------------------------------------------------------------
// The statements of each step
// ---------------------------------------------------------------------

pub const ROOM_TYPE_COLUMN_SQL: &'static str = "ALTER TABLE rooms ADD COLUMN room_type TEXT DEFAULT '单间'";

pub const METER_READINGS_TABLE_SQL: &'static str = "CREATE TABLE IF NOT EXISTS meter_readings (
    id INTEGER PRIMARY KEY AUTOINCREMENT,
    room_id INTEGER NOT NULL,
    year INTEGER NOT NULL,
    month INTEGER NOT NULL,
    water_reading INTEGER NOT NULL DEFAULT 0,
    electric_reading INTEGER NOT NULL DEFAULT 0,
    reading_date TEXT NOT NULL,
    operator TEXT,
    is_replacement INTEGER NOT NULL DEFAULT 0,
    is_deleted INTEGER NOT NULL DEFAULT 0,
    created_at TEXT DEFAULT (datetime('now')),
    updated_at TEXT DEFAULT (datetime('now')),
    FOREIGN KEY (room_id) REFERENCES rooms(id),
    UNIQUE (room_id, year, month)
);";

pub const REMINDER_SOFT_DELETE_SQL: &'static str = "ALTER TABLE reminders ADD COLUMN is_deleted INTEGER DEFAULT 0";

pub const MISC_FEE_COLUMNS_SQL: &'static str = "ALTER TABLE monthly_bills ADD COLUMN misc_fee INTEGER NOT NULL DEFAULT 0;
ALTER TABLE monthly_bills ADD COLUMN misc_fee_remark TEXT NOT NULL DEFAULT '';";

pub const PAYMENT_QR_CONFIG_KEY: &'static str = "收款二维码";

pub const PAYMENT_QR_CONFIG_SQL: &'static str = "INSERT OR IGNORE INTO system_config (config_key, config_value, config_type, description) VALUES ('收款二维码', '', 'string', '收费通知单显示的收款二维码图片文件名')";

pub const REPAIR_FEE_COLUMN_SQL: &'static str = "ALTER TABLE monthly_bills ADD COLUMN repair_fee INTEGER NOT NULL DEFAULT 0";

pub const ROOM_VERSION_COLUMN_SQL: &'static str = "ALTER TABLE rooms ADD COLUMN version INTEGER NOT NULL DEFAULT 0";

pub const BILL_ARCHIVE_COLUMNS_SQL: &'static str = "ALTER TABLE monthly_bills ADD COLUMN is_archived INTEGER NOT NULL DEFAULT 0;
ALTER TABLE monthly_bills ADD COLUMN archived_at TEXT;";

pub const USERS_TABLE_SQL: &'static str = "CREATE TABLE IF NOT EXISTS users (
    id INTEGER PRIMARY KEY AUTOINCREMENT,
    username TEXT NOT NULL UNIQUE,
    password_hash TEXT NOT NULL,
    role TEXT NOT NULL DEFAULT 'frontdesk' CHECK(role IN ('admin', 'frontdesk', 'maintenance', 'finance')),
    display_name TEXT,
    is_active INTEGER DEFAULT 1,
    last_login_at TEXT,
    created_at TEXT DEFAULT (datetime('now')),
    updated_at TEXT
)";

pub const PERMISSIONS_TABLE_SQL: &'static str = "CREATE TABLE IF NOT EXISTS permissions (
    id INTEGER PRIMARY KEY AUTOINCREMENT,
    role TEXT NOT NULL CHECK(role IN ('admin', 'frontdesk', 'maintenance', 'finance')),
    permission TEXT NOT NULL,
    resource TEXT NOT NULL,
    action TEXT NOT NULL DEFAULT 'read' CHECK(action IN ('read', 'write', 'manage', 'none')),
    description TEXT,
    created_at TEXT DEFAULT (datetime('now')),
    UNIQUE(role, permission, resource)
)";

pub const USER_INDEXES_SQL: &'static str = "CREATE INDEX IF NOT EXISTS idx_users_username ON users(username);
CREATE INDEX IF NOT EXISTS idx_users_role ON users(role);
CREATE INDEX IF NOT EXISTS idx_users_active ON users(is_active);
CREATE INDEX IF NOT EXISTS idx_permissions_role ON permissions(role);
CREATE INDEX IF NOT EXISTS idx_permissions_resource ON permissions(resource);";

pub const DEFAULT_ADMIN_SQL: &'static str = "INSERT OR IGNORE INTO users (username, password_hash, role, display_name, is_active)
VALUES ('admin', '$2b$12$LQv3c1yqBWVHxkd0LHAkCOYz6TtxMQJqhN8/LewKyNiiGTMwFYjOi', 'admin', '系统管理员', 1)";

pub const ADMIN_GRANTS_SQL: &'static str = "INSERT OR IGNORE INTO permissions (role, permission, resource, action, description) VALUES
 ('admin', 'room', 'rooms', 'manage', '房间管理'),
 ('admin', 'lease', 'leases', 'manage', '合同管理'),
 ('admin', 'tenant', 'tenants', 'manage', '租客管理'),
 ('admin', 'bill', 'bills', 'manage', '账单管理'),
 ('admin', 'payment', 'payments', 'manage', '缴费管理'),
 ('admin', 'deposit', 'deposits', 'manage', '押金管理'),
 ('admin', 'config', 'system_config', 'manage', '系统配置'),
 ('admin', 'report', 'reports', 'read', '报表查看'),
 ('admin', 'document', 'documents', 'manage', '文档管理'),
 ('admin', 'excel', 'excel', 'manage', 'Excel导入导出'),
 ('admin', 'backup', 'backup', 'manage', '备份恢复'),
 ('admin', 'user', 'users', 'manage', '用户管理')";

pub const FRONTDESK_GRANTS_SQL: &'static str = "INSERT OR IGNORE INTO permissions (role, permission, resource, action, description) VALUES
 ('frontdesk', 'room', 'rooms', 'read', '房间查看'),
 ('frontdesk', 'lease', 'leases', 'read', '合同查看'),
 ('frontdesk', 'tenant', 'tenants', 'manage', '租客管理'),
 ('frontdesk', 'bill', 'bills', 'read', '账单查看'),
 ('frontdesk', 'bill', 'bills', 'write', '账单操作'),
 ('frontdesk', 'payment', 'payments', 'manage', '缴费管理'),
 ('frontdesk', 'deposit', 'deposits', 'read', '押金查看'),
 ('frontdesk', 'report', 'reports', 'read', '报表查看'),
 ('frontdesk', 'document', 'documents', 'read', '文档查看'),
 ('frontdesk', 'excel', 'excel', 'read', 'Excel导出')";

pub const MAINTENANCE_GRANTS_SQL: &'static str = "INSERT OR IGNORE INTO permissions (role, permission, resource, action, description) VALUES
 ('maintenance', 'room', 'rooms', 'read', '房间查看'),
 ('maintenance', 'room', 'rooms', 'write', '房间状态更新'),
 ('maintenance', 'lease', 'leases', 'read', '合同查看'),
 ('maintenance', 'maintenance', 'maintenance', 'manage', '维修管理'),
 ('maintenance', 'document', 'documents', 'read', '文档查看')";

pub const FINANCE_GRANTS_SQL: &'static str = "INSERT OR IGNORE INTO permissions (role, permission, resource, action, description) VALUES
 ('finance', 'room', 'rooms', 'read', '房间查看'),
 ('finance', 'lease', 'leases', 'read', '合同查看'),
 ('finance', 'tenant', 'tenants', 'read', '租客查看'),
 ('finance', 'bill', 'bills', 'manage', '账单管理'),
 ('finance', 'payment', 'payments', 'manage', '缴费管理'),
 ('finance', 'deposit', 'deposits', 'manage', '押金管理'),
 ('finance', 'report', 'reports', 'manage', '报表管理'),
 ('finance', 'excel', 'excel', 'manage', 'Excel导入导出'),
 ('finance', 'config', 'system_config', 'read', '配置查看')";

pub const MISSING_INDEXES_SQL: &'static str = "CREATE INDEX IF NOT EXISTS idx_bills_is_archived ON monthly_bills(is_archived);
CREATE INDEX IF NOT EXISTS idx_bills_paid_date ON monthly_bills(paid_date);
CREATE INDEX IF NOT EXISTS idx_logs_operation_type ON operation_logs(operation_type);";

pub const ESCALATION_LEVEL_COLUMN_SQL: &'static str = "ALTER TABLE monthly_bills ADD COLUMN escalation_level TEXT NOT NULL DEFAULT ''";

pub const LAST_REMINDER_COLUMN_SQL: &'static str = "ALTER TABLE monthly_bills ADD COLUMN last_reminder_at TEXT";

pub const STATUS_DUE_INDEX_SQL: &'static str = "CREATE INDEX IF NOT EXISTS idx_bills_status_due ON monthly_bills(status, due_date);";

/// Inserts a configuration entry: key, value, type and description bound.
pub const CONFIG_INSERT_SQL: &'static str = "INSERT OR IGNORE INTO system_config (config_key, config_value, config_type, description, is_active) VALUES (?, ?, ?, ?, 1)";

/// Names the collection grants: the admin role holds the collection
/// permission.
pub const COLLECTION_GRANT_FACT: &'static str = "permissions: admin collection";

pub const COLLECTION_GRANTS_SQL: &'static str = "INSERT OR IGNORE INTO permissions (role, permission, resource, action, description) VALUES ('admin', 'collection', 'collection_agent', 'manage', '租务 AI Agent');
INSERT OR IGNORE INTO permissions (role, permission, resource, action, description) VALUES ('frontdesk', 'collection', 'collection_agent', 'read', '租务 AI 预览');
INSERT OR IGNORE INTO permissions (role, permission, resource, action, description) VALUES ('finance', 'collection', 'collection_agent', 'manage', '租务 AI Agent');";

pub const NEW_LEASE_COUNT_COLUMN_SQL: &'static str = "ALTER TABLE monthly_summary_cache ADD COLUMN new_lease_count INTEGER NOT NULL DEFAULT 0";

pub const CHECK_OUT_COUNT_COLUMN_SQL: &'static str = "ALTER TABLE monthly_summary_cache ADD COLUMN check_out_count INTEGER NOT NULL DEFAULT 0";

pub const VACANCY_LOSS_COLUMN_SQL: &'static str = "ALTER TABLE monthly_summary_cache ADD COLUMN vacancy_loss INTEGER NOT NULL DEFAULT 0";

pub const VIOLATION_RATE_COLUMN_SQL: &'static str = "ALTER TABLE monthly_summary_cache ADD COLUMN violation_rate REAL NOT NULL DEFAULT 0.0";

/// A column added where it is missing.
pub open spec fn column_item(table: SchemaTable, column: Seq<char>, sql: Seq<char>) -> (SchemaChange, bool) {
    (SchemaChange::AddColumns { table, columns: seq![column], sql, tolerate_duplicate: false }, true)
}

/// Several columns added by one statement where the first is missing.
pub open spec fn columns_item(table: SchemaTable, first: Seq<char>, second: Seq<char>, sql: Seq<char>) -> (
    SchemaChange,
    bool,
) {
    (SchemaChange::AddColumns { table, columns: seq![first, second], sql, tolerate_duplicate: false }, true)
}

/// A statement that creates or inserts only what is missing, run as is.
pub open spec fn if_missing_item(sql: Seq<char>) -> (SchemaChange, bool) {
    (SchemaChange::IfMissing { fact: sql, sql }, false)
}

/// A configuration entry inserted where its key is missing.
pub open spec fn config_item(key: Seq<char>, value: Seq<char>, ctype: Seq<char>, desc: Seq<char>) -> (
    SchemaChange,
    bool,
) {
    (
        SchemaChange::InsertConfig {
            key,
            sql: CONFIG_INSERT_SQL@,
            params: seq![
                SqlValueView::Text(key),
                SqlValueView::Text(value),
                SqlValueView::Text(ctype),
                SqlValueView::Text(desc),
            ],
        },
        true,
    )
}

/// The statements of `step`, each with whether it is checked first. The
/// initial schema comes from the schema file, which the storage layer runs
/// itself.
pub open spec fn step_items(step: MigrationStep) -> Seq<(SchemaChange, bool)> {
    match step {
        MigrationStep::InitialSchema => Seq::empty(),
        MigrationStep::AddRoomType => seq![column_item(SchemaTable::Rooms, "room_type"@, ROOM_TYPE_COLUMN_SQL@)],
        MigrationStep::CreateMeterReadings => seq![if_missing_item(METER_READINGS_TABLE_SQL@)],
        MigrationStep::EnsureRoomType => seq![column_item(SchemaTable::Rooms, "room_type"@, ROOM_TYPE_COLUMN_SQL@)],
        MigrationStep::AddReminderSoftDelete => seq![
            (
                SchemaChange::AddColumns {
                    table: SchemaTable::Reminders,
                    columns: seq!["is_deleted"@],
                    sql: REMINDER_SOFT_DELETE_SQL@,
                    tolerate_duplicate: true,
                },
                false,
            ),
        ],
        MigrationStep::AddMiscFee => seq![
            columns_item(SchemaTable::MonthlyBills, "misc_fee"@, "misc_fee_remark"@, MISC_FEE_COLUMNS_SQL@),
        ],
        MigrationStep::AddPaymentQrConfig => seq![
            (
                SchemaChange::InsertConfig {
                    key: PAYMENT_QR_CONFIG_KEY@,
                    sql: PAYMENT_QR_CONFIG_SQL@,
                    params: Seq::empty(),
                },
                true,
            ),
        ],
        MigrationStep::AddRepairFee => seq![
            column_item(SchemaTable::MonthlyBills, "repair_fee"@, REPAIR_FEE_COLUMN_SQL@),
        ],
        MigrationStep::AddRoomVersion => seq![column_item(SchemaTable::Rooms, "version"@, ROOM_VERSION_COLUMN_SQL@)],
        MigrationStep::AddBillArchive => seq![
            columns_item(SchemaTable::MonthlyBills, "is_archived"@, "archived_at"@, BILL_ARCHIVE_COLUMNS_SQL@),
        ],
        MigrationStep::CreateUsersAndPermissions => seq![
            if_missing_item(USERS_TABLE_SQL@),
            if_missing_item(PERMISSIONS_TABLE_SQL@),
            if_missing_item(USER_INDEXES_SQL@),
            if_missing_item(DEFAULT_ADMIN_SQL@),
            if_missing_item(ADMIN_GRANTS_SQL@),
            if_missing_item(FRONTDESK_GRANTS_SQL@),
            if_missing_item(MAINTENANCE_GRANTS_SQL@),
            if_missing_item(FINANCE_GRANTS_SQL@),
        ],
        MigrationStep::AddMissingIndexes => seq![if_missing_item(MISSING_INDEXES_SQL@)],
        MigrationStep::AddCollectionAgent => seq![
            column_item(SchemaTable::MonthlyBills, "escalation_level"@, ESCALATION_LEVEL_COLUMN_SQL@),
            column_item(SchemaTable::MonthlyBills, "last_reminder_at"@, LAST_REMINDER_COLUMN_SQL@),
            if_missing_item(STATUS_DUE_INDEX_SQL@),
            config_item("轻微逾期天数阈值"@, "7"@, "number"@, "逾期多少天内判定为轻微（天数）"@),
            config_item("中度逾期天数阈值"@, "14"@, "number"@, "逾期多少天以上判定为中度（天数）"@),
            config_item("严重逾期天数阈值"@, "15"@, "number"@, "逾期多少天以上判定为严重（天数）"@),
            config_item("自动违约开关"@, "false"@, "boolean"@, "严重逾期时是否自动将房间标记为违约"@),
            config_item("自动违约天数阈值"@, "30"@, "number"@, "逾期超过多少天才自动标记违约"@),
            config_item("催租防打扰天数"@, "3"@, "number"@, "同一账单同一级别，多少天内不重复催租"@),
            config_item("催租提醒人"@, "房东"@, "string"@, "催租提醒的署名"@),
            (SchemaChange::IfMissing { fact: COLLECTION_GRANT_FACT@, sql: COLLECTION_GRANTS_SQL@ }, true),
        ],
        MigrationStep::AddOperationsAssistant => seq![
            config_item("合同到期提醒天数"@, "30"@, "number"@, "租约到期前多少天触发提醒"@),
            column_item(SchemaTable::MonthlySummaryCache, "new_lease_count"@, NEW_LEASE_COUNT_COLUMN_SQL@),
            column_item(SchemaTable::MonthlySummaryCache, "check_out_count"@, CHECK_OUT_COUNT_COLUMN_SQL@),
            column_item(SchemaTable::MonthlySummaryCache, "vacancy_loss"@, VACANCY_LOSS_COLUMN_SQL@),
            column_item(SchemaTable::MonthlySummaryCache, "violation_rate"@, VIOLATION_RATE_COLUMN_SQL@),
        ],
    }
}

/// The statements `step` runs against a database described by `m`.
pub open spec fn step_changes(step: MigrationStep, m: SchemaModel) -> Seq<SchemaChange> {
    select_changes(step_items(step), m)
}

/// Running `step` on `m`.
pub open spec fn run_step(m: SchemaModel, step: MigrationStep) -> Option<SchemaModel> {
    apply_changes(m, step_changes(step, m))
}

/// Running `steps` in order on `m`; `None` where one fails.
pub open spec fn run_steps(m: SchemaModel, steps: Seq<MigrationStep>) -> Option<SchemaModel>
    decreases steps.len(),
{
    if steps.len() == 0 {
        Some(m)
    } else {
        match run_step(m, steps[0]) {
            Some(next) => run_steps(next, steps.drop_first()),
            None => None,
        }
    }
}

// ---------------------------------------------------------------------
// Deciding a step's statements
// ---------------------------------------------------------------------

/// What the steps check of a database before running: the column names of
/// the tables they extend, the configuration keys present, and whether the
/// admin role holds the collection permission. (No step checks the columns
/// of the reminders table.)
pub struct SchemaState {
    pub room_columns: Vec<String>,
    pub bill_columns: Vec<String>,
    pub summary_columns: Vec<String>,
    pub config_keys: Vec<String>,
    pub has_collection_grant: bool,
}

/// The names in `v`.
pub open spec fn name_set(v: Seq<String>) -> Set<Seq<char>> {
    Set::new(|c: Seq<char>| exists|i: int| 0 <= i < v.len() && #[trigger] v[i]@ == c)
}

impl SchemaState {
    /// The database as far as the steps check it.
    pub open spec fn model(&self) -> SchemaModel {
        SchemaModel {
            rooms: name_set(self.room_columns@),
            bills: name_set(self.bill_columns@),
            reminders: Set::empty(),
            summary: name_set(self.summary_columns@),
            config_keys: name_set(self.config_keys@),
            present: if self.has_collection_grant {
                set![COLLECTION_GRANT_FACT@]
            } else {
                Set::empty()
            },
        }
    }
}

fn column_listed(state: &SchemaState, table: SchemaTable, name: &str) -> (r: bool)
    ensures
        r == table_columns(state.model(), table).contains(name@),
{
    match table {
        SchemaTable::Rooms => has_column(&state.room_columns, name),
        SchemaTable::MonthlyBills => has_column(&state.bill_columns, name),
        SchemaTable::Reminders => false,
        SchemaTable::MonthlySummaryCache => has_column(&state.summary_columns, name),
    }
}

fn change_done_in(state: &SchemaState, st: &SchemaStatement) -> (r: bool)
    ensures
        r == change_done(state.model(), st@),
{
    match st {
        SchemaStatement::AddColumns { table, columns, .. } => {
            if columns.len() == 0 {
                true
            } else {
                column_listed(state, *table, columns[0].as_str())
            }
        },
        SchemaStatement::InsertConfig { key, .. } => has_column(&state.config_keys, key.as_str()),
        SchemaStatement::IfMissing { fact, .. } => state.has_collection_grant && str_eq(
            fact.as_str(),
            COLLECTION_GRANT_FACT,
        ),
    }
}

fn settles(st: &SchemaStatement) -> (r: bool)
    ensures
        r == change_settles(st@),
{
    match st {
        SchemaStatement::AddColumns { tolerate_duplicate, .. } => *tolerate_duplicate,
        _ => true,
    }
}

/// The views of a list of statements, each with whether it is checked first.
pub open spec fn items_view(s: Seq<(SchemaStatement, bool)>) -> Seq<(SchemaChange, bool)> {
    s.map_values(|p: (SchemaStatement, bool)| (p.0@, p.1))
}

fn push_item(items: &mut Vec<(SchemaStatement, bool)>, item: (SchemaStatement, bool))
    ensures
        items_view(final(items)@) == items_view(old(items)@).push((item.0@, item.1)),
{
    items.push(item);
    assert(items_view(items@) =~= items_view(old(items)@).push((item.0@, item.1)));
}

fn column_statement(table: SchemaTable, column: &str, sql: &str) -> (r: (SchemaStatement, bool))
    ensures
        (r.0@, r.1) == column_item(table, column@, sql@),
{
    let mut columns: Vec<String> = Vec::new();
    columns.push(String::from_str(column));
    assert(columns@.map_values(|c: String| c@) =~= seq![column@]);
    (SchemaStatement::AddColumns { table, columns, sql: String::from_str(sql), tolerate_duplicate: false }, true)
}

fn columns_statement(table: SchemaTable, first: &str, second: &str, sql: &str) -> (r: (SchemaStatement, bool))
    ensures
        (r.0@, r.1) == columns_item(table, first@, second@, sql@),
{
    let mut columns: Vec<String> = Vec::new();
    columns.push(String::from_str(first));
    columns.push(String::from_str(second));
    assert(columns@.map_values(|c: String| c@) =~= seq![first@, second@]);
    (SchemaStatement::AddColumns { table, columns, sql: String::from_str(sql), tolerate_duplicate: false }, true)
}

fn if_missing_statement(sql: &str) -> (r: (SchemaStatement, bool))
    ensures
        (r.0@, r.1) == if_missing_item(sql@),
{
    (SchemaStatement::IfMissing { fact: String::from_str(sql), sql: String::from_str(sql) }, false)
}

fn config_statement(key: &str, value: &str, ctype: &str, desc: &str) -> (r: (SchemaStatement, bool))
    ensures
        (r.0@, r.1) == config_item(key@, value@, ctype@, desc@),
{
    let mut params: Vec<SqlValue> = Vec::new();
    params.push(SqlValue::Text(String::from_str(key)));
    params.push(SqlValue::Text(String::from_str(value)));
    params.push(SqlValue::Text(String::from_str(ctype)));
    params.push(SqlValue::Text(String::from_str(desc)));
    assert(params_view(params@) =~= seq![
        SqlValueView::Text(key@),
        SqlValueView::Text(value@),
        SqlValueView::Text(ctype@),
        SqlValueView::Text(desc@),
    ]);
    (
        SchemaStatement::InsertConfig {
            key: String::from_str(key),
            statement: SqlStatement { sql: String::from_str(CONFIG_INSERT_SQL), params },
        },
        true,
    )
}

fn step_item_list(step: MigrationStep) -> (r: Vec<(SchemaStatement, bool)>)
    ensures
        items_view(r@) == step_items(step),
{
    let mut v: Vec<(SchemaStatement, bool)> = Vec::new();
    match step {
        MigrationStep::InitialSchema => {},
        MigrationStep::AddRoomType | MigrationStep::EnsureRoomType => {
            push_item(&mut v, column_statement(SchemaTable::Rooms, "room_type", ROOM_TYPE_COLUMN_SQL));
        },
        MigrationStep::CreateMeterReadings => {
            push_item(&mut v, if_missing_statement(METER_READINGS_TABLE_SQL));
        },
        MigrationStep::AddReminderSoftDelete => {
            let mut columns: Vec<String> = Vec::new();
            columns.push(String::from_str("is_deleted"));
            assert(columns@.map_values(|c: String| c@) =~= seq!["is_deleted"@]);
            push_item(
                &mut v,
                (
                    SchemaStatement::AddColumns {
                        table: SchemaTable::Reminders,
                        columns,
                        sql: String::from_str(REMINDER_SOFT_DELETE_SQL),
                        tolerate_duplicate: true,
                    },
                    false,
                ),
            );
        },
        MigrationStep::AddMiscFee => {
            push_item(
                &mut v,
                columns_statement(SchemaTable::MonthlyBills, "misc_fee", "misc_fee_remark", MISC_FEE_COLUMNS_SQL),
            );
        },
        MigrationStep::AddPaymentQrConfig => {
            let params: Vec<SqlValue> = Vec::new();
            assert(params_view(params@) =~= Seq::<SqlValueView>::empty());
            push_item(
                &mut v,
                (
                    SchemaStatement::InsertConfig {
                        key: String::from_str(PAYMENT_QR_CONFIG_KEY),
                        statement: SqlStatement { sql: String::from_str(PAYMENT_QR_CONFIG_SQL), params },
                    },
                    true,
                ),
            );
        },
        MigrationStep::AddRepairFee => {
            push_item(&mut v, column_statement(SchemaTable::MonthlyBills, "repair_fee", REPAIR_FEE_COLUMN_SQL));
        },
        MigrationStep::AddRoomVersion => {
            push_item(&mut v, column_statement(SchemaTable::Rooms, "version", ROOM_VERSION_COLUMN_SQL));
        },
        MigrationStep::AddBillArchive => {
            push_item(
                &mut v,
                columns_statement(SchemaTable::MonthlyBills, "is_archived", "archived_at", BILL_ARCHIVE_COLUMNS_SQL),
            );
        },
        MigrationStep::CreateUsersAndPermissions => {
            push_item(&mut v, if_missing_statement(USERS_TABLE_SQL));
            push_item(&mut v, if_missing_statement(PERMISSIONS_TABLE_SQL));
            push_item(&mut v, if_missing_statement(USER_INDEXES_SQL));
            push_item(&mut v, if_missing_statement(DEFAULT_ADMIN_SQL));
            push_item(&mut v, if_missing_statement(ADMIN_GRANTS_SQL));
            push_item(&mut v, if_missing_statement(FRONTDESK_GRANTS_SQL));
            push_item(&mut v, if_missing_statement(MAINTENANCE_GRANTS_SQL));
            push_item(&mut v, if_missing_statement(FINANCE_GRANTS_SQL));
        },
        MigrationStep::AddMissingIndexes => {
            push_item(&mut v, if_missing_statement(MISSING_INDEXES_SQL));
        },
        MigrationStep::AddCollectionAgent => {
            push_item(
                &mut v,
                column_statement(SchemaTable::MonthlyBills, "escalation_level", ESCALATION_LEVEL_COLUMN_SQL),
            );
            push_item(
                &mut v,
                column_statement(SchemaTable::MonthlyBills, "last_reminder_at", LAST_REMINDER_COLUMN_SQL),
            );
            push_item(&mut v, if_missing_statement(STATUS_DUE_INDEX_SQL));
            push_item(&mut v, config_statement("轻微逾期天数阈值", "7", "number", "逾期多少天内判定为轻微（天数）"));
            push_item(&mut v, config_statement("中度逾期天数阈值", "14", "number", "逾期多少天以上判定为中度（天数）"));
            push_item(&mut v, config_statement("严重逾期天数阈值", "15", "number", "逾期多少天以上判定为严重（天数）"));
            push_item(
                &mut v,
                config_statement("自动违约开关", "false", "boolean", "严重逾期时是否自动将房间标记为违约"),
            );
            push_item(&mut v, config_statement("自动违约天数阈值", "30", "number", "逾期超过多少天才自动标记违约"));
            push_item(
                &mut v,
                config_statement("催租防打扰天数", "3", "number", "同一账单同一级别，多少天内不重复催租"),
            );
            push_item(&mut v, config_statement("催租提醒人", "房东", "string", "催租提醒的署名"));
            push_item(
                &mut v,
                (
                    SchemaStatement::IfMissing {
                        fact: String::from_str(COLLECTION_GRANT_FACT),
                        sql: String::from_str(COLLECTION_GRANTS_SQL),
                    },
                    true,
                ),
            );
        },
        MigrationStep::AddOperationsAssistant => {
            push_item(&mut v, config_statement("合同到期提醒天数", "30", "number", "租约到期前多少天触发提醒"));
            push_item(
                &mut v,
                column_statement(SchemaTable::MonthlySummaryCache, "new_lease_count", NEW_LEASE_COUNT_COLUMN_SQL),
            );
            push_item(
                &mut v,
                column_statement(SchemaTable::MonthlySummaryCache, "check_out_count", CHECK_OUT_COUNT_COLUMN_SQL),
            );
            push_item(
                &mut v,
                column_statement(SchemaTable::MonthlySummaryCache, "vacancy_loss", VACANCY_LOSS_COLUMN_SQL),
            );
            push_item(
                &mut v,
                column_statement(SchemaTable::MonthlySummaryCache, "violation_rate", VIOLATION_RATE_COLUMN_SQL),
            );
        },
    }
    assert(items_view(v@) =~= step_items(step));
    v
}

/// The statements `step` runs against a database in the state `state`, in
/// order: a checked statement only where what it adds is missing.
pub fn migration_step_statements(step: MigrationStep, state: &SchemaState) -> (r: Vec<SchemaStatement>)
    ensures
        changes_view(r@) == step_changes(step, state.model()),
{
    let mut items = step_item_list(step);
    let ghost m = state.model();
    let ghost all = items_view(items@);
    let mut out: Vec<SchemaStatement> = Vec::new();
    assert(changes_view(out@) =~= Seq::<SchemaChange>::empty());
    assert(Seq::<SchemaChange>::empty() + select_changes(all, m) =~= select_changes(all, m));
    while items.len() > 0
        invariant
            changes_view(out@) + select_changes(items_view(items@), m) == select_changes(all, m),
            m == state.model(),
        decreases items.len(),
    {
        let ghost before = items_view(items@);
        let ghost out_before = changes_view(out@);
        let item = items.remove(0);
        assert(items_view(items@) =~= before.drop_first());
        assert(before[0] == (item.0@, item.1));
        let (st, checked) = item;
        let runs = !((checked || !settles(&st)) && change_done_in(state, &st));
        if runs {
            out.push(st);
            assert(changes_view(out@) =~= out_before + seq![before[0].0]);
            assert(out_before + seq![before[0].0] + select_changes(before.drop_first(), m) =~= out_before + (
            seq![before[0].0] + select_changes(before.drop_first(), m)));
        }
    }
    assert(select_changes(items_view(items@), m) =~= Seq::<SchemaChange>::empty());
    assert(changes_view(out@) + Seq::<SchemaChange>::empty() =~= changes_view(out@));
    out
}

/// Whether the database's refusal of `st`, with `error_message`, counts as
/// success: a duplicate-column refusal of a statement that tolerates it.
pub fn refusal_tolerated(st: &SchemaStatement, error_message: &str) -> (r: bool)
    ensures
        r == (st@ matches SchemaChange::AddColumns { tolerate_duplicate, .. } && tolerate_duplicate
            && contains_text(error_message@, "duplicate column"@)),
{
    match st {
        SchemaStatement::AddColumns { tolerate_duplicate, .. } => *tolerate_duplicate && text_contains(
            error_message,
            "duplicate column",
        ),
        _ => false,
    }
}

// ---------------------------------------------------------------------
// Laws
// ---------------------------------------------------------------------

/// A step that succeeded, run again on what it left or on any database that
/// holds at least that, succeeds and changes nothing; and a step only adds.
pub proof fn lemma_step_rerun_changes_nothing(step: MigrationStep, m: SchemaModel, r: SchemaModel, later: SchemaModel)
    requires
        run_step(m, step) == Some(r),
        model_within(r, later),
    ensures
        model_within(m, r),
        run_step(later, step) == Some(later),
{
    let items = step_items(step);
    lemma_selected_changes_done(items, m, m);
    assert forall|i: int| 0 <= i < items.len() implies change_done(later, #[trigger] items[i].0) by {
        lemma_change_done_grows(r, later, items[i].0);
    }
    lemma_done_changes_settle(items, later);
}

proof fn lemma_steps_rerun(steps: Seq<MigrationStep>, m: SchemaModel, r: SchemaModel, later: SchemaModel)
    requires
        run_steps(m, steps) == Some(r),
        model_within(r, later),
    ensures
        model_within(m, r),
        run_steps(later, steps) == Some(later),
    decreases steps.len(),
{
    if steps.len() > 0 {
        let next = run_step(m, steps[0])->0;
        lemma_steps_rerun(steps.drop_first(), next, r, later);
        lemma_step_rerun_changes_nothing(steps[0], m, next, later);
    }
}

/// Re-running the migration from a recorded version on the database that
/// a successful run from that version left succeeds and changes nothing:
/// columns are checked before they are added, and what is run unchecked
/// creates or inserts only what is missing. (A new database, "0.0.0", is
/// created from the schema file, which this model does not cover.)
pub proof fn lemma_migration_rerun_changes_nothing(m: SchemaModel, from: Seq<char>, extended: bool)
    requires
        from != "0.0.0"@,
        run_steps(m, incremental_plan(from, extended)) is Some,
    ensures
        run_steps(run_steps(m, incremental_plan(from, extended))->0, incremental_plan(from, extended))
            == run_steps(m, incremental_plan(from, extended)),
{
    let r = run_steps(m, incremental_plan(from, extended))->0;
    lemma_steps_rerun(incremental_plan(from, extended), m, r, r);
}

} // verus!
