//! Decisions and statements of the pooled (asynchronous) storage layer.
//!
//! The pooled layer reads a room's status as text and writes the violation
//! flow, the collection agent's reminders and escalations, and a few
//! statements whose text differs from the connection layer's.

use vstd::prelude::*;

use crate::db::queries::{
    bill_filter_params, bill_filter_texts, bill_filter_values, bill_filters, bill_page_sql, room_update_parts, room_update_sets, room_version_sql, room_version_sql_text,
    tenant_update_parts, tenant_update_sets, tenant_update_values,
    BillQuery,
};
use crate::db::statement::{
    join_seq, join_strings, optional_id_value, optional_text_value, params_view, SqlStatement,
    SqlValue, SqlValueView,
};
use crate::errors::{AppError, Result};
use crate::models::collection_agent::EscalationLevel;
use crate::models::lease::{lease_status_from_label, lease_transition_allowed, LeaseStatus};
use crate::models::room::{room_status_from_label, room_transition_allowed, RoomStatus};
use crate::text::{int_text, push_int, str_eq};

pub use crate::db::queries::{
    confirm_bill_paid_tx as confirm_bill_paid, partial_pay_bill_tx as partial_pay_bill,
    regenerate_voided_bill_tx as regenerate_voided_bill, void_bill_tx as void_bill,
};

verus! {

// ---------------------------------------------------------------------
// Room status text
// ---------------------------------------------------------------------

/// "房间状态解析失败: 未知房间状态", the error for an unknown stored label.
pub open spec fn room_status_parse_message() -> Seq<char> {
    "房间状态解析失败: "@ + "未知房间状态"@
}

/// Reads a stored room status; an unknown label is an invalid-status error.
pub fn parse_room_status(s: &str) -> (r: Result<RoomStatus>)
    ensures
        match room_status_from_label(s@) {
            Some(st) => r matches Ok(x) && x == st,
            None => r matches Err(AppError::InvalidStatus(m)) && m@ == room_status_parse_message(),
        },
{
    match RoomStatus::from_str(s) {
        Ok(st) => Ok(st),
        Err(e) => {
            let mut m = String::from_str("房间状态解析失败: ");
            m.append(e);
            proof {
                assert(m@ =~= room_status_parse_message());
            }
            Err(AppError::InvalidStatus(m))
        },
    }
}

/// Reads a stored room status that may be absent: no text or empty text
/// is no status.
pub fn parse_room_status_nullable(s: Option<String>) -> (r: Result<Option<RoomStatus>>)
    ensures
        match s {
            Some(t) if t@.len() > 0 => match room_status_from_label(t@) {
                Some(st) => r matches Ok(Some(x)) && x == st,
                None => r matches Err(AppError::InvalidStatus(m)) && m@ == room_status_parse_message(),
            },
            _ => r matches Ok(None),
        },
{
    match s {
        Some(t) => {
            if t.unicode_len() > 0 {
                let st = parse_room_status(t.as_str())?;
                Ok(Some(st))
            } else {
                Ok(None)
            }
        },
        None => Ok(None),
    }
}

// ---------------------------------------------------------------------
// Violation flow
// ---------------------------------------------------------------------

/// Whether a room whose stored status is `status` (`None` when the room
/// is missing, deleted or has no status) may be marked in violation: only
/// a rented or newly rented room may.
pub fn can_mark_violation(status: Option<&str>) -> (r: bool)
    ensures
        r <==> (status matches Some(s) && (s@ == "在租"@ || s@ == "新租"@)),
{
    match status {
        Some(s) => str_eq(s, "在租") || str_eq(s, "新租"),
        None => false,
    }
}

/// The room writes of marking a room in violation.
#[derive(Debug, Clone)]
pub struct ViolationWrites {
    /// Sets the room's status to violation.
    pub room_update: SqlStatement,
    /// Records the change in the room status log.
    pub status_log: SqlStatement,
}

/// "房间状态无效: 状态不允许: 房间状态解析失败: 未知房间状态".
pub open spec fn invalid_room_status_message() -> Seq<char> {
    "房间状态无效: "@ + "状态不允许: "@ + room_status_parse_message()
}

/// "房间状态为'<current>'，不允许标记为违约".
pub open spec fn violation_refused_message(current: Seq<char>) -> Seq<char> {
    "房间状态为'"@ + current + "'，不允许标记为违约"@
}

/// The room status update of a violation.
pub open spec fn violation_room_update_sql() -> Seq<char> {
    "UPDATE rooms SET status = ?, updated_at = datetime('now') WHERE id = ?"@
}

/// The status log entry of a violation, made by the system today.
pub open spec fn violation_log_sql() -> Seq<char> {
    "INSERT INTO room_status_log (room_id, lease_id, previous_status, new_status, trigger_type, change_date, created_at) VALUES (?, ?, ?, ?, 'system', date('now'), datetime('now'))"@
}

/// The first step of marking room `room_id` in violation, from its stored
/// status `current`: an unknown status and a room that is neither rented
/// nor newly rented are invalid-status errors; otherwise the room becomes
/// in violation and the change is logged with the lease (if any).
pub fn mark_room_violation(room_id: i64, lease_id: Option<i64>, current: &str) -> (r: Result<ViolationWrites>)
    ensures
        match room_status_from_label(current@) {
            None => r matches Err(AppError::InvalidStatus(m)) && m@ == invalid_room_status_message(),
            Some(st) => if st == RoomStatus::Rented || st == RoomStatus::NewRented {
                r matches Ok(w) && w.room_update.sql@ == violation_room_update_sql()
                    && params_view(w.room_update.params@) == seq![
                        SqlValueView::Text(RoomStatus::Violation.label()),
                        SqlValueView::Integer(room_id),
                    ] && w.status_log.sql@ == violation_log_sql() && params_view(w.status_log.params@)
                    == seq![
                        SqlValueView::Integer(room_id),
                        optional_id_value(lease_id),
                        SqlValueView::Text(current@),
                        SqlValueView::Text(RoomStatus::Violation.label()),
                    ]
            } else {
                r matches Err(AppError::InvalidStatus(m)) && m@ == violation_refused_message(current@)
            },
        },
{
    let room_status = match parse_room_status(current) {
        Ok(st) => st,
        Err(e) => {
            let mut m = String::from_str("房间状态无效: ");
            let text = e.to_string();
            m.append(text.as_str());
            proof {
                assert(m@ =~= invalid_room_status_message());
            }
            return Err(AppError::InvalidStatus(m));
        },
    };
    if room_status != RoomStatus::Rented && room_status != RoomStatus::NewRented {
        let mut m = String::from_str("房间状态为'");
        m.append(current);
        m.append("'，不允许标记为违约");
        return Err(AppError::InvalidStatus(m));
    }
    let new_status = RoomStatus::Violation.as_str();
    let room_params = vec![SqlValue::Text(String::from_str(new_status)), SqlValue::Integer(room_id)];
    let lease_value = match lease_id {
        Some(l) => SqlValue::Integer(l),
        None => SqlValue::Null,
    };
    let log_params = vec![
        SqlValue::Integer(room_id),
        lease_value,
        SqlValue::Text(String::from_str(current)),
        SqlValue::Text(String::from_str(new_status)),
    ];
    proof {
        assert(params_view(room_params@) =~= seq![
            SqlValueView::Text(RoomStatus::Violation.label()),
            SqlValueView::Integer(room_id),
        ]);
        assert(params_view(log_params@) =~= seq![
            SqlValueView::Integer(room_id),
            optional_id_value(lease_id),
            SqlValueView::Text(current@),
            SqlValueView::Text(RoomStatus::Violation.label()),
        ]);
    }
    Ok(ViolationWrites {
        room_update: SqlStatement {
            sql: String::from_str("UPDATE rooms SET status = ?, updated_at = datetime('now') WHERE id = ?"),
            params: room_params,
        },
        status_log: SqlStatement {
            sql: String::from_str(
                "INSERT INTO room_status_log (room_id, lease_id, previous_status, new_status, trigger_type, change_date, created_at) VALUES (?, ?, ?, ?, 'system', date('now'), datetime('now'))",
            ),
            params: log_params,
        },
    })
}

/// "合同状态无效: <current>".
pub open spec fn invalid_lease_status_message(current: Seq<char>) -> Seq<char> {
    "合同状态无效: "@ + current
}

/// The second step of a violation, from the stored status `current` of
/// lease `lease_id`: an unknown status is an invalid-status error; an
/// active lease becomes in violation; any other lease is left as it is.
pub fn lease_violation_update(lease_id: i64, current: &str) -> (r: Result<Option<SqlStatement>>)
    ensures
        match lease_status_from_label(current@) {
            None => r matches Err(AppError::InvalidStatus(m)) && m@ == invalid_lease_status_message(current@),
            Some(st) => if st == LeaseStatus::Active {
                r matches Ok(Some(u))
                    && u.sql@ == "UPDATE leases SET status = ?, updated_at = datetime('now') WHERE id = ?"@
                    && params_view(u.params@) == seq![
                        SqlValueView::Text(LeaseStatus::Violation.label()),
                        SqlValueView::Integer(lease_id),
                    ]
            } else {
                r matches Ok(None)
            },
        },
{
    let lease_status = match LeaseStatus::from_str(current) {
        Ok(st) => st,
        Err(_) => {
            let mut m = String::from_str("合同状态无效: ");
            m.append(current);
            return Err(AppError::InvalidStatus(m));
        },
    };
    if lease_status == LeaseStatus::Active {
        let params = vec![
            SqlValue::Text(String::from_str(LeaseStatus::Violation.as_str())),
            SqlValue::Integer(lease_id),
        ];
        proof {
            assert(params_view(params@) =~= seq![
                SqlValueView::Text(LeaseStatus::Violation.label()),
                SqlValueView::Integer(lease_id),
            ]);
        }
        Ok(
            Some(
                SqlStatement {
                    sql: String::from_str("UPDATE leases SET status = ?, updated_at = datetime('now') WHERE id = ?"),
                    params,
                },
            ),
        )
    } else {
        Ok(None)
    }
}

// ---------------------------------------------------------------------
// Room update under optimistic locking
// ---------------------------------------------------------------------

/// The pooled layer's versioned room update: the statement text of the
/// connection layer, with the value 0 bound in place of every given field,
/// then the room id and the expected version; `None` when no field is
/// given.
pub fn update_room_with_version_check(
    room_id: i64,
    expected_version: i64,
    base_rent: Option<i64>,
    property_fee: Option<i64>,
    water_meter_current: Option<i64>,
    electric_meter_current: Option<i64>,
    room_type: Option<&str>,
) -> (r: Option<SqlStatement>)
    ensures
        (base_rent is None && property_fee is None && water_meter_current is None
            && electric_meter_current is None && room_type is None) <==> r is None,
        r matches Some(st) ==> st.sql@ == room_version_sql(
            room_update_sets(base_rent, property_fee, water_meter_current, electric_meter_current, room_type),
        ) && params_view(st.params@) == Seq::new(
            room_update_sets(base_rent, property_fee, water_meter_current, electric_meter_current, room_type).len(),
            |i: int| SqlValueView::Integer(0),
        ) + seq![SqlValueView::Integer(room_id), SqlValueView::Integer(expected_version)],
{
    let (sets, _values) = room_update_parts(
        base_rent,
        property_fee,
        water_meter_current,
        electric_meter_current,
        room_type,
    );
    let ghost n = sets@.len();
    proof {
        assert(sets@.map_values(|p: &str| p@).len() == sets@.len());
    }
    if sets.len() == 0 {
        return None;
    }
    let mut values: Vec<SqlValue> = Vec::new();
    let mut i: usize = 0;
    while i < sets.len()
        invariant
            i <= sets@.len(),
            n == sets@.len(),
            params_view(values@) == Seq::new(i as nat, |k: int| SqlValueView::Integer(0)),
        decreases sets.len() - i,
    {
        let ghost old_values = values@;
        values.push(SqlValue::Integer(0));
        proof {
            assert(params_view(values@) =~= params_view(old_values).push(SqlValueView::Integer(0)));
            assert(params_view(values@) =~= Seq::new((i + 1) as nat, |k: int| SqlValueView::Integer(0)));
        }
        i += 1;
    }
    let ghost zeros = params_view(values@);
    values.push(SqlValue::Integer(room_id));
    values.push(SqlValue::Integer(expected_version));
    let sql = room_version_sql_text(sets);
    proof {
        assert(params_view(values@) =~= zeros + seq![
            SqlValueView::Integer(room_id),
            SqlValueView::Integer(expected_version),
        ]);
    }
    Some(SqlStatement { sql, params: values })
}

/// What the pooled versioned update reports: the number of rows changed
/// when positive, otherwise a concurrent-modification error.
pub fn version_check_outcome(affected: u64) -> (r: Result<i64>)
    requires
        affected <= i64::MAX,
    ensures
        affected > 0 ==> (r matches Ok(n) && n == affected),
        affected == 0 ==> r matches Err(AppError::ConcurrentModification),
{
    if affected == 0 {
        return Err(AppError::ConcurrentModification);
    }
    Ok(affected as i64)
}

// ---------------------------------------------------------------------
// Tenant update
// ---------------------------------------------------------------------

/// Each column name followed by a numbered placeholder, `?1` first.
pub open spec fn numbered_sets(cols: Seq<Seq<char>>) -> Seq<Seq<char>> {
    Seq::new(cols.len(), |i: int| cols[i] + " = ?"@ + int_text(i + 1))
}

/// The pooled layer's tenant update: the given fields with numbered
/// placeholders, then the modification time, guarded by the id bound last;
/// `None` when no field is given.
pub fn update_tenant(
    id: i64,
    name: Option<&str>,
    phone: Option<&str>,
    phone2: Option<&str>,
    emergency_contact: Option<&str>,
    emergency_phone: Option<&str>,
) -> (r: Option<SqlStatement>)
    ensures
        (name is None && phone is None && phone2 is None && emergency_contact is None
            && emergency_phone is None) <==> r is None,
        r matches Some(st) ==> st.sql@ == "UPDATE tenants SET "@ + join_seq(
            numbered_sets(tenant_update_sets(name, phone, phone2, emergency_contact, emergency_phone)),
            ", "@,
        ) + ", updated_at = datetime('now') WHERE id = ?"@ + int_text(
            tenant_update_sets(name, phone, phone2, emergency_contact, emergency_phone).len() + 1int,
        ) && params_view(st.params@) == tenant_update_values(
            name,
            phone,
            phone2,
            emergency_contact,
            emergency_phone,
        ).push(SqlValueView::Integer(id)),
{
    let (cols, mut values) = tenant_update_parts(name, phone, phone2, emergency_contact, emergency_phone);
    let ghost col_views = cols@.map_values(|p: &str| p@);
    proof {
        assert(col_views.len() == cols@.len());
    }
    if cols.len() == 0 {
        return None;
    }
    let mut sets: Vec<String> = Vec::new();
    let mut i: usize = 0;
    while i < cols.len()
        invariant
            i <= cols@.len(),
            cols@.len() <= 5,
            col_views == cols@.map_values(|p: &str| p@),
            sets@.map_values(|p: String| p@) == numbered_sets(col_views.take(i as int)),
        decreases cols.len() - i,
    {
        let mut clause = String::from_str(cols[i]);
        clause.append(" = ?");
        push_int(&mut clause, (i + 1) as i64);
        let ghost old_sets = sets@;
        proof {
            assert(col_views[i as int] == cols@[i as int]@);
            assert(clause@ == col_views[i as int] + " = ?"@ + int_text(i + 1));
        }
        sets.push(clause);
        proof {
            assert(sets@.map_values(|p: String| p@) =~= old_sets.map_values(|p: String| p@).push(
                col_views[i as int] + " = ?"@ + int_text(i + 1),
            ));
            assert(col_views.take(i + 1) =~= col_views.take(i as int).push(col_views[i as int]));
            assert(sets@.map_values(|p: String| p@) =~= numbered_sets(col_views.take(i + 1)));
        }
        i += 1;
    }
    proof {
        assert(col_views.take(cols@.len() as int) =~= col_views);
    }
    let mut sql = String::from_str("UPDATE tenants SET ");
    let joined = join_strings(&sets, ", ");
    sql.append(joined.as_str());
    sql.append(", updated_at = datetime('now') WHERE id = ?");
    push_int(&mut sql, (cols.len() + 1) as i64);
    let ghost before = params_view(values@);
    values.push(SqlValue::Integer(id));
    proof {
        assert(params_view(values@) =~= before.push(SqlValueView::Integer(id)));
    }
    Some(SqlStatement { sql, params: values })
}

// ---------------------------------------------------------------------
// Paged bill list
// ---------------------------------------------------------------------

/// The pooled layer's bill list page, filtered by month or year, room and
/// status (each optional) as the connection layer's list is:
/// `page_size` bills from page `page` (counted from one), with the count of
/// all matching bills under the column `cnt`.
pub fn query_bills(
    year: Option<i32>,
    month: Option<i32>,
    room_id: Option<i64>,
    status: Option<&str>,
    page: i32,
    page_size: i32,
) -> (r: BillQuery)
    requires
        page > i32::MIN,
        i32::MIN <= (page - 1) * page_size <= i32::MAX,
    ensures
        r.count.sql@ == "SELECT COUNT(*) as cnt FROM monthly_bills mb WHERE "@ + join_seq(
            bill_filters(year, month, room_id, status),
            " AND "@,
        ),
        params_view(r.count.params@) == bill_filter_values(room_id, status),
        r.page.sql@ == bill_page_sql(join_seq(bill_filters(year, month, room_id, status), " AND "@)),
        params_view(r.page.params@) == bill_filter_values(room_id, status) + seq![
            SqlValueView::Integer(page_size as i64),
            SqlValueView::Integer(((page - 1) * page_size) as i64),
        ],
{
    let clauses = bill_filter_texts(year, month, room_id, status);
    let where_sql = join_strings(&clauses, " AND ");
    let mut count_sql = String::from_str("SELECT COUNT(*) as cnt FROM monthly_bills mb WHERE ");
    count_sql.append(where_sql.as_str());
    let offset = (page - 1) * page_size;
    let mut page_sql = String::from_str(
        "SELECT mb.id, mb.room_id, mb.year_month, mb.total_amount, mb.actual_paid, mb.status, mb.due_date, mb.created_at, r.room_number, r.building, t.name as tenant_name FROM monthly_bills mb LEFT JOIN rooms r ON mb.room_id = r.id LEFT JOIN leases l ON mb.lease_id = l.id AND l.is_deleted = 0 LEFT JOIN tenants t ON l.tenant_id = t.id AND t.is_deleted = 0 WHERE ",
    );
    page_sql.append(where_sql.as_str());
    page_sql.append(" ORDER BY mb.year_month DESC, mb.room_id LIMIT ? OFFSET ?");
    let count_params = bill_filter_params(room_id, status);
    let mut page_params = bill_filter_params(room_id, status);
    let ghost filter_values = params_view(page_params@);
    page_params.push(SqlValue::Integer(page_size as i64));
    page_params.push(SqlValue::Integer(offset as i64));
    proof {
        assert(params_view(page_params@) =~= filter_values + seq![
            SqlValueView::Integer(page_size as i64),
            SqlValueView::Integer(((page - 1) * page_size) as i64),
        ]);
    }
    BillQuery {
        count: SqlStatement { sql: count_sql, params: count_params },
        page: SqlStatement { sql: page_sql, params: page_params },
    }
}


// ---------------------------------------------------------------------
// Collection agent
// ---------------------------------------------------------------------

/// Whether a character is a decimal digit.
pub open spec fn is_digit(c: char) -> bool {
    '0' <= c <= '9'
}

/// The shape of a local date as chrono formats "%Y-%m-%d": a year of at
/// least four characters (a sign and more digits outside 0-9999), then
/// "-MM-DD" in digits.
pub open spec fn local_date_shape(t: Seq<char>) -> bool {
    let n = t.len();
    &&& n >= 10
    &&& t[n - 6] == '-' && is_digit(t[n - 5]) && is_digit(t[n - 4])
    &&& t[n - 3] == '-' && is_digit(t[n - 2]) && is_digit(t[n - 1])
}

/// The shape of a local time as chrono formats "%Y-%m-%d %H:%M:%S": a date
/// of that shape followed by " HH:MM:SS" in digits; 19 characters for the
/// years 0 to 9999.
pub open spec fn local_time_shape(t: Seq<char>) -> bool {
    let n = t.len();
    &&& n >= 19
    &&& local_date_shape(t.subrange(0, n - 9))
    &&& t[n - 9] == ' ' && is_digit(t[n - 8]) && is_digit(t[n - 7])
    &&& t[n - 6] == ':' && is_digit(t[n - 5]) && is_digit(t[n - 4])
    &&& t[n - 3] == ':' && is_digit(t[n - 2]) && is_digit(t[n - 1])
}

/// The local date and time from chrono's `Local::now` formatted with
/// "%Y-%m-%d %H:%M:%S".  Claimed: the text has that shape (a year of at
/// least four characters, every other field two digits).  Which time it
/// is depends on the clock and the time zone of the machine and is left
/// unsaid.
#[verifier::external_body]
fn local_timestamp() -> (r: String)
    ensures
        local_time_shape(r@),
{
    chrono::Local::now().format("%Y-%m-%d %H:%M:%S").to_string()
}

/// Today's local date from chrono's `Local::now` formatted with
/// "%Y-%m-%d".  Claimed: the text has that shape (a year of at least four
/// characters, month and day two digits each).  Which day it is depends on
/// the clock and the time zone of the machine and is left unsaid.
#[verifier::external_body]
fn local_date() -> (r: String)
    ensures
        local_date_shape(r@),
{
    chrono::Local::now().format("%Y-%m-%d").to_string()
}

/// The unpaid bills of one month (`Some`) or of every month: open bills
/// (pending or partially paid) that are neither deleted nor archived, of
/// rooms not deleted, with the active lease's tenant, earliest due date
/// first (bills without a due date last), then by room number.
pub fn get_unpaid_bills(year_month: Option<&str>) -> (r: SqlStatement)
    ensures
        r.sql@ == unpaid_bills_sql(),
        params_view(r.params@) == seq![optional_text_value(year_month), optional_text_value(year_month)],
{
    let value = match year_month {
        Some(ym) => SqlValue::Text(String::from_str(ym)),
        None => SqlValue::Null,
    };
    let again = match year_month {
        Some(ym) => SqlValue::Text(String::from_str(ym)),
        None => SqlValue::Null,
    };
    let params = vec![value, again];
    proof {
        assert(params_view(params@) =~= seq![optional_text_value(year_month), optional_text_value(year_month)]);
    }
    SqlStatement {
        sql: String::from_str(
            "SELECT b.id as bill_id, b.room_id, l.id as lease_id, r.room_number, r.building, t.name as tenant_name, t.phone as tenant_phone, b.year_month, b.total_amount, b.actual_paid, b.due_date, COALESCE(b.escalation_level, '') as escalation_level FROM monthly_bills b INNER JOIN rooms r ON r.id = b.room_id AND r.is_deleted = 0 LEFT JOIN leases l ON l.id = b.lease_id AND l.is_deleted = 0 AND l.status = '生效中' LEFT JOIN tenants t ON t.id = l.tenant_id AND t.is_deleted = 0 WHERE b.is_deleted = 0 AND b.is_archived = 0 AND b.status IN ('待缴费', '部分支付') AND (? IS NULL OR b.year_month = ?) ORDER BY b.due_date ASC NULLS LAST, r.room_number ASC",
        ),
        params,
    }
}

/// The query of [`get_unpaid_bills`].
pub open spec fn unpaid_bills_sql() -> Seq<char> {
    "SELECT b.id as bill_id, b.room_id, l.id as lease_id, r.room_number, r.building, t.name as tenant_name, t.phone as tenant_phone, b.year_month, b.total_amount, b.actual_paid, b.due_date, COALESCE(b.escalation_level, '') as escalation_level FROM monthly_bills b INNER JOIN rooms r ON r.id = b.room_id AND r.is_deleted = 0 LEFT JOIN leases l ON l.id = b.lease_id AND l.is_deleted = 0 AND l.status = '生效中' LEFT JOIN tenants t ON t.id = l.tenant_id AND t.is_deleted = 0 WHERE b.is_deleted = 0 AND b.is_archived = 0 AND b.status IN ('待缴费', '部分支付') AND (? IS NULL OR b.year_month = ?) ORDER BY b.due_date ASC NULLS LAST, r.room_number ASC"@
}

/// The escalation update of a bill.
pub open spec fn escalation_update_sql() -> Seq<char> {
    "UPDATE monthly_bills SET escalation_level = ?, last_reminder_at = ?, updated_at = datetime('now') WHERE id = ?"@
}

/// The statement that records `level` as bill `bill_id`'s escalation and
/// `now` as the time of its last reminder.
pub fn update_bill_escalation_at(bill_id: i64, level: &EscalationLevel, now: &str) -> (r: SqlStatement)
    ensures
        r.sql@ == escalation_update_sql(),
        params_view(r.params@) == seq![
            SqlValueView::Text(level.label_text()),
            SqlValueView::Text(now@),
            SqlValueView::Integer(bill_id),
        ],
{
    let params = vec![
        SqlValue::Text(String::from_str(level.as_str())),
        SqlValue::Text(String::from_str(now)),
        SqlValue::Integer(bill_id),
    ];
    proof {
        assert(params_view(params@) =~= seq![
            SqlValueView::Text(level.label_text()),
            SqlValueView::Text(now@),
            SqlValueView::Integer(bill_id),
        ]);
    }
    SqlStatement {
        sql: String::from_str(
            "UPDATE monthly_bills SET escalation_level = ?, last_reminder_at = ?, updated_at = datetime('now') WHERE id = ?",
        ),
        params,
    }
}

/// The escalation update of bill `bill_id` to `level`, stamped with the
/// current local time.
pub fn update_bill_escalation(bill_id: i64, level: &EscalationLevel) -> (r: SqlStatement)
    ensures
        r.sql@ == escalation_update_sql(),
        exists|now: Seq<char>|
            local_time_shape(now) && params_view(r.params@) == seq![
                SqlValueView::Text(level.label_text()),
                SqlValueView::Text(now),
                SqlValueView::Integer(bill_id),
            ],
{
    let now = local_timestamp();
    update_bill_escalation_at(bill_id, level, now.as_str())
}

/// The reminder insert of the collection agent.
pub open spec fn collection_reminder_sql() -> Seq<char> {
    "INSERT INTO reminders (reminder_type, room_id, lease_id, title, message, scheduled_date, is_sent, is_read, created_at) VALUES ('催租', ?, ?, ?, ?, ?, 0, 0, datetime('now'))"@
}

/// The statement that schedules an unsent, unread rent-collection reminder
/// for room `room_id` (and its lease, if any) on `scheduled_date`.
pub fn create_collection_reminder_on(
    room_id: i64,
    lease_id: Option<i64>,
    title: &str,
    message: &str,
    scheduled_date: &str,
) -> (r: SqlStatement)
    ensures
        r.sql@ == collection_reminder_sql(),
        params_view(r.params@) == seq![
            SqlValueView::Integer(room_id),
            optional_id_value(lease_id),
            SqlValueView::Text(title@),
            SqlValueView::Text(message@),
            SqlValueView::Text(scheduled_date@),
        ],
{
    let lease_value = match lease_id {
        Some(l) => SqlValue::Integer(l),
        None => SqlValue::Null,
    };
    let params = vec![
        SqlValue::Integer(room_id),
        lease_value,
        SqlValue::Text(String::from_str(title)),
        SqlValue::Text(String::from_str(message)),
        SqlValue::Text(String::from_str(scheduled_date)),
    ];
    proof {
        assert(params_view(params@) =~= seq![
            SqlValueView::Integer(room_id),
            optional_id_value(lease_id),
            SqlValueView::Text(title@),
            SqlValueView::Text(message@),
            SqlValueView::Text(scheduled_date@),
        ]);
    }
    SqlStatement {
        sql: String::from_str(
            "INSERT INTO reminders (reminder_type, room_id, lease_id, title, message, scheduled_date, is_sent, is_read, created_at) VALUES ('催租', ?, ?, ?, ?, ?, 0, 0, datetime('now'))",
        ),
        params,
    }
}

/// The rent-collection reminder for room `room_id`, scheduled today (local
/// date).
pub fn create_collection_reminder(room_id: i64, lease_id: Option<i64>, title: &str, message: &str) -> (r: SqlStatement)
    ensures
        r.sql@ == collection_reminder_sql(),
        exists|day: Seq<char>|
            local_date_shape(day) && params_view(r.params@) == seq![
                SqlValueView::Integer(room_id),
                optional_id_value(lease_id),
                SqlValueView::Text(title@),
                SqlValueView::Text(message@),
                SqlValueView::Text(day),
            ],
{
    let day = local_date();
    create_collection_reminder_on(room_id, lease_id, title, message, day.as_str())
}


/// Marking a violation makes only moves the state machines allow: a rented
/// or newly rented room may become in violation, and so may an active
/// lease.  The rooms the flow accepts are exactly those
/// [`can_mark_violation`] admits: those stored as rented or newly rented.
pub proof fn lemma_violation_follows_state_machines(current: Seq<char>)
    ensures
        room_transition_allowed(RoomStatus::Rented, RoomStatus::Violation),
        room_transition_allowed(RoomStatus::NewRented, RoomStatus::Violation),
        lease_transition_allowed(LeaseStatus::Active, LeaseStatus::Violation),
        (room_status_from_label(current) == Some(RoomStatus::Rented) || room_status_from_label(current)
            == Some(RoomStatus::NewRented)) <==> (current == "在租"@ || current == "新租"@),
{
    reveal_strlit("空房");
    reveal_strlit("在租");
    reveal_strlit("新租");
    assert("空房"@[0] != "在租"@[0]);
    assert("空房"@[0] != "新租"@[0]);
    assert("在租"@[0] != "新租"@[0]);
}

} // verus!
