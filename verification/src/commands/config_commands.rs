//! The configuration commands' statement and answer.

use vstd::prelude::*;

use crate::db::statement::{params_view, SqlStatement, SqlValue, SqlValueView};
use crate::models::config::ConfigResponse;

verus! {

/// The statement setting configuration entry `key` to `value`.
pub fn set_config(key: &str, value: &str) -> (r: SqlStatement)
    ensures
        r.sql@ == "UPDATE system_config SET config_value = ?, updated_at = datetime('now') WHERE config_key = ?"@,
        params_view(r.params@) == seq![SqlValueView::Text(value@), SqlValueView::Text(key@)],
{
    let params = vec![SqlValue::Text(String::from_str(value)), SqlValue::Text(String::from_str(key))];
    proof {
        assert(params_view(params@) =~= seq![SqlValueView::Text(value@), SqlValueView::Text(key@)]);
    }
    SqlStatement {
        sql: String::from_str(
            "UPDATE system_config SET config_value = ?, updated_at = datetime('now') WHERE config_key = ?",
        ),
        params,
    }
}

/// The answer of setting entry `key`: success when an entry changed,
/// otherwise "配置项不存在: <key>".
pub fn set_config_outcome(key: &str, affected: usize) -> (r: ConfigResponse)
    ensures
        affected > 0 ==> r.success && r.message is None,
        affected == 0 ==> !r.success && (r.message matches Some(m) && m@ == "配置项不存在: "@ + key@),
{
    if affected > 0 {
        ConfigResponse::success()
    } else {
        let mut m = String::from_str("配置项不存在: ");
        m.append(key);
        ConfigResponse::error(m)
    }
}

} // verus!
