//! Where the database file of the pooled connection lives.

use vstd::prelude::*;

use crate::db::connection::DatabasePath;
use crate::errors::{AppError, Result};

verus! {

/// "数据库路径未初始化，请先调用 init_db_async".
pub open spec fn async_path_unset_message() -> Seq<char> {
    "数据库路径未初始化，请先调用 init_db_async"@
}

/// The database path of the pool; a business error before it has been set.
pub fn get_database_path(slot: &DatabasePath) -> (r: Result<String>)
    ensures
        match slot@ {
            Some(p) => r matches Ok(s) && s@ == p,
            None => r matches Err(AppError::Business(m)) && m@ == async_path_unset_message(),
        },
{
    match crate::db::connection::get_database_path(slot) {
        Ok(p) => Ok(p),
        Err(_) => Err(AppError::Business(String::from_str("数据库路径未初始化，请先调用 init_db_async"))),
    }
}

} // verus!
