//! Where the database file lives.

use vstd::prelude::*;

use crate::errors::{AppError, Result};

verus! {

/// The database path, once it has been set.
pub struct DatabasePath {
    path: Option<String>,
}

impl View for DatabasePath {
    type V = Option<Seq<char>>;

    closed spec fn view(&self) -> Option<Seq<char>> {
        match self.path {
            Some(p) => Some(p@),
            None => None,
        }
    }
}

impl DatabasePath {
    /// No path set yet.
    pub fn new() -> (r: DatabasePath)
        ensures
            r@ is None,
    {
        DatabasePath { path: None }
    }
}

/// "数据库路径未初始化，请先调用 init_db".
pub open spec fn path_unset_message() -> Seq<char> {
    "数据库路径未初始化，请先调用 init_db"@
}

/// Sets the database path.
pub fn init_db(slot: &mut DatabasePath, path: String) -> (r: Result<()>)
    ensures
        r is Ok,
        final(slot)@ == Some(path@),
{
    slot.path = Some(path);
    Ok(())
}

/// The database path; a business error before it has been set.
pub fn get_database_path(slot: &DatabasePath) -> (r: Result<String>)
    ensures
        match slot@ {
            Some(p) => r matches Ok(s) && s@ == p,
            None => r matches Err(AppError::Business(m)) && m@ == path_unset_message(),
        },
{
    match &slot.path {
        Some(p) => Ok(p.clone()),
        None => Err(AppError::Business(String::from_str("数据库路径未初始化，请先调用 init_db"))),
    }
}

} // verus!
