//! Migration planning for the extended schema (collection agent and
//! operations assistant included).

use vstd::prelude::*;

use crate::db::migrations::{
    incremental_plan, migration_plan_for, plan_migrations_to, version_before, MigrationPlan,
    MigrationStep,
};
use crate::errors::{AppError, Result};

pub use crate::db::migrations::version_less_than;

verus! {

/// Extended schema version this library migrates to.
pub const CURRENT_VERSION: &'static str = "2.1.4";

/// "数据库版本 <current> 高于目标版本 2.1.4".
pub open spec fn newer_schema_message(current: Seq<char>) -> Seq<char> {
    "数据库版本 "@ + current + " 高于目标版本 "@ + CURRENT_VERSION@
}

/// The incremental steps of the extended schema from `from_version`.
pub fn run_incremental_migrations(from_version: &str) -> (r: Vec<MigrationStep>)
    ensures
        r@ == incremental_plan(from_version@, true),
{
    crate::db::migrations::run_incremental_migrations(from_version, true)
}

/// Plans the migration of a database at `current_version` to the extended
/// schema; a newer database is a business error.
pub fn run_migrations(current_version: &str) -> (r: Result<MigrationPlan>)
    ensures
        current_version@ != CURRENT_VERSION@ && !version_before(current_version@, CURRENT_VERSION@)
            ==> (r matches Err(AppError::Business(m)) && m@ == newer_schema_message(current_version@)),
        !(current_version@ != CURRENT_VERSION@ && !version_before(current_version@, CURRENT_VERSION@))
            ==> (r matches Ok(p) && migration_plan_for(current_version@, CURRENT_VERSION@, true, p)),
{
    let plan = plan_migrations_to(current_version, CURRENT_VERSION, true);
    match plan {
        MigrationPlan::NewerThanTarget => {
            let m = String::from_str("数据库版本 ").concat(current_version).concat(" 高于目标版本 ").concat(
                CURRENT_VERSION,
            );
            Err(AppError::Business(m))
        },
        _ => Ok(plan),
    }
}

} // verus!
