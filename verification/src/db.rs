//! Database layer: the decisions and statement texts that the storage code
//! executes.

pub mod statement;
pub mod row;
pub mod mapping;
pub mod migrations;
pub mod migrations_async;
pub mod schema_steps;
pub mod connection;
pub mod connection_async;
pub mod queries;
pub mod queries_async;
