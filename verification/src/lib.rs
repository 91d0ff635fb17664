//! Apartment management core: room, lease and bill state machines, billing
//! rules, authentication decisions and database-schema planning.

pub mod text;
pub mod errors;
pub mod models;
pub mod auth;
pub mod auth_async;
pub mod db;
pub mod phase0_validation;
pub mod commands;
pub mod interceptors;
