//! Requests and responses of the front-end commands.

pub mod auth_commands;
pub mod config_commands;
pub mod room_commands;
pub mod deposit_commands;
