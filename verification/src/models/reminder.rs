//! Reminders.

use vstd::prelude::*;

verus! {

/// A reminder.
#[derive(Debug, Clone)]
pub struct Reminder {
    pub id: i64,
    pub reminder_type: String,
    pub room_id: Option<i64>,
    pub lease_id: Option<i64>,
    pub title: String,
    pub message: Option<String>,
    pub scheduled_date: Option<String>,
    pub reminded_at: Option<String>,
    pub is_sent: bool,
    pub is_read: bool,
    pub created_at: Option<String>,
}

/// Request to create a reminder.
#[derive(Debug, Clone)]
pub struct CreateReminderRequest {
    pub reminder_type: String,
    pub room_id: Option<i64>,
    pub lease_id: Option<i64>,
    pub title: String,
    pub message: Option<String>,
    pub scheduled_date: Option<String>,
}

/// Request to change the sent/read flags of a reminder.
#[derive(Debug, Clone)]
pub struct UpdateReminderStatusRequest {
    pub is_sent: Option<bool>,
    pub is_read: Option<bool>,
}

/// Outcome of a reminder operation.
#[derive(Debug, Clone)]
pub struct ReminderResponse {
    pub success: bool,
    pub reminder_id: Option<i64>,
    pub message: Option<String>,
}

/// A list of reminders.
#[derive(Debug, Clone)]
pub struct ReminderListResponse {
    pub success: bool,
    pub data: Vec<Reminder>,
    pub message: Option<String>,
}

} // verus!
