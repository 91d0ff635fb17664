//! The room commands' reading of a requested status.

use vstd::prelude::*;

use crate::errors::{AppError, Result};
use crate::models::room::{room_status_from_label, RoomStatus};

verus! {

/// "无效的房间状态 '<status>': 未知房间状态".
pub open spec fn invalid_requested_status_message(status: Seq<char>) -> Seq<char> {
    "无效的房间状态 '"@ + status + "': "@ + "未知房间状态"@
}

/// Reads the status a manual status change asks for; an unknown label is
/// an invalid-status error naming it.
pub fn parse_requested_status(status: &str) -> (r: Result<RoomStatus>)
    ensures
        match room_status_from_label(status@) {
            Some(s) => r matches Ok(x) && x == s,
            None => r matches Err(AppError::InvalidStatus(m)) && m@ == invalid_requested_status_message(status@),
        },
{
    match RoomStatus::from_str(status) {
        Ok(s) => Ok(s),
        Err(e) => {
            let mut m = String::from_str("无效的房间状态 '");
            m.append(status);
            m.append("': ");
            m.append(e);
            Err(AppError::InvalidStatus(m))
        },
    }
}

} // verus!
