//! Requests and responses of the account-management commands.

use vstd::prelude::*;

use crate::auth::{user_info_of, User, UserInfo};

verus! {

/// The answer of an account-management command.
#[derive(Debug, Clone)]
pub struct UserManagementResponse {
    pub success: bool,
    pub message: String,
    pub user_id: Option<i64>,
}

/// A request to create an account.
#[derive(Debug, Clone)]
pub struct CreateUserRequest {
    pub username: String,
    pub password: String,
    pub role: String,
    pub display_name: Option<String>,
}

/// A request to change an account's role, display name or active flag.
#[derive(Debug, Clone)]
pub struct UpdateUserRequest {
    pub role: Option<String>,
    pub display_name: Option<String>,
    pub is_active: Option<bool>,
}

impl UserManagementResponse {
    /// "用户 '<username>' 创建成功" for the new account `id`.
    pub fn created(username: &str, id: i64) -> (r: UserManagementResponse)
        ensures
            r.success,
            r.message@ == "用户 '"@ + username@ + "' 创建成功"@,
            r.user_id == Some(id),
    {
        let mut message = String::from_str("用户 '");
        message.append(username);
        message.append("' 创建成功");
        UserManagementResponse { success: true, message, user_id: Some(id) }
    }

    /// The answer of an update of account `id`: "用户更新成功" when a row
    /// changed, "无变更" otherwise.
    pub fn updated(id: i64, updated: bool) -> (r: UserManagementResponse)
        ensures
            r.success == updated,
            r.message@ == (if updated { "用户更新成功"@ } else { "无变更"@ }),
            r.user_id == Some(id),
    {
        let message = if updated {
            String::from_str("用户更新成功")
        } else {
            String::from_str("无变更")
        };
        UserManagementResponse { success: updated, message, user_id: Some(id) }
    }

    /// The answer of a password reset of account `id`: "密码重置成功", or
    /// "用户不存在" when no account changed.
    pub fn password_reset(id: i64, reset: bool) -> (r: UserManagementResponse)
        ensures
            r.success == reset,
            r.message@ == (if reset { "密码重置成功"@ } else { "用户不存在"@ }),
            r.user_id == Some(id),
    {
        let message = if reset {
            String::from_str("密码重置成功")
        } else {
            String::from_str("用户不存在")
        };
        UserManagementResponse { success: reset, message, user_id: Some(id) }
    }

    /// The answer of a deletion of account `id`: "用户删除成功", or
    /// "用户不存在" when no account changed.
    pub fn deleted(id: i64, deleted: bool) -> (r: UserManagementResponse)
        ensures
            r.success == deleted,
            r.message@ == (if deleted { "用户删除成功"@ } else { "用户不存在"@ }),
            r.user_id == Some(id),
    {
        let message = if deleted {
            String::from_str("用户删除成功")
        } else {
            String::from_str("用户不存在")
        };
        UserManagementResponse { success: deleted, message, user_id: Some(id) }
    }
}

/// The public part of the signed-in account, if any.
pub fn current_user_info(user: Option<User>) -> (r: Option<UserInfo>)
    ensures
        match user {
            Some(u) => r == Some(user_info_of(u)),
            None => r is None,
        },
{
    match user {
        Some(u) => Some(
            UserInfo {
                id: u.id,
                username: u.username,
                role: u.role,
                display_name: u.display_name,
            },
        ),
        None => None,
    }
}

} // verus!
