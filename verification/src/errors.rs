//! The error type shared by every operation of the library.

use vstd::prelude::*;

use crate::text::push_int;

verus! {

/// Every failure a business operation can report.
#[derive(Debug)]
pub enum AppError {
    Business(String),
    NotFound { entity: String, id: i64 },
    InvalidStatus(String),
    InvalidAmount(String),
    ConcurrentModification,
    Authentication(String),
    PermissionDenied(String),
    InvalidInput(String),
    Database(String),
    Serialization(String),
}

/// Result of an operation of the library.
pub type Result<T> = std::result::Result<T, AppError>;

/// Extra data attached to a "not found" error.
#[derive(Debug, Clone)]
pub struct NotFoundDetails {
    pub entity: String,
    pub id: i64,
}

/// The structured error handed to the front end.
#[derive(Debug, Clone)]
pub struct ErrorResponse {
    pub error_type: String,
    pub message: String,
    pub details: Option<NotFoundDetails>,
}

/// Text shown to the user for an error; database and serialization details
/// are never shown.
pub open spec fn user_message_text(e: AppError) -> Seq<char> {
    match e {
        AppError::Business(m) => m@,
        AppError::NotFound { entity, id } => entity@ + " "@ + crate::text::int_text(id as int)
            + " 不存在"@,
        AppError::InvalidStatus(m) => m@,
        AppError::InvalidAmount(m) => m@,
        AppError::ConcurrentModification => "数据已被其他窗口修改，请刷新后重试"@,
        AppError::Authentication(m) => m@,
        AppError::PermissionDenied(m) => m@,
        AppError::InvalidInput(m) => m@,
        AppError::Database(_) => "数据库操作失败"@,
        AppError::Serialization(_) => "数据序列化失败"@,
    }
}

/// The display text of an error: its category and its detail.
pub open spec fn display_text(e: AppError) -> Seq<char> {
    match e {
        AppError::Business(m) => "业务错误: "@ + m@,
        AppError::NotFound { entity, id } => "数据不存在: "@ + entity@ + " "@ + crate::text::int_text(id as int),
        AppError::InvalidStatus(m) => "状态不允许: "@ + m@,
        AppError::InvalidAmount(m) => "金额错误: "@ + m@,
        AppError::ConcurrentModification => "并发冲突: 数据已被其他窗口修改，请刷新后重试"@,
        AppError::Authentication(m) => "认证失败: "@ + m@,
        AppError::PermissionDenied(m) => "权限不足: "@ + m@,
        AppError::InvalidInput(m) => "输入无效: "@ + m@,
        AppError::Database(m) => "数据库错误: "@ + m@,
        AppError::Serialization(m) => "序列化错误: "@ + m@,
    }
}

/// The machine-readable kind of an error.
pub open spec fn error_type_text(e: AppError) -> Seq<char> {
    match e {
        AppError::Business(_) => "business"@,
        AppError::NotFound { .. } => "not_found"@,
        AppError::InvalidStatus(_) => "invalid_status"@,
        AppError::InvalidAmount(_) => "invalid_amount"@,
        AppError::ConcurrentModification => "concurrent_modification"@,
        AppError::Authentication(_) => "authentication"@,
        AppError::PermissionDenied(_) => "permission_denied"@,
        AppError::InvalidInput(_) => "invalid_input"@,
        AppError::Database(_) => "database"@,
        AppError::Serialization(_) => "serialization"@,
    }
}

impl AppError {
    pub fn business(msg: String) -> (r: AppError)
        ensures
            r == AppError::Business(msg),
    {
        AppError::Business(msg)
    }

    pub fn not_found(entity: String, id: i64) -> (r: AppError)
        ensures
            r == (AppError::NotFound { entity, id }),
    {
        AppError::NotFound { entity, id }
    }

    pub fn invalid_status(msg: String) -> (r: AppError)
        ensures
            r == AppError::InvalidStatus(msg),
    {
        AppError::InvalidStatus(msg)
    }

    pub fn invalid_amount(msg: String) -> (r: AppError)
        ensures
            r == AppError::InvalidAmount(msg),
    {
        AppError::InvalidAmount(msg)
    }

    pub fn authentication(msg: String) -> (r: AppError)
        ensures
            r == AppError::Authentication(msg),
    {
        AppError::Authentication(msg)
    }

    pub fn permission_denied(msg: String) -> (r: AppError)
        ensures
            r == AppError::PermissionDenied(msg),
    {
        AppError::PermissionDenied(msg)
    }

    pub fn invalid_input(msg: String) -> (r: AppError)
        ensures
            r == AppError::InvalidInput(msg),
    {
        AppError::InvalidInput(msg)
    }

    /// The display text of this error.
    pub fn to_string(&self) -> (r: String)
        ensures
            r@ == display_text(*self),
    {
        let (prefix, detail): (&str, Option<&String>) = match self {
            AppError::Business(m) => ("业务错误: ", Some(m)),
            AppError::NotFound { entity, .. } => ("数据不存在: ", Some(entity)),
            AppError::InvalidStatus(m) => ("状态不允许: ", Some(m)),
            AppError::InvalidAmount(m) => ("金额错误: ", Some(m)),
            AppError::ConcurrentModification => ("并发冲突: 数据已被其他窗口修改，请刷新后重试", None),
            AppError::Authentication(m) => ("认证失败: ", Some(m)),
            AppError::PermissionDenied(m) => ("权限不足: ", Some(m)),
            AppError::InvalidInput(m) => ("输入无效: ", Some(m)),
            AppError::Database(m) => ("数据库错误: ", Some(m)),
            AppError::Serialization(m) => ("序列化错误: ", Some(m)),
        };
        let mut s = String::from_str(prefix);
        if let Some(d) = detail {
            s.append(d.as_str());
        }
        if let AppError::NotFound { id, .. } = self {
            s.append(" ");
            push_int(&mut s, *id);
        }
        s
    }

    /// The message shown to the user.
    pub fn user_message(&self) -> (r: String)
        ensures
            r@ == user_message_text(*self),
    {
        match self {
            AppError::Business(msg) => msg.clone(),
            AppError::NotFound { entity, id } => {
                let mut s = entity.clone();
                s.append(" ");
                push_int(&mut s, *id);
                s.append(" 不存在");
                s
            },
            AppError::InvalidStatus(msg) => msg.clone(),
            AppError::InvalidAmount(msg) => msg.clone(),
            AppError::ConcurrentModification => String::from_str("数据已被其他窗口修改，请刷新后重试"),
            AppError::Authentication(msg) => msg.clone(),
            AppError::PermissionDenied(msg) => msg.clone(),
            AppError::InvalidInput(msg) => msg.clone(),
            AppError::Database(_) => String::from_str("数据库操作失败"),
            AppError::Serialization(_) => String::from_str("数据序列化失败"),
        }
    }

    /// The machine-readable kind of this error.
    pub fn error_type(&self) -> (r: String)
        ensures
            r@ == error_type_text(*self),
    {
        match self {
            AppError::Business(_) => String::from_str("business"),
            AppError::NotFound { .. } => String::from_str("not_found"),
            AppError::InvalidStatus(_) => String::from_str("invalid_status"),
            AppError::InvalidAmount(_) => String::from_str("invalid_amount"),
            AppError::ConcurrentModification => String::from_str("concurrent_modification"),
            AppError::Authentication(_) => String::from_str("authentication"),
            AppError::PermissionDenied(_) => String::from_str("permission_denied"),
            AppError::InvalidInput(_) => String::from_str("invalid_input"),
            AppError::Database(_) => String::from_str("database"),
            AppError::Serialization(_) => String::from_str("serialization"),
        }
    }

    /// The structured form of this error sent to the front end: its kind,
    /// the user message, and for "not found" the entity and id.
    pub fn to_error_response(&self) -> (r: ErrorResponse)
        ensures
            r.error_type@ == error_type_text(*self),
            r.message@ == user_message_text(*self),
            match *self {
                AppError::NotFound { entity, id } => r.details matches Some(d) && d.entity@
                    == entity@ && d.id == id,
                _ => r.details is None,
            },
    {
        let details = match self {
            AppError::NotFound { entity, id } => Some(
                NotFoundDetails { entity: entity.clone(), id: *id },
            ),
            _ => None,
        };
        ErrorResponse { error_type: self.error_type(), message: self.user_message(), details }
    }
}

} // verus!
