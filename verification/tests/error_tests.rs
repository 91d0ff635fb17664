use apartment_manager::errors::AppError;
use apartment_manager::interceptors::operator_label;

#[test]
fn error_display_texts() {
    assert_eq!(AppError::Business("x".to_string()).to_string(), "业务错误: x");
    assert_eq!(AppError::not_found("房间".to_string(), 12).to_string(), "数据不存在: 房间 12");
    assert_eq!(AppError::InvalidStatus("s".to_string()).to_string(), "状态不允许: s");
    assert_eq!(AppError::ConcurrentModification.to_string(), "并发冲突: 数据已被其他窗口修改，请刷新后重试");
    assert_eq!(AppError::Database("locked".to_string()).to_string(), "数据库错误: locked");
}

#[test]
fn error_user_messages_hide_internals() {
    assert_eq!(AppError::not_found("租客".to_string(), -3).user_message(), "租客 -3 不存在");
    assert_eq!(AppError::Database("disk I/O".to_string()).user_message(), "数据库操作失败");
    assert_eq!(AppError::Serialization("eof".to_string()).user_message(), "数据序列化失败");
    assert_eq!(AppError::invalid_amount("负数".to_string()).user_message(), "负数");
}

#[test]
fn error_responses_carry_kind_and_details() {
    let r = AppError::not_found("账单".to_string(), 5).to_error_response();
    assert_eq!(r.error_type, "not_found");
    assert_eq!(r.message, "账单 5 不存在");
    let d = r.details.unwrap();
    assert_eq!(d.entity, "账单");
    assert_eq!(d.id, 5);
    let r = AppError::permission_denied("no".to_string()).to_error_response();
    assert_eq!(r.error_type, "permission_denied");
    assert!(r.details.is_none());
    assert_eq!(AppError::authentication("a".to_string()).error_type(), "authentication");
    assert_eq!(AppError::invalid_input("b".to_string()).error_type(), "invalid_input");
    assert_eq!(AppError::business("c".to_string()).error_type(), "business");
    assert_eq!(AppError::invalid_status("d".to_string()).error_type(), "invalid_status");
}

#[test]
fn operator_defaults_to_system() {
    assert_eq!(operator_label(None), "system");
    assert_eq!(operator_label(Some("7".to_string())), "7");
}
