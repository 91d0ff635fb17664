use apartment_manager::auth::{
    check_permission, complete_login, create_user, delete_user, generate_token, get_user_by_token,
    hash_password, login, logout, require_admin, require_login, require_permission,
    reset_password, update_user, verify_password, PermissionAction, Role, TokenStore, User,
};
use apartment_manager::auth_async;
use apartment_manager::commands::auth_commands::{current_user_info, UserManagementResponse};
use apartment_manager::db::statement::SqlValue;
use apartment_manager::errors::AppError;

fn sample_user(id: i64, role: &str, hash: &str, active: bool) -> User {
    User {
        id,
        username: "test_user".to_string(),
        password_hash: hash.to_string(),
        role: role.to_string(),
        display_name: Some("Test".to_string()),
        is_active: active,
    }
}

#[test]
fn test_role_from_str_valid() {
    assert_eq!(Role::from_str("admin").unwrap(), Role::Admin);
    assert_eq!(Role::from_str("frontdesk").unwrap(), Role::Frontdesk);
    assert_eq!(Role::from_str("maintenance").unwrap(), Role::Maintenance);
    assert_eq!(Role::from_str("finance").unwrap(), Role::Finance);
}

#[test]
fn test_role_from_str_invalid() {
    assert!(Role::from_str("superadmin").is_err());
    assert!(Role::from_str("").is_err());
    assert!(Role::from_str("ADMIN").is_err());
}

#[test]
fn test_role_as_str() {
    assert_eq!(Role::Admin.as_str(), "admin");
    assert_eq!(Role::Frontdesk.as_str(), "frontdesk");
    assert_eq!(Role::Maintenance.as_str(), "maintenance");
    assert_eq!(Role::Finance.as_str(), "finance");
}

#[test]
fn test_hash_password_and_verify() {
    let password = "test123456";
    let hash = hash_password(password).unwrap();
    assert_ne!(hash, password);
    assert!(bcrypt::verify(password, &hash).unwrap());
    assert!(!bcrypt::verify("wrong_password", &hash).unwrap());
}

#[test]
fn test_hash_password_different_hashes() {
    let password = "same_password";
    let hash1 = hash_password(password).unwrap();
    let hash2 = hash_password(password).unwrap();
    assert_ne!(hash1, hash2);
}

#[test]
fn test_token_store_crud() {
    let mut store = TokenStore::new();
    let token = format!("test-{}", 1_700_000_000_000u64);

    assert!(get_user_by_token(&store, &token).is_none());

    let user = User {
        id: 999,
        username: "test_user".to_string(),
        password_hash: String::new(),
        role: "admin".to_string(),
        display_name: Some("Test".to_string()),
        is_active: true,
    };

    store.insert(token.clone(), user.clone());

    let retrieved = get_user_by_token(&store, &token);
    assert!(retrieved.is_some());
    assert_eq!(retrieved.unwrap().username, "test_user");

    logout(&mut store, &token);
    assert!(get_user_by_token(&store, &token).is_none());
}

#[test]
fn test_permission_matrix_admin() {
    let grants = [
        ("admin", "rooms", "view", "manage"),
        ("admin", "bills", "manage", "manage"),
        ("frontdesk", "rooms", "view", "read"),
        ("frontdesk", "bills", "create", "write"),
    ];
    let lookup = |role: &str, resource: &str, permission: &str| {
        grants
            .iter()
            .find(|g| g.0 == role && g.1 == resource && g.2 == permission)
            .map(|g| g.3)
    };

    let result = check_permission(lookup("admin", "rooms", "view"), &PermissionAction::Manage);
    assert!(result.unwrap());

    let result = check_permission(lookup("frontdesk", "rooms", "view"), &PermissionAction::Read);
    assert!(result.unwrap());

    let result = check_permission(lookup("frontdesk", "rooms", "delete"), &PermissionAction::Write);
    assert!(result.is_err());
}

#[test]
fn test_permission_action_ordering() {
    assert!(PermissionAction::Manage >= PermissionAction::Write);
    assert!(PermissionAction::Write >= PermissionAction::Read);
    assert!(PermissionAction::Manage >= PermissionAction::Read);
    assert!(PermissionAction::Read >= PermissionAction::Read);
}

#[test]
fn permission_levels_read_back_and_compare() {
    assert_eq!(PermissionAction::from_str("read").unwrap(), PermissionAction::Read);
    assert_eq!(PermissionAction::from_str("none").unwrap(), PermissionAction::NoAccess);
    match PermissionAction::from_str("admin") {
        Err(AppError::InvalidInput(m)) => assert_eq!(m, "未知权限动作: admin"),
        other => panic!("unexpected {:?}", other),
    }
    assert!(PermissionAction::Manage.satisfies(&PermissionAction::Write));
    assert!(PermissionAction::Write.satisfies(&PermissionAction::Read));
    assert!(!PermissionAction::Read.satisfies(&PermissionAction::Write));
    assert!(!PermissionAction::NoAccess.satisfies(&PermissionAction::Read));
}

#[test]
fn permission_check_errors() {
    match check_permission(None, &PermissionAction::Read) {
        Err(AppError::PermissionDenied(m)) => assert_eq!(m, "权限校验失败，请联系管理员"),
        other => panic!("unexpected {:?}", other),
    }
    match check_permission(Some("everything"), &PermissionAction::Read) {
        Err(AppError::InvalidInput(m)) => assert_eq!(m, "未知权限动作: everything"),
        other => panic!("unexpected {:?}", other),
    }
    assert!(!check_permission(Some("read"), &PermissionAction::Manage).unwrap());
}

#[test]
fn token_has_hex_time_and_decimal_id() {
    let user = sample_user(42, "admin", "", true);
    assert_eq!(generate_token(&user, 255), "ff-42");
    assert_eq!(generate_token(&user, 0), "0-42");
    let neg = sample_user(-7, "admin", "", true);
    assert_eq!(generate_token(&neg, 4096), "1000--7");
}

#[test]
fn verify_password_checks_the_hash() {
    let hash = hash_password("secret-1").unwrap();
    assert_eq!(hash.len(), 60);
    assert!(verify_password("secret-1", &hash).unwrap());
    assert!(!verify_password("secret-2", &hash).unwrap());
    match verify_password("secret-1", "not a bcrypt hash") {
        Err(AppError::Authentication(m)) => assert_eq!(m, "密码验证失败"),
        other => panic!("unexpected {:?}", other),
    }
}

#[test]
fn login_issues_a_session_for_the_right_password() {
    let hash = hash_password("pw-123").unwrap();
    let mut store = TokenStore::new();
    let user = sample_user(5, "frontdesk", &hash, true);
    let resp = login(&mut store, Some(user.clone()), "pw-123", 16).unwrap();
    assert!(resp.success);
    assert_eq!(resp.token.as_deref(), Some("10-5"));
    assert_eq!(resp.user.as_ref().unwrap().id, 5);
    assert_eq!(resp.user.as_ref().unwrap().role, "frontdesk");
    assert!(resp.message.is_none());
    assert_eq!(get_user_by_token(&store, "10-5").unwrap().id, 5);

    let wrong = login(&mut store, Some(user.clone()), "pw-124", 17).unwrap();
    assert!(!wrong.success);
    assert!(wrong.token.is_none());
    assert!(wrong.user.is_none());
    assert_eq!(wrong.message.as_deref(), Some("用户名或密码错误"));
    assert!(get_user_by_token(&store, "11-5").is_none());

    match login(&mut store, None, "pw-123", 18) {
        Err(AppError::Authentication(m)) => assert_eq!(m, "用户名或密码错误"),
        other => panic!("unexpected {:?}", other),
    }
    let broken = sample_user(6, "admin", "garbage", true);
    match login(&mut store, Some(broken), "pw-123", 19) {
        Err(AppError::Authentication(m)) => assert_eq!(m, "用户名或密码错误"),
        other => panic!("unexpected {:?}", other),
    }
}

#[test]
fn complete_login_decides_from_the_checked_password() {
    let mut store = TokenStore::new();
    let user = sample_user(8, "admin", "", true);
    let ok = complete_login(&mut store, Some(user.clone()), Some(true), 1).unwrap();
    assert_eq!(ok.token.as_deref(), Some("1-8"));
    let no = complete_login(&mut store, Some(user), Some(false), 2).unwrap();
    assert!(!no.success);
    assert!(get_user_by_token(&store, "2-8").is_none());
}

#[test]
fn pooled_login_answers_missing_account_without_error() {
    let mut store = TokenStore::new();
    let resp = auth_async::complete_login(&mut store, None, None, 3).unwrap();
    assert!(!resp.success);
    assert!(resp.user.is_none() && resp.token.is_none());
    let unknown = auth_async::login(&mut store, None, "x", 4).unwrap();
    let hash = hash_password("p2").unwrap();
    let wrong = auth_async::login(&mut store, Some(sample_user(10, "admin", &hash, true)), "q2", 4).unwrap();
    assert_eq!((unknown.success, unknown.token.clone(), unknown.user.is_none(), unknown.message.clone()),
               (wrong.success, wrong.token.clone(), wrong.user.is_none(), wrong.message.clone()));
    assert_eq!(resp.message.as_deref(), Some("用户名或密码错误"));
    let user = sample_user(9, "admin", "", false);
    let ok = auth_async::complete_login(&mut store, Some(user), Some(true), 3).unwrap();
    assert!(ok.success);
    // the session of an inactive account is not honoured by the pooled layer
    assert!(auth_async::get_user_by_token(&store, "3-9").is_none());
    assert!(get_user_by_token(&store, "3-9").is_some());
    auth_async::logout(&mut store, "3-9");
    assert!(get_user_by_token(&store, "3-9").is_none());
}

#[test]
fn create_user_checks_name_and_role() {
    match create_user("alice", "pw", "admin", 1) {
        Err(AppError::InvalidInput(m)) => assert_eq!(m, "用户名 'alice' 已存在"),
        other => panic!("unexpected {:?}", other),
    }
    match create_user("bob", "pw", "boss", 0) {
        Err(AppError::InvalidInput(m)) => assert_eq!(m, "未知角色: boss"),
        other => panic!("unexpected {:?}", other),
    }
    let hash = create_user("carol", "pw-9", "finance", 0).unwrap();
    assert!(bcrypt::verify("pw-9", &hash).unwrap());
}

#[test]
fn update_user_statement_lists_given_fields() {
    let st = update_user(3, Some("finance"), Some("Zed"), Some(false)).unwrap().unwrap();
    assert_eq!(
        st.sql,
        "UPDATE users SET role = ?, display_name = ?, is_active = ?, updated_at = datetime('now') WHERE id = ?"
    );
    assert_eq!(st.params.len(), 4);
    assert!(matches!(&st.params[0], SqlValue::Text(t) if t == "finance"));
    assert!(matches!(&st.params[2], SqlValue::Integer(0)));
    assert!(matches!(&st.params[3], SqlValue::Integer(3)));
    assert!(update_user(3, None, None, None).unwrap().is_none());
    assert!(matches!(update_user(3, Some("root"), None, None), Err(AppError::InvalidInput(_))));
}

#[test]
fn pooled_update_user_writes_values_inline() {
    let st = auth_async::update_user(12, None, Some("Ann"), Some(true)).unwrap().unwrap();
    assert_eq!(
        st.sql,
        "UPDATE users SET display_name = 'Ann', is_active = 1, updated_at = datetime('now') WHERE id = 12"
    );
    assert!(st.params.is_empty());
}

#[test]
fn last_admin_cannot_be_deleted() {
    match delete_user(1, "admin") {
        Err(AppError::Business(m)) => assert_eq!(m, "无法删除最后一个管理员账户"),
        other => panic!("unexpected {:?}", other),
    }
    assert!(delete_user(2, "admin").is_ok());
    assert!(delete_user(1, "frontdesk").is_ok());
    assert!(auth_async::delete_user(1, Some("admin")).is_err());
    assert!(auth_async::delete_user(1, None).is_ok());
}

#[test]
fn reset_password_hashes_the_new_password() {
    let st = reset_password(4, "new-pw").unwrap();
    assert_eq!(st.sql, "UPDATE users SET password_hash = ?, updated_at = datetime('now') WHERE id = ?");
    match &st.params[0] {
        SqlValue::Text(h) => assert!(bcrypt::verify("new-pw", h).unwrap()),
        other => panic!("unexpected {:?}", other),
    }
    assert!(matches!(&st.params[1], SqlValue::Integer(4)));
}

#[test]
fn command_guards() {
    let admin = sample_user(1, "admin", "", true);
    let desk = sample_user(2, "frontdesk", "", true);
    assert_eq!(require_admin(Some(admin.clone())).unwrap().id, 1);
    match require_admin(Some(desk.clone())) {
        Err(AppError::PermissionDenied(m)) => assert_eq!(m, "仅管理员可执行此操作"),
        other => panic!("unexpected {:?}", other),
    }
    match require_admin(None) {
        Err(AppError::Authentication(m)) => assert_eq!(m, "请先登录"),
        other => panic!("unexpected {:?}", other),
    }
    assert_eq!(require_login(Some(desk)).unwrap().id, 2);
    assert!(require_login(None).is_err());

    assert!(require_permission("frontdesk", "rooms", "view", PermissionAction::Read, Ok(true)).is_ok());
    match require_permission("frontdesk", "rooms", "delete", PermissionAction::NoAccess, Ok(false)) {
        Err(AppError::PermissionDenied(m)) => assert_eq!(
            m,
            "权限不足: role=frontdesk, resource=rooms, permission=delete, action=None"
        ),
        other => panic!("unexpected {:?}", other),
    }
    match require_permission("a", "b", "c", PermissionAction::Write, Err(AppError::Business("x".to_string()))) {
        Err(AppError::Business(m)) => assert_eq!(m, "x"),
        other => panic!("unexpected {:?}", other),
    }
}

#[test]
fn permission_cache_answers_like_storage() {
    let mut cache = auth_async::PermissionCache::new();
    assert!(auth_async::cached_permission(&cache, "frontdesk", "bills", "create", &PermissionAction::Write).is_none());
    let first = auth_async::check_permission(&mut cache, "frontdesk", "bills", "create", Some("write"), &PermissionAction::Write).unwrap();
    assert!(first);
    assert_eq!(
        auth_async::cached_permission(&cache, "frontdesk", "bills", "create", &PermissionAction::Write),
        Some(true)
    );
    assert_eq!(
        auth_async::cached_permission(&cache, "frontdesk", "bills", "create", &PermissionAction::Manage),
        Some(false)
    );
    // no grant gives no access, and is cached too
    assert!(!auth_async::check_permission(&mut cache, "finance", "rooms", "delete", None, &PermissionAction::Read).unwrap());
    assert_eq!(cache.get("finance", "rooms", "delete"), Some(PermissionAction::NoAccess));
    // an unknown level is refused and not cached
    assert!(auth_async::check_permission(&mut cache, "x", "y", "z", Some("all"), &PermissionAction::Read).is_err());
    assert!(cache.get("x", "y", "z").is_none());
    auth_async::invalidate_permission_cache(&mut cache);
    assert!(cache.get("frontdesk", "bills", "create").is_none());
}

#[test]
fn user_management_answers() {
    let r = UserManagementResponse::created("dora", 11);
    assert!(r.success);
    assert_eq!(r.message, "用户 'dora' 创建成功");
    assert_eq!(r.user_id, Some(11));
    assert_eq!(UserManagementResponse::updated(2, false).message, "无变更");
    assert_eq!(UserManagementResponse::updated(2, true).message, "用户更新成功");
    assert_eq!(UserManagementResponse::password_reset(2, true).message, "密码重置成功");
    assert_eq!(UserManagementResponse::password_reset(2, false).message, "用户不存在");
    assert_eq!(UserManagementResponse::deleted(2, true).message, "用户删除成功");
    assert!(!UserManagementResponse::deleted(2, false).success);
    let info = current_user_info(Some(sample_user(3, "admin", "h", true))).unwrap();
    assert_eq!(info.username, "test_user");
    assert!(current_user_info(None).is_none());
}
