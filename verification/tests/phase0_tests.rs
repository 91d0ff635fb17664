use apartment_manager::phase0_validation::{MockRepository, RepositoryError};

#[test]
fn test_repository_error() {
    let err = RepositoryError::NotFound("test".to_string());
    assert!(err.to_string().contains("不存在"));

    let err = RepositoryError::Database("connection failed".to_string());
    assert!(err.to_string().contains("数据库错误"));
}

#[test]
fn test_mock_repository() {
    let mut repo = MockRepository::new();

    repo.save(1, "test".to_string()).unwrap();

    let result = repo.find_by_id(1).unwrap();
    assert_eq!(result, Some("test".to_string()));

    let result = repo.find_by_id(2).unwrap();
    assert_eq!(result, None);
}

#[test]
fn repository_keeps_the_latest_value() {
    let mut repo = MockRepository::new();
    repo.save(7, "a".to_string()).unwrap();
    repo.save(8, "b".to_string()).unwrap();
    repo.save(7, "c".to_string()).unwrap();
    assert_eq!(repo.find_by_id(7).unwrap(), Some("c".to_string()));
    assert_eq!(repo.find_by_id(8).unwrap(), Some("b".to_string()));
}

#[test]
fn repository_error_texts() {
    assert_eq!(RepositoryError::Validation("x".to_string()).to_string(), "数据验证失败: x");
    assert_eq!(RepositoryError::Concurrency("y".to_string()).to_string(), "并发冲突: y");
    assert_eq!(RepositoryError::Transaction("z".to_string()).to_string(), "事务失败: z");
    assert!(matches!(
        RepositoryError::from_driver_error(true, "no rows".to_string()),
        RepositoryError::NotFound(m) if m == "no rows"
    ));
    assert!(matches!(
        RepositoryError::from_driver_error(false, "locked".to_string()),
        RepositoryError::Database(m) if m == "locked"
    ));
}
