use timer_store::{require_current_user, IconCache, StoreError};

#[test]
fn scoped_operations_need_an_established_user() {
    assert_eq!(require_current_user(&None), Err(StoreError::PreconditionFailed));
    assert_eq!(require_current_user(&Some(7)), Ok(7));
}

#[test]
fn error_messages_name_their_kind() {
    assert_eq!(StoreError::InitError.message(), "failed to initialize the store");
    assert_eq!(StoreError::NotFound.message(), "not found");
    assert_eq!(StoreError::ConstraintViolation.message(), "uniqueness constraint violated");
    assert_eq!(StoreError::PreconditionFailed.message(), "no current user has been established");
    assert_eq!(StoreError::BackendFailure.message(), "storage engine failure");
}

#[test]
fn icon_cache_stores_and_replaces_by_key() {
    let mut cache = IconCache::new();
    assert!(cache.get_icon("idle").is_none());
    cache.insert("idle".to_string(), vec![1, 2, 3, 4], 1, 1);
    cache.insert("busy".to_string(), vec![9, 9, 9, 9, 9, 9, 9, 9], 2, 1);
    let idle = cache.get_icon("idle").unwrap();
    assert_eq!(idle.data, vec![1, 2, 3, 4]);
    assert_eq!((idle.width, idle.height), (1, 1));
    cache.insert("idle".to_string(), vec![5, 6, 7, 8], 1, 1);
    let idle = cache.get_icon("idle").unwrap();
    assert_eq!(idle.data, vec![5, 6, 7, 8]);
    assert!(cache.get_icon("missing").is_none());
}
