use liath::auth::{AuthError, AuthManager};

#[test]
fn test_auth_manager() {
    let mut auth_manager = AuthManager::new();

    auth_manager.add_user("user1", vec!["select".to_string(), "insert".to_string()]);
    assert!(auth_manager.is_authorized("user1", "select"));
    assert!(auth_manager.is_authorized("user1", "insert"));
    assert!(!auth_manager.is_authorized("user1", "delete"));

    auth_manager
        .update_permissions("user1", vec!["select".to_string(), "delete".to_string()])
        .unwrap();
    assert!(auth_manager.is_authorized("user1", "select"));
    assert!(!auth_manager.is_authorized("user1", "insert"));
    assert!(auth_manager.is_authorized("user1", "delete"));

    auth_manager
        .add_permission("user1", "update".to_string())
        .unwrap();
    assert!(auth_manager.is_authorized("user1", "update"));

    auth_manager.remove_permission("user1", "delete").unwrap();
    assert!(!auth_manager.is_authorized("user1", "delete"));

    auth_manager.remove_user("user1").unwrap();
    assert!(!auth_manager.is_authorized("user1", "select"));
}

#[test]
fn test_auth_manager_basic() {
    let mut auth = AuthManager::new();
    auth.add_user("alice", vec!["read".to_string(), "write".to_string()]);

    assert!(auth.is_authorized("alice", "read"));
    assert!(auth.is_authorized("alice", "write"));
    assert!(!auth.is_authorized("alice", "admin"));
    assert!(!auth.is_authorized("bob", "read"));
}

#[test]
fn unknown_principals_are_denied_and_cannot_be_changed() {
    let mut auth = AuthManager::new();
    assert!(!auth.is_authorized("ghost", "read"));
    assert!(!auth.is_authorized("", ""));
    assert!(!auth.has_user("ghost"));
    assert_eq!(auth.permissions("ghost"), None);
    assert_eq!(auth.remove_user("ghost"), Err(AuthError::UserNotFound));
    assert_eq!(
        auth.update_permissions("ghost", vec!["read".to_string()]),
        Err(AuthError::UserNotFound)
    );
    assert_eq!(
        auth.add_permission("ghost", "read".to_string()),
        Err(AuthError::UserNotFound)
    );
    assert_eq!(
        auth.remove_permission("ghost", "read"),
        Err(AuthError::UserNotFound)
    );
    assert!(!auth.is_authorized("ghost", "read"));
    assert_eq!(AuthError::UserNotFound.message(), "User not found");
}

#[test]
fn grant_then_revoke_restores_denial() {
    let mut auth = AuthManager::new();
    auth.add_user("carol", vec![]);
    assert!(!auth.is_authorized("carol", "put"));
    auth.add_permission("carol", "put".to_string()).unwrap();
    assert!(auth.is_authorized("carol", "put"));
    auth.remove_permission("carol", "put").unwrap();
    assert!(!auth.is_authorized("carol", "put"));
    // a permission that was listed twice is gone after one removal
    auth.add_user("dave", vec!["get".to_string(), "get".to_string()]);
    auth.add_permission("dave", "get".to_string()).unwrap();
    auth.remove_permission("dave", "get").unwrap();
    assert!(!auth.is_authorized("dave", "get"));
}

#[test]
fn update_replaces_and_add_user_resets() {
    let mut auth = AuthManager::new();
    auth.add_user("erin", vec!["a".to_string(), "b".to_string()]);
    auth.add_user("frank", vec!["a".to_string()]);
    auth.update_permissions("erin", vec!["c".to_string()]).unwrap();
    assert!(!auth.is_authorized("erin", "a"));
    assert!(!auth.is_authorized("erin", "b"));
    assert!(auth.is_authorized("erin", "c"));
    // the others keep what they had
    assert!(auth.is_authorized("frank", "a"));
    auth.add_user("erin", vec!["d".to_string()]);
    assert!(!auth.is_authorized("erin", "c"));
    assert!(auth.is_authorized("erin", "d"));
    assert_eq!(auth.permissions("erin"), Some(vec!["d".to_string()]));
    auth.remove_user("erin").unwrap();
    assert!(!auth.has_user("erin"));
    assert!(auth.has_user("frank"));
}
