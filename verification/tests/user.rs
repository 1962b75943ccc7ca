use mcvm::user::{validate_username, AuthState, User, UserKind, UserManager};

#[test]
fn test_username_validation() {
    assert!(validate_username(
        &UserKind::Microsoft { xbox_uid: None },
        "CarbonSmasher"
    ));
    assert!(validate_username(&UserKind::Demo, "12345"));
    assert!(validate_username(
        &UserKind::Microsoft { xbox_uid: None },
        "Foo_Bar888"
    ));
    assert!(!validate_username(
        &UserKind::Microsoft { xbox_uid: None },
        ""
    ));
    assert!(!validate_username(
        &UserKind::Microsoft { xbox_uid: None },
        "ABCDEFGHIJKLMNOPQRS"
    ));
    assert!(!validate_username(
        &UserKind::Microsoft { xbox_uid: None },
        "+++"
    ));
}

#[test]
fn username_length_edges() {
    assert!(validate_username(&UserKind::Demo, "abcdefghijklmnop"));
    assert!(!validate_username(&UserKind::Demo, "abcdefghijklmnopq"));
    assert!(!validate_username(&UserKind::Demo, "héllo"));
}

#[test]
fn user_manager_add_and_choose() {
    let mut users = UserManager::new("client".to_string());
    assert!(users.get_chosen_user().is_none());
    let mut user = User::new(UserKind::Demo, "a", "Alice");
    user.set_uuid("1234");
    users.add_user(user);
    assert!(users.user_exists("a"));
    assert!(!users.user_exists("b"));
    assert_eq!(users.get_user("a").unwrap().uuid, Some("1234".to_string()));
    users.state = AuthState::UserChosen("a".to_string());
    assert_eq!(users.get_chosen_user().unwrap().name, "Alice");
    users.state = AuthState::Authed("b".to_string());
    assert!(users.get_chosen_user().is_none());
}

#[test]
fn user_manager_steal_users_prefers_other() {
    let mut a = UserManager::new("c".to_string());
    a.add_user(User::new(UserKind::Demo, "x", "Old"));
    a.add_user(User::new(UserKind::Demo, "y", "Why"));
    let mut b = UserManager::new("c".to_string());
    b.add_user(User::new(UserKind::Unverified, "x", "New"));
    b.add_user(User::new(UserKind::Demo, "z", "Zed"));
    a.steal_users(&b);
    assert_eq!(a.get_user("x").unwrap().name, "New");
    assert_eq!(a.get_user("y").unwrap().name, "Why");
    assert_eq!(a.get_user("z").unwrap().name, "Zed");
    assert_eq!(a.iter_users().len(), 3);
}
