use todo::{SessionModel, UserModel, SESSION_TABLE, TODOS_TABLE, USER_TABLE};

#[test]
fn test_usermodel() {
    let user1 = UserModel::new("Thomas Muller".into(), "fc-bayern".into());
    assert!(user1.is_ok());
    let res = user1.as_ref().unwrap().verify_password("fc-bayern".into());
    assert!(res.is_ok());
    assert!(res.unwrap());
}

#[test]
fn new_user_keeps_name_and_hashes_password() {
    let user = UserModel::new("ann".to_string(), "secret".to_string()).unwrap();
    assert!(user.id.is_none());
    assert_eq!(user.name, "ann");
    assert_ne!(user.password, "secret");
    assert_eq!(user.password.len(), 60);
    assert!(user.password.starts_with("$2b$12$"));
    assert_eq!(user.verify_password("other").unwrap(), false);
}

#[test]
fn verify_against_malformed_hash_fails() {
    let user = UserModel::from_hash("bob".to_string(), Ok("not a bcrypt hash".to_string())).unwrap();
    assert_eq!(user.name, "bob");
    assert_eq!(user.password, "not a bcrypt hash");
    assert!(user.verify_password("x").is_err());
}

#[test]
fn from_hash_passes_error_through() {
    let err = bcrypt::hash("pw", 3).unwrap_err();
    assert!(UserModel::from_hash("bob".to_string(), Err(err)).is_err());
}

#[test]
fn session_model_new() {
    let s = SessionModel::new("u".to_string(), "t".to_string());
    assert!(s.id.is_none());
    assert_eq!(s.user_id, "u");
    assert_eq!(s.token, "t");
}

#[test]
fn table_names() {
    assert_eq!(USER_TABLE, "users");
    assert_eq!(SESSION_TABLE, "session");
    assert_eq!(TODOS_TABLE, "todos");
}
