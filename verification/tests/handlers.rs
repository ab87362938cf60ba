use todo::{
    create_inserted, create_start, create_user_found, create_user_hashed, create_user_inserted, create_user_start,
    delete_done, delete_start, todos_found, todos_start, update_reply, Body, CreateStep, CreateUser, CreateUserStep,
    DeleteStep, JwtToken, Reply, Status, TodoItem, UserModel,
};

fn fields_of(body: &Body) -> Vec<(String, String)> {
    match body {
        Body::Fields(f) => f.clone(),
        other => panic!("unexpected body {:?}", other),
    }
}

fn pairs(p: &[(&str, &str)]) -> Vec<(String, String)> {
    p.iter().map(|(k, v)| (k.to_string(), v.to_string())).collect()
}

fn expect(rep: &Reply, status: Status, p: &[(&str, &str)]) {
    assert_eq!(rep.status, status);
    assert_eq!(fields_of(&rep.body), pairs(p));
}

fn request(name: &str, pw: &str, confirm: &str) -> CreateUser {
    CreateUser { username: name.to_string(), password: pw.to_string(), confirm_password: confirm.to_string() }
}

#[test]
fn create_user_password_mismatch() {
    match create_user_start(&request("ann", "a", "b")) {
        CreateUserStep::Respond(rep) => {
            expect(&rep, Status::Conflict, &[("status", "Failed"), ("message", "password does not match")])
        }
        other => panic!("unexpected step {:?}", other),
    }
}

#[test]
fn create_user_looks_up_name() {
    match create_user_start(&request("ann", "a", "a")) {
        CreateUserStep::FindUser(name) => assert_eq!(name, "ann"),
        other => panic!("unexpected step {:?}", other),
    }
}

#[test]
fn create_user_lookup_outcomes() {
    let req = request("ann", "pw", "pw");
    match create_user_found(&req, Err("db down".to_string())) {
        CreateUserStep::Respond(rep) => {
            expect(&rep, Status::InternalServerError, &[("status", "Internal Server Error"), ("Err", "db down")])
        }
        other => panic!("unexpected step {:?}", other),
    }
    match create_user_found(&req, Ok(true)) {
        CreateUserStep::Respond(rep) => {
            expect(&rep, Status::Conflict, &[("status", "Failure"), ("message", "user already exist")])
        }
        other => panic!("unexpected step {:?}", other),
    }
    match create_user_found(&req, Ok(false)) {
        CreateUserStep::InsertUser(m) => {
            assert_eq!(m.name, "ann");
            assert!(m.id.is_none());
            assert!(m.verify_password("pw").unwrap());
            assert_eq!(m.password.len(), 60);
            assert!(m.password.starts_with("$2b$12$"));
        }
        other => panic!("unexpected step {:?}", other),
    }
}

#[test]
fn create_user_hash_outcomes() {
    let m = UserModel::from_hash("ann".to_string(), Ok("h".to_string())).map_err(|e| e.to_string());
    match create_user_hashed(m) {
        CreateUserStep::InsertUser(m) => {
            assert_eq!(m.name, "ann");
            assert_eq!(m.password, "h");
        }
        other => panic!("unexpected step {:?}", other),
    }
    let text = bcrypt::hash("pw", 40).unwrap_err().to_string();
    match create_user_hashed(Err(text.clone())) {
        CreateUserStep::Respond(rep) => {
            expect(&rep, Status::InternalServerError, &[("status", "Internal Server Error"), ("Err", &text)])
        }
        other => panic!("unexpected step {:?}", other),
    }
}

#[test]
fn create_user_insert_outcomes() {
    expect(&create_user_inserted(Ok(())), Status::Created, &[("status", "success")]);
    expect(
        &create_user_inserted(Err("dup".to_string())),
        Status::InternalServerError,
        &[("status", "Internal Server Error"), ("Err", "dup")],
    );
}

fn item() -> TodoItem {
    TodoItem {
        id: None,
        title: "t".to_string(),
        notes: "n".to_string(),
        user_id: Some("someone else".to_string()),
        is_done: Some(true),
        created_at: None,
    }
}

#[test]
fn todos_needs_a_session() {
    match todos_start(None) {
        todo::TodosStep::Respond(rep) => {
            expect(&rep, Status::Unauthorized, &[("status", "Failure"), ("Err", "Unauthorized")])
        }
        other => panic!("unexpected step {:?}", other),
    }
    match todos_start(Some(JwtToken::new("u9".to_string()))) {
        todo::TodosStep::FindItems(id) => assert_eq!(id, "u9"),
        other => panic!("unexpected step {:?}", other),
    }
}

#[test]
fn todos_found_outcomes() {
    let rep = todos_found(Ok(vec![item()]));
    assert_eq!(rep.status, Status::Success);
    match rep.body {
        Body::Items(v) => {
            assert_eq!(v.len(), 1);
            assert_eq!(v[0].title, "t");
        }
        other => panic!("unexpected body {:?}", other),
    }
    expect(&todos_found(Err("boom".to_string())), Status::InternalServerError, &[("status", "Failed"), ("Err", "boom")]);
}

#[test]
fn create_stamps_item() {
    let now = bson::DateTime::from_millis(1_700_000_000_000);
    match create_start(item(), Some(JwtToken::new("u1".to_string())), now) {
        CreateStep::Insert(it) => {
            assert_eq!(it.title, "t");
            assert_eq!(it.notes, "n");
            assert_eq!(it.user_id.as_deref(), Some("u1"));
            assert_eq!(it.is_done, Some(false));
            assert_eq!(it.created_at, Some(now));
            assert!(it.id.is_none());
        }
        other => panic!("unexpected step {:?}", other),
    }
    match create_start(item(), None, now) {
        CreateStep::Respond(rep) => {
            expect(&rep, Status::Unauthorized, &[("status", "Failure"), ("Err", "Unauthorized")])
        }
        other => panic!("unexpected step {:?}", other),
    }
}

#[test]
fn create_insert_outcomes() {
    expect(&create_inserted(Ok(())), Status::Success, &[("status", "success")]);
    expect(&create_inserted(Err("e".to_string())), Status::InternalServerError, &[("status", "Failed"), ("Err", "e")]);
}

#[test]
fn update_answers_text() {
    let rep = update_reply();
    assert_eq!(rep.status, Status::Success);
    match rep.body {
        Body::Text(t) => assert_eq!(t, "Updated sucessfully"),
        other => panic!("unexpected body {:?}", other),
    }
}

fn bare(step: DeleteStep) -> Status {
    match step {
        DeleteStep::Respond(rep) => {
            assert!(matches!(rep.body, Body::Empty));
            rep.status
        }
        DeleteStep::Remove(id) => panic!("unexpected removal of {:?}", id),
    }
}

#[test]
fn delete_checks_session_and_id() {
    let user = Some(JwtToken::new("u1".to_string()));
    assert_eq!(bare(delete_start("507f1f77bcf86cd799439011", &None)), Status::Unauthorized);
    for bad in ["", "507f1f77bcf86cd79943901", "507f1f77bcf86cd7994390111", "507f1f77bcf86cd79943901g", "ééééééééééé"] {
        assert_eq!(bare(delete_start(bad, &user)), Status::Conflict, "{}", bad);
    }
    for good in ["507f1f77bcf86cd799439011", "507F1F77BCF86CD799439011"] {
        match delete_start(good, &user) {
            DeleteStep::Remove(id) => {
                assert_eq!(bson::oid::ObjectId::from_bytes(id).to_hex(), good.to_lowercase());
                assert_eq!(id, [0x50, 0x7f, 0x1f, 0x77, 0xbc, 0xf8, 0x6c, 0xd7, 0x99, 0x43, 0x90, 0x11]);
            }
            other => panic!("unexpected step {:?}", other),
        }
    }
}

#[test]
fn delete_done_outcomes() {
    for (input, status) in [
        (Ok(true), Status::Success),
        (Ok(false), Status::Conflict),
        (Err(()), Status::InternalServerError),
    ] {
        let rep = delete_done(input);
        assert_eq!(rep.status, status);
        assert!(matches!(rep.body, Body::Empty));
    }
}
