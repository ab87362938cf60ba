use vstd::prelude::*;

use crate::reply::{fields1, fields2, text, Reply, Status};
use crate::structs::{bcrypt_error_text, bcrypt_verified, is_default_bcrypt_hash, UserModel};
use crate::user::CreateUser;

verus! {

/// What to do next while opening an account.
#[derive(Debug)]
pub enum CreateUserStep {
    /// Answer the request with this and stop.
    Respond(Reply),
    /// Look for an account with this name and hand the outcome to
    /// `create_user_found`.
    FindUser(String),
    /// Store this account and hand the outcome to `create_user_inserted`.
    InsertUser(UserModel),
}

/// The answer when the store fails with message `e`.
pub open spec fn store_failure(rep: Reply, e: Seq<char>) -> bool {
    rep.has_fields(Status::InternalServerError, seq![("status"@, "Internal Server Error"@), ("Err"@, e)])
}

/// The answer when the password could not be hashed: a store failure whose
/// message is the hashing error's text.
pub open spec fn hash_failure(rep: Reply) -> bool {
    exists|e: Seq<char>| #[trigger] store_failure(rep, e)
}

/// First step of opening an account: the two passwords must agree.
pub fn create_user_start(user: &CreateUser) -> (r: CreateUserStep)
    ensures
        user.password@ != user.confirm_password@ ==> (r matches CreateUserStep::Respond(rep)
            && rep.has_fields(
            Status::Conflict,
            seq![("status"@, "Failed"@), ("message"@, "password does not match"@)],
        )),
        user.password@ == user.confirm_password@ ==> (r matches CreateUserStep::FindUser(name)
            && name@ == user.username@),
{
    if user.password != user.confirm_password {
        CreateUserStep::Respond(
            Reply {
                status: Status::Conflict,
                body: fields2("status", text("Failed"), "message", text("password does not match")),
            },
        )
    } else {
        CreateUserStep::FindUser(user.username.clone())
    }
}

/// Second step: given whether an account with that name exists (`Err` with
/// the store's message when the lookup failed), refuse or build the account
/// with a freshly hashed password.
pub fn create_user_found(user: &CreateUser, lookup: Result<bool, String>) -> (r: CreateUserStep)
    ensures
        lookup matches Err(e) ==> (r matches CreateUserStep::Respond(rep) && store_failure(rep, e@)),
        lookup == Ok::<bool, String>(true) ==> (r matches CreateUserStep::Respond(rep) && rep.has_fields(
            Status::Conflict,
            seq![("status"@, "Failure"@), ("message"@, "user already exist"@)],
        )),
        lookup == Ok::<bool, String>(false) ==> {
            ||| r matches CreateUserStep::InsertUser(m) && m.id is None && m.name@ == user.username@
                && bcrypt_verified(user.password@, m.password@) == Some(true)
                && is_default_bcrypt_hash(m.password@)
            ||| r matches CreateUserStep::Respond(rep) && hash_failure(rep)
        },
{
    match lookup {
        Err(e) => CreateUserStep::Respond(
            Reply { status: Status::InternalServerError, body: fields2("status", text("Internal Server Error"), "Err", e) },
        ),
        Ok(true) => CreateUserStep::Respond(
            Reply { status: Status::Conflict, body: fields2("status", text("Failure"), "message", text("user already exist")) },
        ),
        Ok(false) => {
            let hashed = match UserModel::new(user.username.clone(), user.password.clone()) {
                Ok(m) => Ok(m),
                Err(e) => Err(bcrypt_error_text(&e)),
            };
            create_user_hashed(hashed)
        },
    }
}

/// Third step, given the outcome of building the account (`Err` with the
/// text of the hashing error): store it, or answer with that text.
pub fn create_user_hashed(model: Result<UserModel, String>) -> (r: CreateUserStep)
    ensures
        model matches Ok(m) ==> (r matches CreateUserStep::InsertUser(m2) && m2 == m),
        model matches Err(msg) ==> (r matches CreateUserStep::Respond(rep) && store_failure(rep, msg@)),
{
    match model {
        Ok(m) => CreateUserStep::InsertUser(m),
        Err(msg) => CreateUserStep::Respond(
            Reply { status: Status::InternalServerError, body: fields2("status", text("Internal Server Error"), "Err", msg) },
        ),
    }
}

/// Last step, given the outcome of storing the account (`Err` with the
/// store's message).
pub fn create_user_inserted(result: Result<(), String>) -> (r: Reply)
    ensures
        result matches Err(e) ==> store_failure(r, e@),
        result is Ok ==> r.has_fields(Status::Created, seq![("status"@, "success"@)]),
{
    match result {
        Err(e) => Reply { status: Status::InternalServerError, body: fields2("status", text("Internal Server Error"), "Err", e) },
        Ok(()) => Reply { status: Status::Created, body: fields1("status", text("success")) },
    }
}

} // verus!
