use vstd::prelude::*;

use crate::reply::{fields1, fields2, text, Body, Reply, Status};
use crate::structs::TodoItem;
use crate::token::JwtToken;

verus! {

#[verifier::external_type_specification]
#[verifier::external_body]
pub struct ExObjectIdError(bson::oid::Error);

/// `c` is a hexadecimal digit, in either case.
pub open spec fn is_hex_digit(c: char) -> bool {
    ('0' <= c && c <= '9') || ('a' <= c && c <= 'f') || ('A' <= c && c <= 'F')
}

/// `s` is the hexadecimal text of an object id: 24 hexadecimal digits.
pub open spec fn is_object_id_hex(s: Seq<char>) -> bool {
    s.len() == 24 && forall|i: int| 0 <= i < s.len() ==> #[trigger] is_hex_digit(s[i])
}

/// The value of a hexadecimal digit.
pub open spec fn hex_value(c: char) -> int {
    if '0' <= c && c <= '9' {
        c as int - '0' as int
    } else if 'a' <= c && c <= 'f' {
        c as int - 'a' as int + 10
    } else {
        c as int - 'A' as int + 10
    }
}

/// The bytes that a string of hexadecimal digits spells, two digits to a
/// byte, the first digit of each pair the high half.
pub open spec fn hex_decode(s: Seq<char>) -> Seq<u8> {
    Seq::new(s.len() / 2, |i: int| (hex_value(s[2 * i]) * 16 + hex_value(s[2 * i + 1])) as u8)
}

/// Calls `bson::oid::ObjectId::parse_str`, which hex-decodes `s` into the
/// twelve bytes of an object id, and hands back those bytes
/// (`ObjectId::bytes`). Claimed: it succeeds exactly on 24 hexadecimal
/// digits, and the bytes are the ones the digits spell.
#[verifier::external_body]
fn parse_object_id(s: &str) -> (r: Result<[u8; 12], bson::oid::Error>)
    ensures
        r is Ok <==> is_object_id_hex(s@),
        r matches Ok(b) ==> b@ == hex_decode(s@),
{
    bson::oid::ObjectId::parse_str(s).map(|id| id.bytes())
}

/// The answer to a request that carries no valid session.
pub open spec fn unauthorized(rep: Reply) -> bool {
    rep.has_fields(Status::Unauthorized, seq![("status"@, "Failure"@), ("Err"@, "Unauthorized"@)])
}

/// The answer when the store fails with message `e`.
pub open spec fn store_failed(rep: Reply, e: Seq<char>) -> bool {
    rep.has_fields(Status::InternalServerError, seq![("status"@, "Failed"@), ("Err"@, e)])
}

fn unauthorized_reply() -> (r: Reply)
    ensures
        unauthorized(r),
{
    Reply { status: Status::Unauthorized, body: fields2("status", text("Failure"), "Err", text("Unauthorized")) }
}

fn store_failed_reply(e: String) -> (r: Reply)
    ensures
        store_failed(r, e@),
{
    Reply { status: Status::InternalServerError, body: fields2("status", text("Failed"), "Err", e) }
}

/// What to do next while listing the items of the current user.
#[derive(Debug)]
pub enum TodosStep {
    Respond(Reply),
    /// Fetch the items whose owner is this user and hand the outcome to
    /// `todos_found`.
    FindItems(String),
}

/// First step of listing items: a session is needed.
pub fn todos_start(current_user: Option<JwtToken>) -> (r: TodosStep)
    ensures
        current_user is None ==> (r matches TodosStep::Respond(rep) && unauthorized(rep)),
        current_user matches Some(u) ==> (r matches TodosStep::FindItems(id) && id == u.user_id),
{
    match current_user {
        None => TodosStep::Respond(unauthorized_reply()),
        Some(u) => TodosStep::FindItems(u.user_id),
    }
}

/// Last step of listing items, given the items found (`Err` with the store's
/// message when the query failed).
pub fn todos_found(result: Result<Vec<TodoItem>, String>) -> (r: Reply)
    ensures
        result matches Err(e) ==> store_failed(r, e@),
        result matches Ok(items) ==> (r.status == Status::Success && r.body.items() == Some(items@)),
{
    match result {
        Ok(items) => Reply { status: Status::Success, body: Body::Items(items) },
        Err(e) => store_failed_reply(e),
    }
}

/// What to do next while adding an item.
#[derive(Debug)]
pub enum CreateStep {
    Respond(Reply),
    /// Store this item and hand the outcome to `create_inserted`.
    Insert(TodoItem),
}

/// First step of adding an item: a session is needed; the item is then
/// stamped with the time `now`, given to the current user and marked not done.
pub fn create_start(item: TodoItem, current_user: Option<JwtToken>, now: bson::DateTime) -> (r: CreateStep)
    ensures
        current_user is None ==> (r matches CreateStep::Respond(rep) && unauthorized(rep)),
        current_user matches Some(u) ==> (r matches CreateStep::Insert(it) && it == (TodoItem {
            created_at: Some(now),
            user_id: Some(u.user_id),
            is_done: Some(false),
            ..item
        })),
{
    match current_user {
        None => CreateStep::Respond(unauthorized_reply()),
        Some(u) => {
            let mut item = item;
            item.created_at = Some(now);
            item.user_id = Some(u.user_id);
            item.is_done = Some(false);
            CreateStep::Insert(item)
        },
    }
}

/// Last step of adding an item, given the outcome of storing it (`Err` with
/// the store's message).
pub fn create_inserted(result: Result<(), String>) -> (r: Reply)
    ensures
        result matches Err(e) ==> store_failed(r, e@),
        result is Ok ==> r.has_fields(Status::Success, seq![("status"@, "success"@)]),
{
    match result {
        Ok(()) => Reply { status: Status::Success, body: fields1("status", text("success")) },
        Err(e) => store_failed_reply(e),
    }
}

/// The answer to an update request.
pub fn update_reply() -> (r: Reply)
    ensures
        r.has_text(Status::Success, "Updated sucessfully"@),
{
    Reply { status: Status::Success, body: Body::Text(text("Updated sucessfully")) }
}

/// What to do next while deleting an item.
#[derive(Debug)]
pub enum DeleteStep {
    Respond(Reply),
    /// Delete the item whose object id has these twelve bytes and hand the
    /// outcome to `delete_done`.
    Remove([u8; 12]),
}

/// First step of deleting the item named by `delete_id`: a session is
/// needed, and the id must be the hexadecimal text of an object id.
pub fn delete_start(delete_id: &str, current_user: &Option<JwtToken>) -> (r: DeleteStep)
    ensures
        current_user is None ==> (r matches DeleteStep::Respond(rep) && rep.is_bare(Status::Unauthorized)),
        current_user is Some && !is_object_id_hex(delete_id@) ==> (r matches DeleteStep::Respond(rep)
            && rep.is_bare(Status::Conflict)),
        current_user is Some && is_object_id_hex(delete_id@) ==> (r matches DeleteStep::Remove(id)
            && id@ == hex_decode(delete_id@)),
{
    if current_user.is_none() {
        return DeleteStep::Respond(Reply { status: Status::Unauthorized, body: Body::Empty });
    }
    match parse_object_id(delete_id) {
        Ok(id) => DeleteStep::Remove(id),
        Err(_) => DeleteStep::Respond(Reply { status: Status::Conflict, body: Body::Empty }),
    }
}

/// Last step of deleting an item, given whether an item was found and
/// deleted (`Err` when the store failed).
pub fn delete_done(result: Result<bool, ()>) -> (r: Reply)
    ensures
        result == Ok::<bool, ()>(true) ==> r.is_bare(Status::Success),
        result == Ok::<bool, ()>(false) ==> r.is_bare(Status::Conflict),
        result is Err ==> r.is_bare(Status::InternalServerError),
{
    let status = match result {
        Ok(true) => Status::Success,
        Ok(false) => Status::Conflict,
        Err(()) => Status::InternalServerError,
    };
    Reply { status, body: Body::Empty }
}

} // verus!
