//! Verified core of a small to-do web service: signed session tokens,
//! accounts with hashed passwords, the session check that guards requests,
//! and the decisions of the account and to-do request handlers. Each handler
//! is split into steps: a step decides, and names the store operation to run
//! next; the caller runs it and hands its outcome to the following step.
mod auth;
mod handlers;
mod login;
mod reply;
mod structs;
mod token;
mod user;

pub use auth::{authorize_header, authorize_session, AuthStep};
pub use handlers::{
    create_inserted, create_start, delete_done, delete_start, hex_decode, hex_value, is_hex_digit, is_object_id_hex, store_failed,
    todos_found, todos_start, unauthorized, update_reply, CreateStep, DeleteStep, TodosStep,
};
pub use login::{
    create_user_found, create_user_hashed, create_user_inserted, create_user_start, hash_failure, store_failure,
    CreateUserStep,
};
pub use reply::{fields_view, Body, Reply, Status};
pub use structs::{bcrypt_verified, is_default_bcrypt_hash, SessionModel, TodoItem, UserModel, SESSION_TABLE, TODOS_TABLE, USER_TABLE};
pub use token::{
    claims_map, jwt_signed, jwt_verified, keys_distinct, lemma_claims_map, user_claims, JwtToken, SECRET,
    TOKEN_HEADER, USER_ID_CLAIM,
};
pub use user::{CreateUser, LoginUser};
