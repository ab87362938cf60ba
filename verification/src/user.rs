use vstd::prelude::*;

verus! {

/// Credentials sent to log in.
#[derive(Debug)]
pub struct LoginUser {
    pub username: String,
    pub password: String,
}

/// A request to open a new account; `confirm_password` must repeat `password`.
#[derive(Debug)]
pub struct CreateUser {
    pub username: String,
    pub password: String,
    pub confirm_password: String,
}

} // verus!
