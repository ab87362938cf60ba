use vstd::prelude::*;

verus! {

/// Name of the collection that holds the accounts.
pub const USER_TABLE: &'static str = "users";
/// Name of the collection that holds the open sessions.
pub const SESSION_TABLE: &'static str = "session";
/// Name of the collection that holds the to-do items.
pub const TODOS_TABLE: &'static str = "todos";

#[verifier::external_type_specification]
#[verifier::external_body]
pub struct ExObjectId(bson::oid::ObjectId);

#[verifier::external_type_specification]
#[verifier::external_body]
pub struct ExBsonDateTime(bson::DateTime);

#[verifier::external_type_specification]
#[verifier::external_body]
pub struct ExBcryptError(bcrypt::BcryptError);

/// What `bcrypt::verify` answers for a password and a stored hash:
/// `Some(b)` where it returns `Ok(b)`, `None` where it returns an error
/// (a hash that is not in bcrypt's format).
pub uninterp spec fn bcrypt_verified(password: Seq<char>, hash: Seq<char>) -> Option<bool>;

/// `h` has the form of a bcrypt hash at the default work factor: `$2b$12$`
/// and 53 more characters.
pub open spec fn is_default_bcrypt_hash(h: Seq<char>) -> bool {
    h.len() == 60 && h.subrange(0, 7) == "$2b$12$"@
}

/// Calls `bcrypt::hash` with bcrypt's default work factor
/// (`bcrypt::DEFAULT_COST`); it draws a random salt and hashes `password`.
/// Claimed: any hash it hands back is one that `bcrypt::verify` accepts for
/// the same password, and is in bcrypt's "2b" form at work factor 12:
/// `$2b$12$` followed by 22 salt and 31 hash characters, 60 in all. Nothing is claimed of when it fails (the salt could
/// not be drawn), nor of which hash comes back.
#[verifier::external_body]
fn bcrypt_hash(password: &str) -> (r: Result<String, bcrypt::BcryptError>)
    ensures
        r matches Ok(h) ==> bcrypt_verified(password@, h@) == Some(true),
        r matches Ok(h) ==> is_default_bcrypt_hash(h@),
{
    bcrypt::hash(password, bcrypt::DEFAULT_COST)
}

/// Calls `bcrypt::verify`, which checks `password` against a stored hash.
/// Claimed: its answer is `bcrypt_verified` of its two arguments.
#[verifier::external_body]
fn bcrypt_verify(password: &str, hash: &str) -> (r: Result<bool, bcrypt::BcryptError>)
    ensures
        r is Ok <==> bcrypt_verified(password@, hash@) is Some,
        r matches Ok(b) ==> bcrypt_verified(password@, hash@) == Some(b),
{
    bcrypt::verify(password, hash)
}

/// Calls `ToString::to_string` on a bcrypt error (its `Display` text).
/// Nothing is claimed of the text.
#[verifier::external_body]
pub(crate) fn bcrypt_error_text(e: &bcrypt::BcryptError) -> String {
    e.to_string()
}

/// An account as it is stored: the password is kept as a bcrypt hash.
#[derive(Debug)]
pub struct UserModel {
    pub id: Option<bson::oid::ObjectId>,
    pub name: String,
    pub password: String,
}

impl UserModel {
    /// Builds an account for `name` whose stored password is a fresh bcrypt
    /// hash of `password` (default work factor); the hashing error, if any,
    /// is handed back.
    pub fn new(name: String, password: String) -> (r: Result<UserModel, bcrypt::BcryptError>)
        ensures
            r matches Ok(m) ==> {
                &&& m.id is None
                &&& m.name@ == name@
                &&& bcrypt_verified(password@, m.password@) == Some(true)
                &&& is_default_bcrypt_hash(m.password@)
            },
    {
        let hashed = bcrypt_hash(password.as_str());
        Self::from_hash(name, hashed)
    }

    /// Builds an account for `name` from the outcome of hashing its password.
    pub fn from_hash(name: String, hashed: Result<String, bcrypt::BcryptError>) -> (r: Result<UserModel, bcrypt::BcryptError>)
        ensures
            match (hashed, r) {
                (Ok(h), Ok(m)) => m.id is None && m.name@ == name@ && m.password@ == h@,
                (Err(e1), Err(e2)) => e1 == e2,
                _ => false,
            },
    {
        match hashed {
            Ok(h) => Ok(UserModel { id: None, name, password: h }),
            Err(e) => Err(e),
        }
    }

    /// Checks `plain_password` against the stored hash.
    pub fn verify_password(&self, plain_password: &str) -> (r: Result<bool, bcrypt::BcryptError>)
        ensures
            r is Ok <==> bcrypt_verified(plain_password@, self.password@) is Some,
            r matches Ok(b) ==> bcrypt_verified(plain_password@, self.password@) == Some(b),
    {
        bcrypt_verify(plain_password, self.password.as_str())
    }
}

/// An open session: the token that was handed to the user `user_id`.
#[derive(Debug)]
pub struct SessionModel {
    pub id: Option<bson::oid::ObjectId>,
    pub user_id: String,
    pub token: String,
}

impl SessionModel {
    /// A session, not yet stored, of `user_id` with `token`.
    pub fn new(user_id: String, token: String) -> (r: SessionModel)
        ensures
            r.id is None,
            r.user_id == user_id,
            r.token == token,
    {
        SessionModel { id: None, user_id, token }
    }
}

/// A to-do item.
#[derive(Debug)]
pub struct TodoItem {
    pub id: Option<bson::oid::ObjectId>,
    /// Title of the item.
    pub title: String,
    /// What is to be done.
    pub notes: String,
    /// The owner of the item.
    pub user_id: Option<String>,
    pub is_done: Option<bool>,
    pub created_at: Option<bson::DateTime>,
}

} // verus!
