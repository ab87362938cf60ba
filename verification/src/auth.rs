use vstd::prelude::*;

use crate::reply::{fields1, text, Body, Reply, Status};
use crate::structs::SessionModel;
use crate::token::JwtToken;

verus! {

/// What to do with a request after reading its token header.
#[derive(Debug)]
pub enum AuthStep {
    /// Refuse the request with this answer.
    Refuse(Reply),
    /// The header holds no token that `SECRET` signed and that names a user.
    Undecodable,
    /// Look up the open session of this token's user and hand the outcome to
    /// `authorize_session`.
    LookupSession(JwtToken),
}

/// First step of authenticating a request, given the value of its
/// `bearer-token` header, if it has one.
pub fn authorize_header(header: Option<String>) -> (r: AuthStep)
    ensures
        header is None ==> (r matches AuthStep::Refuse(rep) && rep.has_text(
            Status::Unauthorized,
            "user is not authorized"@,
        )),
        header matches Some(t) ==> {
            if JwtToken::decodable(t@) {
                r matches AuthStep::LookupSession(tok) && tok.tok@ == t@
                    && tok.user_id@ == JwtToken::decoded_user_id(t@)
            } else {
                r is Undecodable
            }
        },
{
    match header {
        None => AuthStep::Refuse(
            Reply { status: Status::Unauthorized, body: Body::Text(text("user is not authorized")) },
        ),
        Some(t) => match JwtToken::try_decode(t) {
            Some(tok) => AuthStep::LookupSession(tok),
            None => AuthStep::Undecodable,
        },
    }
}

/// Last step of authenticating a request: the token is accepted exactly when
/// the lookup found a session whose token is this very token.
/// `lookup` is `Err` when the store could not be read.
pub fn authorize_session(token: JwtToken, lookup: Result<Option<SessionModel>, ()>) -> (r: Result<JwtToken, Reply>)
    ensures
        r is Ok <==> (lookup matches Ok(Some(s)) && s.token@ == token.tok@),
        r matches Ok(t) ==> t == token,
        lookup is Err ==> (r matches Err(rep) && rep.has_fields(
            Status::InternalServerError,
            seq![("Err"@, "internal server error "@)],
        )),
        lookup matches Ok(None) ==> (r matches Err(rep) && rep.has_fields(
            Status::Unauthorized,
            seq![("Err"@, "Unauthorized"@)],
        )),
        (lookup matches Ok(Some(s)) && s.token@ != token.tok@) ==> (r matches Err(rep)
            && rep.has_fields(Status::Unauthorized, seq![("Err"@, "Invalid Token"@)])),
{
    match lookup {
        Err(()) => Err(
            Reply {
                status: Status::InternalServerError,
                body: fields1("Err", text("internal server error ")),
            },
        ),
        Ok(None) => Err(Reply { status: Status::Unauthorized, body: fields1("Err", text("Unauthorized")) }),
        Ok(Some(s)) => {
            if s.token == token.tok {
                Ok(token)
            } else {
                Err(Reply { status: Status::Unauthorized, body: fields1("Err", text("Invalid Token")) })
            }
        },
    }
}

} // verus!
