use vstd::prelude::*;
use vstd::string::StringExecFns;

use crate::structs::TodoItem;

verus! {

/// The HTTP status of an answer.
#[derive(Debug, Clone, Copy, PartialEq, Eq, Structural)]
pub enum Status {
    /// 200 OK
    Success,
    /// 201 Created
    Created,
    /// 401 Unauthorized
    Unauthorized,
    /// 409 Conflict
    Conflict,
    /// 500 Internal Server Error
    InternalServerError,
}

/// The body of an answer.
#[derive(Debug)]
pub enum Body {
    /// No body at all.
    Empty,
    /// A plain text body.
    Text(String),
    /// A JSON object whose members are all strings, in this order.
    Fields(Vec<(String, String)>),
    /// A JSON array of to-do items.
    Items(Vec<TodoItem>),
}

/// An answer to a request: a status and a body.
#[derive(Debug)]
pub struct Reply {
    pub status: Status,
    pub body: Body,
}

/// The members of a JSON object body, each as a pair of character sequences.
pub open spec fn fields_view(fields: Seq<(String, String)>) -> Seq<(Seq<char>, Seq<char>)> {
    fields.map_values(|p: (String, String)| (p.0@, p.1@))
}

impl Body {
    /// The members of the body when it is a JSON object.
    pub open spec fn fields(self) -> Option<Seq<(Seq<char>, Seq<char>)>> {
        match self {
            Body::Fields(v) => Some(fields_view(v@)),
            _ => None,
        }
    }

    /// The items of the body when it is a list of to-do items.
    pub open spec fn items(self) -> Option<Seq<TodoItem>> {
        match self {
            Body::Items(v) => Some(v@),
            _ => None,
        }
    }

    /// The text of the body when it is plain text.
    pub open spec fn text(self) -> Option<Seq<char>> {
        match self {
            Body::Text(s) => Some(s@),
            _ => None,
        }
    }
}

impl Reply {
    /// The answer has this status and a JSON object body with these members.
    pub open spec fn has_fields(self, status: Status, f: Seq<(Seq<char>, Seq<char>)>) -> bool {
        self.status == status && self.body.fields() == Some(f)
    }

    /// The answer has this status and this plain text body.
    pub open spec fn has_text(self, status: Status, t: Seq<char>) -> bool {
        self.status == status && self.body.text() == Some(t)
    }

    /// The answer has this status and no body.
    pub open spec fn is_bare(self, status: Status) -> bool {
        self.status == status && self.body is Empty
    }
}

/// A JSON object body with one string member.
pub(crate) fn fields1(k: &str, v: String) -> (b: Body)
    ensures
        b.fields() == Some(seq![(k@, v@)]),
{
    let mut f: Vec<(String, String)> = Vec::new();
    f.push((String::from_str(k), v));
    proof {
        assert(fields_view(f@) =~= seq![(k@, v@)]);
    }
    Body::Fields(f)
}

/// A JSON object body with two string members, in this order.
pub(crate) fn fields2(k1: &str, v1: String, k2: &str, v2: String) -> (b: Body)
    ensures
        b.fields() == Some(seq![(k1@, v1@), (k2@, v2@)]),
{
    let mut f: Vec<(String, String)> = Vec::new();
    f.push((String::from_str(k1), v1));
    f.push((String::from_str(k2), v2));
    proof {
        assert(fields_view(f@) =~= seq![(k1@, v1@), (k2@, v2@)]);
    }
    Body::Fields(f)
}

/// A `String` with the characters of `s`.
pub(crate) fn text(s: &str) -> (r: String)
    ensures
        r@ == s@,
{
    String::from_str(s)
}

} // verus!
