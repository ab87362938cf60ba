use vstd::prelude::*;
use vstd::string::StringExecFns;
use hmac::Mac;
use jwt::{SignWithKey, VerifyWithKey};
use std::collections::BTreeMap;

use crate::reply::fields_view;

verus! {

/// The key with which session tokens are signed and checked.
pub const SECRET: &'static str = "super-secret";

/// The request header that carries a session token.
pub const TOKEN_HEADER: &'static str = "bearer-token";

/// The claim of a token that names its user.
pub const USER_ID_CLAIM: &'static str = "user_id";

#[verifier::external_type_specification]
#[verifier::external_body]
pub struct ExJwtError(jwt::Error);

/// The compact JWT that `jwt`'s `sign_with_key` builds for a map of string
/// claims under an HMAC-SHA256 key made of the characters of `key`.
pub uninterp spec fn jwt_signed(key: Seq<char>, claims: Map<Seq<char>, Seq<char>>) -> Seq<char>;

/// What `jwt`'s `verify_with_key` gives back for `token` under an HMAC-SHA256
/// key made of the characters of `key`, when string claims are asked for:
/// `Some` of the claims where it returns `Ok`, `None` where it returns an
/// error (malformed token, other algorithm, wrong signature, claims that are
/// not all strings).
pub uninterp spec fn jwt_verified(key: Seq<char>, token: Seq<char>) -> Option<Map<Seq<char>, Seq<char>>>;

/// No name occurs twice among the claims.
pub open spec fn keys_distinct(s: Seq<(Seq<char>, Seq<char>)>) -> bool {
    forall|i: int, j: int| 0 <= i < j < s.len() ==> #[trigger] s[i].0 != #[trigger] s[j].0
}

/// The map of claims that a list of (name, value) pairs stands for.
pub open spec fn claims_map(s: Seq<(Seq<char>, Seq<char>)>) -> Map<Seq<char>, Seq<char>>
    decreases s.len(),
{
    if s.len() == 0 {
        Map::empty()
    } else {
        claims_map(s.drop_last()).insert(s.last().0, s.last().1)
    }
}

/// The claims of the token of user `user_id`.
pub open spec fn user_claims(user_id: Seq<char>) -> Map<Seq<char>, Seq<char>> {
    map![USER_ID_CLAIM@ => user_id]
}

/// A name is among the claims exactly when some pair carries it; with
/// distinct names, each pair's value is the value of its name.
pub proof fn lemma_claims_map(s: Seq<(Seq<char>, Seq<char>)>)
    requires
        keys_distinct(s),
    ensures
        forall|k: Seq<char>| #[trigger] claims_map(s).contains_key(k) <==> exists|i: int| 0 <= i < s.len() && s[i].0 == k,
        forall|i: int| 0 <= i < s.len() ==> #[trigger] claims_map(s)[s[i].0] == s[i].1,
    decreases s.len(),
{
    if s.len() > 0 {
        let t = s.drop_last();
        let last = s.last();
        assert(keys_distinct(t));
        lemma_claims_map(t);
        assert(claims_map(s) == claims_map(t).insert(last.0, last.1));
        assert forall|k: Seq<char>| #[trigger] claims_map(s).contains_key(k) <==> exists|i: int| 0 <= i < s.len() && s[i].0 == k by {
            if claims_map(t).contains_key(k) {
                let i = choose|i: int| 0 <= i < t.len() && t[i].0 == k;
                assert(s[i] == t[i]);
            }
            if k == last.0 {
                assert(s[s.len() - 1].0 == k);
            }
            if exists|i: int| 0 <= i < s.len() && s[i].0 == k {
                let i = choose|i: int| 0 <= i < s.len() && s[i].0 == k;
                if i < s.len() - 1 {
                    assert(t[i] == s[i]);
                    assert(claims_map(t).contains_key(k));
                }
            }
        }
        assert forall|i: int| 0 <= i < s.len() implies #[trigger] claims_map(s)[s[i].0] == s[i].1 by {
            if i < s.len() - 1 {
                assert(t[i] == s[i]);
                assert(s[i].0 != s[s.len() - 1].0);
                assert(claims_map(t)[t[i].0] == t[i].1);
            }
        }
    }
}

/// Calls `jwt`'s `sign_with_key` on the claims (as a `BTreeMap`) with the
/// HMAC-SHA256 key made of the bytes of `secret` (`Hmac::new_from_slice`,
/// which takes keys of any length). Claimed: signing string claims does not
/// fail, the token is `jwt_signed` of the key and the claims, and
/// `verify_with_key` with the same key gives back the same claims.
#[verifier::external_body]
fn jwt_sign(secret: &str, claims: &Vec<(String, String)>) -> (r: Result<String, jwt::Error>)
    requires
        keys_distinct(fields_view(claims@)),
    ensures
        r is Ok,
        r matches Ok(t) ==> t@ == jwt_signed(secret@, claims_map(fields_view(claims@))),
        r matches Ok(t) ==> jwt_verified(secret@, t@) == Some(claims_map(fields_view(claims@))),
{
    let key = hmac::Hmac::<sha2::Sha256>::new_from_slice(secret.as_bytes()).expect("HMAC takes keys of any length");
    let map: BTreeMap<&str, &str> = claims.iter().map(|p| (p.0.as_str(), p.1.as_str())).collect();
    map.sign_with_key(&key)
}

/// Calls `jwt`'s `verify_with_key` on `token`, asking for string claims, with
/// the HMAC-SHA256 key made of the bytes of `secret`; the claims come back as
/// (name, value) pairs. Claimed: the answer is `jwt_verified` of the key and
/// the token.
#[verifier::external_body]
fn jwt_verify(secret: &str, token: &str) -> (r: Option<Vec<(String, String)>>)
    ensures
        r is Some <==> jwt_verified(secret@, token@) is Some,
        r matches Some(v) ==> keys_distinct(fields_view(v@)),
        r matches Some(v) ==> claims_map(fields_view(v@)) == jwt_verified(secret@, token@).unwrap(),
{
    let key = hmac::Hmac::<sha2::Sha256>::new_from_slice(secret.as_bytes()).expect("HMAC takes keys of any length");
    let claims: Result<BTreeMap<String, String>, jwt::Error> = token.verify_with_key(&key);
    claims.ok().map(|m| m.into_iter().collect())
}

/// The value of the claim `name`, if the claims hold one.
fn find_claim(claims: &Vec<(String, String)>, name: &String) -> (r: Option<String>)
    requires
        keys_distinct(fields_view(claims@)),
    ensures
        r is Some <==> claims_map(fields_view(claims@)).contains_key(name@),
        r matches Some(v) ==> v@ == claims_map(fields_view(claims@))[name@],
{
    let ghost s = fields_view(claims@);
    proof {
        lemma_claims_map(s);
    }
    let n = claims.len();
    let mut i: usize = 0;
    while i < n
        invariant
            n == claims.len(),
            i <= n,
            s == fields_view(claims@),
            keys_distinct(s),
            forall|j: int| 0 <= j < i ==> s[j].0 != name@,
        decreases n - i,
    {
        if claims[i].0 == *name {
            assert(s[i as int] == (claims@[i as int].0@, claims@[i as int].1@));
            proof {
                lemma_claims_map(s);
            }
            assert(claims_map(s).contains_key(s[i as int].0));
            assert(claims_map(s)[s[i as int].0] == s[i as int].1);
            return Some(claims[i].1.clone());
        }
        i = i + 1;
    }
    proof {
        if claims_map(s).contains_key(name@) {
            let j = choose|j: int| 0 <= j < s.len() && s[j].0 == name@;
            assert(false);
        }
    }
    None
}

/// A session token and the user it was issued to.
#[derive(Debug, PartialEq, Eq)]
pub struct JwtToken {
    pub user_id: String,
    pub tok: String,
}

impl JwtToken {
    /// `token` is signed with `SECRET` and names a user.
    pub open spec fn decodable(token: Seq<char>) -> bool {
        jwt_verified(SECRET@, token) matches Some(m) && m.contains_key(USER_ID_CLAIM@)
    }

    /// The user that a decodable `token` names.
    pub open spec fn decoded_user_id(token: Seq<char>) -> Seq<char> {
        jwt_verified(SECRET@, token).unwrap()[USER_ID_CLAIM@]
    }

    /// Issues a token for `user_id`: the claim `user_id` signed with `SECRET`.
    /// The token decodes back to the same user.
    pub fn new(user_id: String) -> (r: JwtToken)
        ensures
            r.user_id@ == user_id@,
            r.tok@ == jwt_signed(SECRET@, user_claims(user_id@)),
            Self::decodable(r.tok@),
            Self::decoded_user_id(r.tok@) == user_id@,
    {
        let mut claims: Vec<(String, String)> = Vec::new();
        claims.push((String::from_str(USER_ID_CLAIM), user_id.clone()));
        proof {
            let s = fields_view(claims@);
            assert(s.drop_last() =~= Seq::<(Seq<char>, Seq<char>)>::empty());
            assert(claims_map(s.drop_last()) == Map::<Seq<char>, Seq<char>>::empty());
            assert(claims_map(s) =~= user_claims(user_id@));
        }
        let tok = match jwt_sign(SECRET, &claims) {
            Ok(t) => t,
            Err(_) => {
                proof {
                    assert(false);
                }
                String::new()
            },
        };
        JwtToken { user_id, tok }
    }

    /// Reads the user out of a token signed with `SECRET`.
    pub fn decode(token: String) -> (r: JwtToken)
        requires
            Self::decodable(token@),
        ensures
            r.tok@ == token@,
            r.user_id@ == Self::decoded_user_id(token@),
    {
        let name = String::from_str(USER_ID_CLAIM);
        let user_id = match jwt_verify(SECRET, token.as_str()) {
            Some(claims) => match find_claim(&claims, &name) {
                Some(u) => u,
                None => {
                    proof {
                        assert(false);
                    }
                    String::new()
                },
            },
            None => {
                proof {
                    assert(false);
                }
                String::new()
            },
        };
        JwtToken { user_id, tok: token }
    }

    /// Reads the user out of `token` where it is signed with `SECRET` and
    /// names a user; `None` otherwise.
    pub fn try_decode(token: String) -> (r: Option<JwtToken>)
        ensures
            r is Some <==> Self::decodable(token@),
            r matches Some(t) ==> t.tok@ == token@ && t.user_id@ == Self::decoded_user_id(token@),
    {
        let name = String::from_str(USER_ID_CLAIM);
        match jwt_verify(SECRET, token.as_str()) {
            Some(claims) => match find_claim(&claims, &name) {
                Some(_) => Some(Self::decode(token)),
                None => None,
            },
            None => None,
        }
    }
}

} // verus!
