//! Request authorization: extracting the bearer token from an
//! Authorization header value, and checking a user's role against the
//! role a route requires.
//!
//! A header value yields a token exactly when the bearer marker occurs in
//! it exactly once; the token is everything after that occurrence. Roles
//! are compared by strength: the caller's role must be at least the
//! required one.

use vstd::prelude::*;
use crate::error::ServiceError;
use crate::model::{Role, User};

verus! {

/// The marker separating the scheme from the token in an Authorization
/// header value.
pub open spec fn bearer_marker() -> Seq<char> {
    "Bearer "@
}

/// True when `pat` occurs in `s` starting at position `i`.
pub open spec fn occurs_at(s: Seq<char>, pat: Seq<char>, i: int) -> bool {
    &&& 0 <= i
    &&& i + pat.len() <= s.len()
    &&& s.subrange(i, i + pat.len() as int) == pat
}

/// Does `pat` occur in `s` at position `i`?
fn match_at(s: &str, pat: &str, i: usize, slen: usize, plen: usize) -> (r: bool)
    requires
        slen == s@.len(),
        plen == pat@.len(),
        i + plen <= slen,
    ensures
        r == occurs_at(s@, pat@, i as int),
{
    let mut j: usize = 0;
    while j < plen
        invariant
            slen == s@.len(),
            plen == pat@.len(),
            i + plen <= slen,
            j <= plen,
            forall|k: int| 0 <= k < j ==> s@[i + k] == pat@[k],
        decreases plen - j,
    {
        let cs = s.get_char(i + j);
        let cp = pat.get_char(j);
        if cs != cp {
            proof {
                if occurs_at(s@, pat@, i as int) {
                    assert(s@.subrange(i as int, i + pat@.len() as int)[j as int] == pat@[
                        j as int
                    ]);
                }
            }
            return false;
        }
        j = j + 1;
    }
    proof {
        assert(s@.subrange(i as int, i + pat@.len() as int) =~= pat@);
    }
    true
}

/// Extract the token from an Authorization header value: the part after
/// the bearer marker, provided the marker occurs exactly once. A value
/// without the marker, or with it more than once, yields nothing.
pub fn parse_bearer_token(token: &str) -> (r: Option<String>)
    ensures
        (r is Some) <==> ((exists|i: int| occurs_at(token@, bearer_marker(), i)) && (forall|
            i: int,
            j: int,
        |
            occurs_at(token@, bearer_marker(), i) && occurs_at(token@, bearer_marker(), j) ==> i
                == j)),
        r matches Some(rest) ==> forall|i: int|
            occurs_at(token@, bearer_marker(), i) ==> rest@ == token@.subrange(
                i + bearer_marker().len() as int,
                token@.len() as int,
            ),
{
    let pat = "Bearer ";
    proof {
        reveal_strlit("Bearer ");
        assert(pat@ == bearer_marker());
    }
    let plen = pat.unicode_len();
    let slen = token.unicode_len();
    if slen < plen {
        proof {
            assert forall|i: int| !occurs_at(token@, bearer_marker(), i) by {}
        }
        return None;
    }
    let mut i: usize = 0;
    let mut found: Option<usize> = None;
    let mut dup: bool = false;
    while i <= slen - plen
        invariant
            slen == token@.len(),
            plen == pat@.len(),
            pat@ == bearer_marker(),
            1 <= plen <= slen,
            i <= slen - plen + 1,
            found is None ==> forall|k: int| 0 <= k < i ==> !occurs_at(token@, bearer_marker(), k),
            found matches Some(f) ==> f < i && occurs_at(token@, bearer_marker(), f as int),
            found matches Some(f) ==> (!dup ==> forall|k: int|
                0 <= k < i && occurs_at(token@, bearer_marker(), k) ==> k == f),
            dup ==> (found is Some && exists|k1: int, k2: int|
                k1 != k2 && occurs_at(token@, bearer_marker(), k1) && occurs_at(
                    token@,
                    bearer_marker(),
                    k2,
                )),
        decreases slen - i,
    {
        if match_at(token, pat, i, slen, plen) {
            match found {
                None => {
                    found = Some(i);
                },
                Some(_) => {
                    dup = true;
                },
            }
        }
        i = i + 1;
    }
    proof {
        // any occurrence lies in the scanned range
        assert forall|k: int|
            occurs_at(token@, bearer_marker(), k) implies 0 <= k < i by {}
    }
    match found {
        Some(f) => {
            if dup {
                None
            } else {
                let rest = token.substring_char(f + plen, slen);
                Some(String::from_str(rest))
            }
        },
        None => None,
    }
}

/// True when a role of strength `have` may use a route requiring `need`
/// (no requirement admits everyone).
pub open spec fn role_suffices(have: Role, need: Option<Role>) -> bool {
    match need {
        Some(n) => have.spec_strength() >= n.spec_strength(),
        None => true,
    }
}

/// The authorization decision for an authenticated user against a
/// route's required role: the user passes through exactly when their role
/// is strong enough, and is otherwise rejected as unauthorized.
pub fn authorize_user(user: User, required: Option<Role>) -> (r: Result<User, ServiceError>)
    ensures
        role_suffices(user.role, required) ==> (r matches Ok(u) && u == user),
        !role_suffices(user.role, required) ==> (r matches Err(se) && se matches
            ServiceError::Unauthorized(m) && m@ == "Role is not enough"@),
{
    let passes = match &required {
        Some(need) => user.role.strength() >= need.strength(),
        None => true,
    };
    if passes {
        Ok(user)
    } else {
        Err(ServiceError::Unauthorized(String::from_str("Role is not enough")))
    }
}

/// The token-extraction half of authorizing a request: a missing header
/// is an empty-token rejection, a header without exactly one bearer
/// marker is an invalid-token rejection, and otherwise the bearer token
/// comes out for the signature check.
pub fn bearer_token_or_error(header: Option<String>) -> (r: Result<String, ServiceError>)
    ensures
        header is None ==> (r matches Err(se) && se matches ServiceError::Unauthorized(m) && m@
            == "Empty token"@),
        header matches Some(h) ==> match r {
            Ok(tok) => (exists|i: int| occurs_at(h@, bearer_marker(), i)) && (forall|
                i: int,
                j: int,
            |
                occurs_at(h@, bearer_marker(), i) && occurs_at(h@, bearer_marker(), j) ==> i == j)
                && (forall|i: int|
                occurs_at(h@, bearer_marker(), i) ==> tok@ == h@.subrange(
                    i + bearer_marker().len() as int,
                    h@.len() as int,
                )),
            Err(se) => !((exists|i: int| occurs_at(h@, bearer_marker(), i)) && (forall|
                i: int,
                j: int,
            |
                occurs_at(h@, bearer_marker(), i) && occurs_at(h@, bearer_marker(), j) ==> i == j))
                && (se matches ServiceError::Unauthorized(m) && m@ == "Invalid token"@),
        },
{
    match header {
        None => Err(ServiceError::Unauthorized(String::from_str("Empty token"))),
        Some(h) => match parse_bearer_token(h.as_str()) {
            Some(tok) => Ok(tok),
            None => Err(ServiceError::Unauthorized(String::from_str("Invalid token"))),
        },
    }
}

} // verus!
