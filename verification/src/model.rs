//! The domain model: users with a role, and the login state attached to a
//! user.
//!
//! Roles are ordered by strength — `Unknown < User < PowerUser < Admin` —
//! and travel as snake_case names. An unrecognized name always falls back
//! to `Unknown`, never to an error.

use vstd::prelude::*;
use crate::text::str_eq;

verus! {

/// A user's role, weakest first.
#[derive(Clone, Copy, Debug, PartialEq, Eq, Structural, PartialOrd)]
pub enum Role {
    Unknown,
    User,
    PowerUser,
    Admin,
}

/// The snake_case name each role travels under.
pub open spec fn role_name(r: Role) -> Seq<char> {
    match r {
        Role::Unknown => "unknown"@,
        Role::User => "user"@,
        Role::PowerUser => "power_user"@,
        Role::Admin => "admin"@,
    }
}

/// The role a name denotes; anything unrecognized is `Unknown`.
pub open spec fn role_of_name(s: Seq<char>) -> Role {
    if s == "admin"@ {
        Role::Admin
    } else if s == "power_user"@ {
        Role::PowerUser
    } else if s == "user"@ {
        Role::User
    } else {
        Role::Unknown
    }
}

impl Role {
    /// Parse a role from its snake_case name; an unrecognized name is
    /// `Unknown`, never an error.
    pub fn new_from_str(rep: &str) -> (r: Role)
        ensures
            r == role_of_name(rep@),
    {
        if str_eq(rep, "admin") {
            Role::Admin
        } else if str_eq(rep, "power_user") {
            Role::PowerUser
        } else if str_eq(rep, "user") {
            Role::User
        } else {
            Role::Unknown
        }
    }

    /// The snake_case name of this role.
    pub fn as_string(&self) -> (r: String)
        ensures
            r@ == role_name(*self),
    {
        match self {
            Role::Unknown => String::from_str("unknown"),
            Role::User => String::from_str("user"),
            Role::PowerUser => String::from_str("power_user"),
            Role::Admin => String::from_str("admin"),
        }
    }

    /// The rank used to compare roles: a role authorizes an action exactly
    /// when its strength reaches the required role's strength.
    pub open spec fn spec_strength(&self) -> u8 {
        match self {
            Role::Unknown => 0u8,
            Role::User => 1u8,
            Role::PowerUser => 2u8,
            Role::Admin => 3u8,
        }
    }

    /// The rank of this role, weakest 0.
    pub fn strength(&self) -> (r: u8)
        ensures
            r == self.spec_strength(),
    {
        match self {
            Role::Unknown => 0,
            Role::User => 1,
            Role::PowerUser => 2,
            Role::Admin => 3,
        }
    }
}

/// Printing a role and parsing the printed name gives the role back, for
/// every role: the four names are pairwise distinct, so nothing falls into
/// the `Unknown` fallback.
pub proof fn lemma_role_name_round_trip(r: Role)
    ensures
        role_of_name(role_name(r)) == r,
{
    reveal_strlit("unknown");
    reveal_strlit("user");
    reveal_strlit("power_user");
    reveal_strlit("admin");
    // the four names have pairwise distinct lengths
    assert("unknown"@.len() == 7);
    assert("user"@.len() == 4);
    assert("power_user"@.len() == 10);
    assert("admin"@.len() == 5);
}

/// A user account.
#[derive(Clone, Debug, PartialEq)]
pub struct User {
    pub id: String,
    pub name: String,
    pub display_name: String,
    pub role: Role,
}

/// The lifecycle state of a user's login.
#[derive(Clone, Copy, Debug, PartialEq, Eq, Structural)]
pub enum LoginUserStatus {
    Enabled,
    Disabled,
    PasswordChangeRequired,
}

/// The login credentials and state attached to one user.
#[derive(Clone, Debug, PartialEq)]
pub struct Login {
    pub user_id: String,
    pub password_hash: String,
    pub status: LoginUserStatus,
}

} // verus!
