//! Database records: the row shapes stored in the `user_records` and
//! `user_login_records` tables, their decoders, and the conversions
//! between records and domain values.
//!
//! A user's role travels as its plain snake_case name; a login status
//! travels JSON-encoded, quotes included. In both directions a missing or
//! unrecognized value falls back — to `Unknown` for roles and to
//! `Enabled` for statuses — rather than failing.

use vstd::prelude::*;
use crate::model::{Login, LoginUserStatus, Role, User, role_name, role_of_name};
use crate::query::{Col, FromRow, Row};
use crate::text::str_eq;

verus! {

/// The stored (JSON-encoded) name of each login status.
pub open spec fn status_name(s: LoginUserStatus) -> Seq<char> {
    match s {
        LoginUserStatus::Enabled => "\"enabled\""@,
        LoginUserStatus::Disabled => "\"disabled\""@,
        LoginUserStatus::PasswordChangeRequired => "\"password_change_required\""@,
    }
}

/// The status a stored name denotes; anything unrecognized falls back to
/// `Enabled`.
pub open spec fn status_of_name(s: Seq<char>) -> LoginUserStatus {
    if s == "\"enabled\""@ {
        LoginUserStatus::Enabled
    } else if s == "\"disabled\""@ {
        LoginUserStatus::Disabled
    } else if s == "\"password_change_required\""@ {
        LoginUserStatus::PasswordChangeRequired
    } else {
        LoginUserStatus::Enabled
    }
}

/// Storing a status and reading it back gives the status back, for every
/// status.
pub proof fn lemma_status_name_round_trip(s: LoginUserStatus)
    ensures
        status_of_name(status_name(s)) == s,
{
    reveal_strlit("\"enabled\"");
    reveal_strlit("\"disabled\"");
    reveal_strlit("\"password_change_required\"");
    // the three names have pairwise distinct lengths
    assert("\"enabled\""@.len() == 9);
    assert("\"disabled\""@.len() == 10);
    assert("\"password_change_required\""@.len() == 26);
}

/// Parse a stored status name; anything unrecognized is `Enabled`.
pub fn parse_status(s: &str) -> (r: LoginUserStatus)
    ensures
        r == status_of_name(s@),
{
    if str_eq(s, "\"enabled\"") {
        LoginUserStatus::Enabled
    } else if str_eq(s, "\"disabled\"") {
        LoginUserStatus::Disabled
    } else if str_eq(s, "\"password_change_required\"") {
        LoginUserStatus::PasswordChangeRequired
    } else {
        LoginUserStatus::Enabled
    }
}

/// Render a status as its stored name.
pub fn status_as_string(s: &LoginUserStatus) -> (r: String)
    ensures
        r@ == status_name(*s),
{
    match s {
        LoginUserStatus::Enabled => String::from_str("\"enabled\""),
        LoginUserStatus::Disabled => String::from_str("\"disabled\""),
        LoginUserStatus::PasswordChangeRequired => String::from_str(
            "\"password_change_required\"",
        ),
    }
}

/// One row of the `user_records` table: id, name, display name, and the
/// nullable role column.
#[derive(Clone, Debug, PartialEq)]
pub struct UserRecord {
    pub id: String,
    pub name: String,
    pub display_name: String,
    pub role: Option<String>,
}

impl UserRecord {
    /// Turn a stored record into the domain user. A missing role column
    /// and an unrecognized role name both become `Unknown`.
    pub fn to_model(self) -> (r: User)
        ensures
            r.id == self.id,
            r.name == self.name,
            r.display_name == self.display_name,
            r.role == match self.role {
                Some(s) => role_of_name(s@),
                None => Role::Unknown,
            },
    {
        let role = match &self.role {
            Some(s) => Role::new_from_str(s.as_str()),
            None => Role::Unknown,
        };
        User { id: self.id, name: self.name, display_name: self.display_name, role }
    }

    /// Turn a domain user into the record to store: the role column holds
    /// the role's name.
    pub fn from_model(user: User) -> (r: UserRecord)
        ensures
            r.id == user.id,
            r.name == user.name,
            r.display_name == user.display_name,
            r.role matches Some(s) && s@ == role_name(user.role),
    {
        let role = user.role.as_string();
        UserRecord { id: user.id, name: user.name, display_name: user.display_name, role: Some(
            role,
        ) }
    }
}

impl FromRow for UserRecord {
    open spec fn spec_from_row(row: Seq<Col>) -> Option<UserRecord> {
        if row.len() == 4 && row[0] is Text && row[1] is Text && row[2] is Text && (row[3] is Text
            || row[3] is Null) {
            Some(
                UserRecord {
                    id: row[0]->Text_0,
                    name: row[1]->Text_0,
                    display_name: row[2]->Text_0,
                    role: if row[3] is Text {
                        Some(row[3]->Text_0)
                    } else {
                        None
                    },
                },
            )
        } else {
            None
        }
    }

    fn from_row(row: &Row) -> (r: Option<UserRecord>) {
        if row.len() != 4 {
            return None;
        }
        let id = match &row[0] {
            Col::Text(s) => s.clone(),
            _ => {
                return None;
            },
        };
        let name = match &row[1] {
            Col::Text(s) => s.clone(),
            _ => {
                return None;
            },
        };
        let display_name = match &row[2] {
            Col::Text(s) => s.clone(),
            _ => {
                return None;
            },
        };
        let role = match &row[3] {
            Col::Text(s) => Some(s.clone()),
            Col::Null => None,
            _ => {
                return None;
            },
        };
        Some(UserRecord { id, name, display_name, role })
    }
}

/// One row of the `user_login_records` table: user id, password hash, and
/// the nullable status column.
#[derive(Clone, Debug, PartialEq)]
pub struct UserLoginRecord {
    pub user_id: String,
    pub password_hash: String,
    pub status: Option<String>,
}

impl UserLoginRecord {
    /// Turn a stored record into the domain login. A missing or
    /// unrecognized status becomes `Enabled`.
    pub fn to_model(self) -> (r: Login)
        ensures
            r.user_id == self.user_id,
            r.password_hash == self.password_hash,
            r.status == match self.status {
                Some(s) => status_of_name(s@),
                None => LoginUserStatus::Enabled,
            },
    {
        let status = match &self.status {
            Some(s) => parse_status(s.as_str()),
            None => LoginUserStatus::Enabled,
        };
        Login { user_id: self.user_id, password_hash: self.password_hash, status }
    }

    /// Turn a domain login into the record to store: the status column
    /// holds the status's stored name.
    pub fn from_model(login: Login) -> (r: UserLoginRecord)
        ensures
            r.user_id == login.user_id,
            r.password_hash == login.password_hash,
            r.status matches Some(s) && s@ == status_name(login.status),
    {
        let status = status_as_string(&login.status);
        UserLoginRecord {
            user_id: login.user_id,
            password_hash: login.password_hash,
            status: Some(status),
        }
    }
}

impl FromRow for UserLoginRecord {
    open spec fn spec_from_row(row: Seq<Col>) -> Option<UserLoginRecord> {
        if row.len() == 3 && row[0] is Text && row[1] is Text && (row[2] is Text
            || row[2] is Null) {
            Some(
                UserLoginRecord {
                    user_id: row[0]->Text_0,
                    password_hash: row[1]->Text_0,
                    status: if row[2] is Text {
                        Some(row[2]->Text_0)
                    } else {
                        None
                    },
                },
            )
        } else {
            None
        }
    }

    fn from_row(row: &Row) -> (r: Option<UserLoginRecord>) {
        if row.len() != 3 {
            return None;
        }
        let user_id = match &row[0] {
            Col::Text(s) => s.clone(),
            _ => {
                return None;
            },
        };
        let password_hash = match &row[1] {
            Col::Text(s) => s.clone(),
            _ => {
                return None;
            },
        };
        let status = match &row[2] {
            Col::Text(s) => Some(s.clone()),
            Col::Null => None,
            _ => {
                return None;
            },
        };
        Some(UserLoginRecord { user_id, password_hash, status })
    }
}

/// A row of the user table joined with the login table, as the login
/// lookup by user name selects it: the four user columns, then the three
/// login columns.
impl FromRow for (UserRecord, UserLoginRecord) {
    open spec fn spec_from_row(row: Seq<Col>) -> Option<(UserRecord, UserLoginRecord)> {
        if row.len() == 7 {
            match (
                UserRecord::spec_from_row(row.subrange(0, 4)),
                UserLoginRecord::spec_from_row(row.subrange(4, 7)),
            ) {
                (Some(u), Some(l)) => Some((u, l)),
                _ => None,
            }
        } else {
            None
        }
    }

    fn from_row(row: &Row) -> (r: Option<(UserRecord, UserLoginRecord)>) {
        if row.len() != 7 {
            return None;
        }
        proof {
            let u = row@.subrange(0, 4);
            assert(u[0] == row@[0]);
            assert(u[1] == row@[1]);
            assert(u[2] == row@[2]);
            assert(u[3] == row@[3]);
            let l = row@.subrange(4, 7);
            assert(l[0] == row@[4]);
            assert(l[1] == row@[5]);
            assert(l[2] == row@[6]);
        }
        let id = match &row[0] {
            Col::Text(s) => s.clone(),
            _ => {
                return None;
            },
        };
        let name = match &row[1] {
            Col::Text(s) => s.clone(),
            _ => {
                return None;
            },
        };
        let display_name = match &row[2] {
            Col::Text(s) => s.clone(),
            _ => {
                return None;
            },
        };
        let role = match &row[3] {
            Col::Text(s) => Some(s.clone()),
            Col::Null => None,
            _ => {
                return None;
            },
        };
        let user_id = match &row[4] {
            Col::Text(s) => s.clone(),
            _ => {
                return None;
            },
        };
        let password_hash = match &row[5] {
            Col::Text(s) => s.clone(),
            _ => {
                return None;
            },
        };
        let status = match &row[6] {
            Col::Text(s) => Some(s.clone()),
            Col::Null => None,
            _ => {
                return None;
            },
        };
        Some(
            (
                UserRecord { id, name, display_name, role },
                UserLoginRecord { user_id, password_hash, status },
            ),
        )
    }
}

} // verus!
