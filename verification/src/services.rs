//! The account and login services: every decision they make is here, as
//! functions over plain values. The runtime performs the repository calls
//! against the bridge and hands each call's result back in.

use vstd::prelude::*;
use crate::error::{ConnectorError, ServiceError};
use crate::hashing::{IHashManager, verify_of};
use crate::model::{Login, LoginUserStatus, Role, User};

verus! {

/// Relies on ulid::Ulid::generate and ulid::Ulid::to_string: a ULID
/// renders as exactly 26 Crockford base32 characters. The value itself
/// depends on the clock and on randomness, so nothing else is promised.
#[verifier::external_body]
fn new_ulid() -> (r: String)
    ensures
        r@.len() == 26,
{
    ulid::Ulid::generate().to_string()
}

/// Wrap a bridge failure as the service-level database error.
pub fn db_error(e: ConnectorError) -> (r: ServiceError)
    ensures
        r matches ServiceError::DBError(e2) && e2 == e,
{
    ServiceError::DBError(e)
}

/// A request to create a user.
#[derive(Clone, Debug)]
pub struct UserCreateInput {
    pub name: String,
    pub display_name: String,
}

/// The account service. The repository it drives lives with the runtime;
/// this side builds the values to store and shapes the results handed
/// back.
#[derive(Clone)]
pub struct UserService;

impl UserService {
    pub fn new() -> (r: UserService) {
        UserService
    }

    /// Build the user a create request stores: a fresh 26-character ULID
    /// for the id, the requested names, and the `Unknown` role — a new
    /// account starts with no privileges.
    pub fn create(&self, input: UserCreateInput) -> (r: User)
        ensures
            r.name == input.name,
            r.display_name == input.display_name,
            r.role == Role::Unknown,
            r.id@.len() == 26,
    {
        User {
            id: new_ulid(),
            name: input.name,
            display_name: input.display_name,
            role: Role::Unknown,
        }
    }

    /// Shape the repository's save result: a bridge failure becomes the
    /// service-level database error.
    pub fn save_outcome(&self, saved: Result<(), ConnectorError>) -> (r: Result<(), ServiceError>)
        ensures
            saved matches Ok(_) ==> r matches Ok(_),
            saved matches Err(e) ==> (r matches Err(se) && se matches ServiceError::DBError(e2)
                && e2 == e),
    {
        match saved {
            Ok(_) => Ok(()),
            Err(e) => Err(db_error(e)),
        }
    }

    /// Shape the repository's list result: the users pass through
    /// unchanged, a bridge failure becomes the service-level database
    /// error.
    pub fn list_outcome(&self, loaded: Result<Vec<User>, ConnectorError>) -> (r: Result<
        Vec<User>,
        ServiceError,
    >)
        ensures
            loaded matches Ok(users) ==> (r matches Ok(us) && us == users),
            loaded matches Err(e) ==> (r matches Err(se) && se matches ServiceError::DBError(e2)
                && e2 == e),
    {
        match loaded {
            Ok(users) => Ok(users),
            Err(e) => Err(db_error(e)),
        }
    }
}

/// A login attempt: who claims to log in, with what password.
#[derive(Clone, Debug)]
pub struct AuthenticateInput {
    pub user_name: String,
    pub password: String,
}

/// A request to enable a user account with a password.
#[derive(Clone, Debug)]
pub struct EnableUserWithPasswordInput {
    pub user_id: String,
    pub password: String,
}

/// The login service, over any hash manager. The login repository and the
/// token signer live with the runtime; the authentication decision is
/// made here.
#[derive(Clone)]
pub struct LoginService<H: IHashManager> {
    hash_manager: H,
}

impl<H: IHashManager> LoginService<H> {
    pub fn new(hash_manager: H) -> (r: LoginService<H>) {
        LoginService { hash_manager }
    }

    /// Decide a login attempt, given the repository's lookup of the
    /// claimed user name. A lookup failure surfaces as the database
    /// error; a found user authenticates exactly when the password
    /// matches the stored hash, and is otherwise rejected as an invalid
    /// request.
    pub fn authenticate_user(
        &self,
        lookup: Result<(Login, User), ConnectorError>,
        password: String,
    ) -> (r: Result<User, ServiceError>)
        ensures
            lookup matches Err(e) ==> (r matches Err(se) && se matches ServiceError::DBError(e2)
                && e2 == e),
            lookup matches Ok(found) ==> {
                &&& verify_of(found.0.password_hash@, password@) == Some(true) ==> (r matches Ok(u)
                    && u == found.1)
                &&& verify_of(found.0.password_hash@, password@) != Some(true) ==> (r matches Err(
                    se,
                ) && se matches ServiceError::InvalidRequest(inner) && *inner matches
                    ServiceError::GeneralError(m) && m@ == "invalid password"@)
            },
    {
        match lookup {
            Err(e) => Err(db_error(e)),
            Ok((login, user)) => {
                if self.hash_manager.verify(crate::hashing::Hash::from_string(login.password_hash), password) {
                    Ok(user)
                } else {
                    Err(
                        ServiceError::InvalidRequest(
                            Box::new(
                                ServiceError::GeneralError(String::from_str("invalid password")),
                            ),
                        ),
                    )
                }
            },
        }
    }

    /// Build the login row that enables a user with a password: the
    /// stored hash verifies against that password and the status is
    /// `Enabled`. `None` only when the hash manager's randomness fails.
    pub fn enable_user_with_password(&self, input: EnableUserWithPasswordInput) -> (r: Option<
        Login,
    >)
        ensures
            r matches Some(login) ==> {
                &&& login.user_id == input.user_id
                &&& login.status == LoginUserStatus::Enabled
                &&& verify_of(login.password_hash@, input.password@) == Some(true)
            },
    {
        match self.hash_manager.hash(input.password) {
            Some(h) => Some(
                Login {
                    user_id: input.user_id,
                    password_hash: h.to_string(),
                    status: LoginUserStatus::Enabled,
                },
            ),
            None => None,
        }
    }
}

} // verus!
