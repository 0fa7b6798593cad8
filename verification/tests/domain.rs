use accounts::authorize::{authorize_user, bearer_token_or_error, parse_bearer_token};
use accounts::error::{ConnectorError, QueryFailure, ServiceError};
use accounts::hashing::{HashManager, IHashManager};
use accounts::model::{Login, LoginUserStatus, Role, User};
use accounts::pool::ConnectionPool;
use accounts::records::{UserLoginRecord, UserRecord};
use accounts::services::{
    AuthenticateInput, EnableUserWithPasswordInput, LoginService, UserCreateInput, UserService,
};
use accounts::table::Universe;

fn sample_user(role: Role) -> User {
    User {
        id: "01ARZ3NDEKTSV4RRFFQ69G5FAV".to_string(),
        name: "aaa".to_string(),
        display_name: "bbb".to_string(),
        role,
    }
}

#[test]
fn role_new_as_str_inverse() {
    assert_eq!(Role::new_from_str(&Role::Admin.as_string()), Role::Admin);
    assert_eq!(Role::new_from_str("admin").as_string(), "admin");
}

#[test]
fn admin_should_stronger_than_all_other_role() {
    assert!(Role::Admin >= Role::Unknown);
    assert!(Role::Admin >= Role::User);
    assert!(Role::Admin >= Role::PowerUser);
}

#[test]
fn unknown_should_weaker_than_all_other_role() {
    assert!(Role::Unknown <= Role::User);
    assert!(Role::Unknown <= Role::PowerUser);
    assert!(Role::Unknown <= Role::Admin);
}

#[test]
fn unrecognized_role_name_falls_back_to_unknown() {
    assert_eq!(Role::new_from_str("???"), Role::Unknown);
    assert_eq!(Role::new_from_str(""), Role::Unknown);
    assert_eq!(Role::new_from_str("Admin"), Role::Unknown);
}

#[test]
fn every_role_round_trips_through_its_name() {
    for role in [Role::Unknown, Role::User, Role::PowerUser, Role::Admin] {
        assert_eq!(Role::new_from_str(&role.as_string()), role);
    }
}

#[test]
fn user_record_converts_to_and_from_the_model() {
    let rec = UserRecord {
        id: "aaa".to_string(),
        name: "bbb".to_string(),
        display_name: "日本語".to_string(),
        role: Some("power_user".to_string()),
    };
    let user = rec.to_model();
    assert_eq!(user.id, "aaa");
    assert_eq!(user.name, "bbb");
    assert_eq!(user.display_name, "日本語");
    assert_eq!(user.role, Role::PowerUser);

    let back = UserRecord::from_model(user);
    assert_eq!(back.role.as_deref(), Some("power_user"));

    let nameless = UserRecord {
        id: String::new(),
        name: String::new(),
        display_name: String::new(),
        role: None,
    };
    assert_eq!(nameless.to_model().role, Role::Unknown);
}

#[test]
fn login_record_converts_to_and_from_the_model() {
    let rec = UserLoginRecord {
        user_id: "u".to_string(),
        password_hash: "h".to_string(),
        status: Some("\"password_change_required\"".to_string()),
    };
    let login = rec.to_model();
    assert_eq!(login.status, LoginUserStatus::PasswordChangeRequired);

    let back = UserLoginRecord::from_model(login);
    assert_eq!(back.status.as_deref(), Some("\"password_change_required\""));

    // a missing or unrecognized stored status falls back to enabled
    let rec = UserLoginRecord {
        user_id: "u".to_string(),
        password_hash: "h".to_string(),
        status: None,
    };
    assert_eq!(rec.to_model().status, LoginUserStatus::Enabled);
    let rec = UserLoginRecord {
        user_id: "u".to_string(),
        password_hash: "h".to_string(),
        status: Some("garbage".to_string()),
    };
    assert_eq!(rec.to_model().status, LoginUserStatus::Enabled);
}

#[test]
fn created_user_gets_a_ulid_and_no_privileges() {
    let service = UserService::new();
    let user = service.create(UserCreateInput {
        name: "aaa".to_string(),
        display_name: "bbb".to_string(),
    });
    assert_eq!(user.id.chars().count(), 26);
    assert_eq!(user.name, "aaa");
    assert_eq!(user.display_name, "bbb");
    assert_eq!(user.role, Role::Unknown);
}

#[test]
fn save_and_list_outcomes_wrap_bridge_errors() {
    let service = UserService::new();
    assert!(service.save_outcome(Ok(())).is_ok());
    match service.save_outcome(Err(ConnectorError::Dispatch)) {
        Err(ServiceError::DBError(ConnectorError::Dispatch)) => {}
        _ => panic!("a bridge failure surfaces as the database error"),
    }
    let listed = service.list_outcome(Ok(vec![sample_user(Role::User)])).unwrap();
    assert_eq!(listed.len(), 1);
    match service.list_outcome(Err(ConnectorError::Saturation)) {
        Err(ServiceError::DBError(ConnectorError::Saturation)) => {}
        _ => panic!("a bridge failure surfaces as the database error"),
    }
}

#[test]
fn hashing_round_trip_verifies() {
    let manager = HashManager::new();
    let hash = manager.hash("open sesame".to_string()).expect("hashing succeeds");
    let stored = hash.to_string();
    assert_eq!(stored.len(), 60);
    let again = accounts::hashing::Hash::from_string(stored.clone());
    assert!(manager.verify(again, "open sesame".to_string()));
    let again = accounts::hashing::Hash::from_string(stored);
    assert!(!manager.verify(again, "wrong password".to_string()));
}

#[test]
fn malformed_hash_never_verifies() {
    let manager = HashManager::new();
    let bogus = accounts::hashing::Hash::from_string("not a bcrypt hash".to_string());
    assert!(!manager.verify(bogus, "anything".to_string()));
}

fn login_for(password: &str) -> Login {
    let manager = HashManager::new();
    let hash = manager.hash(password.to_string()).expect("hashing succeeds");
    Login {
        user_id: "u1".to_string(),
        password_hash: hash.to_string(),
        status: LoginUserStatus::Enabled,
    }
}

#[test]
fn authenticate_accepts_the_right_password() {
    let service = LoginService::new(HashManager::new());
    let input = AuthenticateInput {
        user_name: "aaa".to_string(),
        password: "open sesame".to_string(),
    };
    let lookup = Ok((login_for("open sesame"), sample_user(Role::User)));
    let user = service.authenticate_user(lookup, input.password).unwrap();
    assert_eq!(user.name, "aaa");
}

#[test]
fn authenticate_rejects_a_wrong_password() {
    let service = LoginService::new(HashManager::new());
    let lookup = Ok((login_for("open sesame"), sample_user(Role::User)));
    match service.authenticate_user(lookup, "wrong".to_string()) {
        Err(ServiceError::InvalidRequest(inner)) => match *inner {
            ServiceError::GeneralError(m) => assert_eq!(m, "invalid password"),
            _ => panic!("the rejection carries the invalid-password message"),
        },
        _ => panic!("a wrong password is an invalid request"),
    }
}

#[test]
fn authenticate_surfaces_lookup_failures() {
    let service = LoginService::new(HashManager::new());
    let failure = QueryFailure { message: "boom".to_string(), connection_lost: false };
    let lookup = Err(ConnectorError::Query(failure));
    match service.authenticate_user(lookup, "pw".to_string()) {
        Err(ServiceError::DBError(ConnectorError::Query(f))) => assert_eq!(f.message, "boom"),
        _ => panic!("a repository failure surfaces as the database error"),
    }
}

#[test]
fn enabling_a_user_stores_a_verifying_hash() {
    let service = LoginService::new(HashManager::new());
    let login = service
        .enable_user_with_password(EnableUserWithPasswordInput {
            user_id: "u9".to_string(),
            password: "pw".to_string(),
        })
        .expect("hashing succeeds");
    assert_eq!(login.user_id, "u9");
    assert_eq!(login.status, LoginUserStatus::Enabled);
    let manager = HashManager::new();
    let hash = accounts::hashing::Hash::from_string(login.password_hash);
    assert!(manager.verify(hash, "pw".to_string()));
}

#[test]
fn bearer_tokens_parse_exactly_one_marker() {
    assert_eq!(parse_bearer_token("Bearer abc").as_deref(), Some("abc"));
    // the marker may sit anywhere in the header, as long as it is unique
    assert_eq!(parse_bearer_token("x Bearer abc").as_deref(), Some("abc"));
    assert_eq!(parse_bearer_token("abc"), None);
    assert_eq!(parse_bearer_token("Bearer a Bearer b"), None);
    assert_eq!(parse_bearer_token(""), None);
    assert_eq!(parse_bearer_token("Bearer ").as_deref(), Some(""));
}

#[test]
fn missing_and_malformed_headers_are_unauthorized() {
    match bearer_token_or_error(None) {
        Err(ServiceError::Unauthorized(m)) => assert_eq!(m, "Empty token"),
        _ => panic!("no header means no token"),
    }
    match bearer_token_or_error(Some("abc".to_string())) {
        Err(ServiceError::Unauthorized(m)) => assert_eq!(m, "Invalid token"),
        _ => panic!("a header without the marker is invalid"),
    }
    assert_eq!(bearer_token_or_error(Some("Bearer tok".to_string())).unwrap(), "tok");
}

#[test]
fn authorization_compares_role_strength() {
    let user = sample_user(Role::PowerUser);
    assert!(authorize_user(user.clone(), Some(Role::PowerUser)).is_ok());
    assert!(authorize_user(user.clone(), Some(Role::User)).is_ok());
    assert!(authorize_user(user.clone(), None).is_ok());
    match authorize_user(user, Some(Role::Admin)) {
        Err(ServiceError::Unauthorized(m)) => assert_eq!(m, "Role is not enough"),
        _ => panic!("a power user may not use an admin route"),
    }
}

#[test]
fn http_status_follows_the_error_class() {
    let bad = ServiceError::InvalidRequest(Box::new(ServiceError::GeneralError(
        "x".to_string(),
    )));
    assert_eq!(bad.http_status(), 400);
    assert_eq!(ServiceError::Unauthorized("x".to_string()).http_status(), 401);
    let internal =
        ServiceError::InternalServerError(Box::new(ServiceError::GeneralError("x".to_string())));
    assert_eq!(internal.http_status(), 500);
    assert_eq!(ServiceError::DBError(ConnectorError::Dispatch).http_status(), 500);
}

#[test]
fn pool_accounts_for_every_lease() {
    let mut pool = ConnectionPool::new(3, 3, "no connection".to_string()).unwrap();
    assert!(pool.acquire());
    assert!(pool.acquire());
    assert!(pool.acquire());
    assert_eq!(pool.leased_count(), 3);
    assert!(!pool.acquire(), "capacity is a hard bound");
    pool.release();
    assert!(pool.acquire());
}

#[test]
fn pool_construction_fails_fast_with_no_connections() {
    match ConnectionPool::new(4, 0, "no connection".to_string()) {
        Err(e) => assert_eq!(e.message, "no connection"),
        Ok(_) => panic!("a pool with no connections cannot be built"),
    }
    let pool = ConnectionPool::new(4, 2, "no connection".to_string()).unwrap();
    assert_eq!(pool.established_count(), 2);
}

#[test]
fn universe_values_expose_their_own_kind_only() {
    assert_eq!(Universe::VStr("aaa".to_string()).as_str().as_deref(), Some("aaa"));
    assert_eq!(Universe::VI32(10).as_str(), None);
    assert_eq!(Universe::VI32(10).as_i32(), Some(10));
    assert_eq!(Universe::VBool(true).as_i32(), None);
    assert_eq!(Universe::VBool(true).as_bool(), Some(true));
    assert_eq!(Universe::VStr("aaa".to_string()).as_bool(), None);
}
