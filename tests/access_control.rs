use server::access::{
    account_change_target, account_type_change, authorize_operation, authorize_read, can_perform,
    check_login,
    deletion_message, issue_credential, last_match, prepare_insert, prepare_update,
    user_id_from_path, Operation,
};
use server::errors::ServiceError;
use server::hasher::{hash_password, verify_hash, HashParams};
use server::middleware::{Auth, AuthConfig, Codec, Decision, RequestHead};
use server::models::{Credential, SlimUser, UserChange, UserData, UserInsert};
use server::number::parse_i64;
use server::session::parse_session;
use server::token::{create_jwt, decode_jwt};

const NOW: u64 = 1_700_000_000;

fn params() -> HashParams {
    HashParams { secret_key: "sct07".repeat(8).into_bytes(), salt: b"supersecretsalt".to_vec() }
}

fn config(codec: Codec) -> AuthConfig {
    AuthConfig { hash: params(), lifetime_secs: 60 * 86400, codec }
}

fn user(email: &str, clearance: bool) -> SlimUser {
    SlimUser { email: email.to_owned(), clearance }
}

#[test]
fn privilege_guard() {
    let plain = user("a@x.com", false);
    let admin = user("root@x.com", true);
    assert!(!can_perform(&plain, &Operation::Privileged));
    assert!(can_perform(&admin, &Operation::Privileged));
    assert!(can_perform(&plain, &Operation::SelfService("a@x.com".to_owned())));
    assert!(!can_perform(&plain, &Operation::SelfService("b@x.com".to_owned())));
    assert!(!can_perform(&admin, &Operation::SelfService("a@x.com".to_owned())));
    assert_eq!(
        authorize_operation(&plain, &Operation::Privileged),
        Err(ServiceError::Forbidden("only admins can access this route".to_owned()))
    );
    assert_eq!(authorize_operation(&admin, &Operation::Privileged), Ok(()));
    assert_eq!(
        authorize_operation(&admin, &Operation::SelfService("a@x.com".to_owned())),
        Err(ServiceError::Unauthorized)
    );
}

#[test]
fn login_then_privileged_request() {
    let p = params();
    let stored = Credential {
        email: "a@x.com".to_owned(),
        password_hash: hash_password("secret1", &p).unwrap(),
        clearance: false,
    };
    let identity = check_login(Some(stored.clone()), "secret1", &p).unwrap();
    let token = create_jwt(&identity, NOW, 60 * 86400, &p.secret_key).unwrap();
    let claims = decode_jwt(&token, NOW, &p.secret_key).unwrap();
    assert_eq!(claims.email, "a@x.com");
    assert!(!claims.clearance);

    let auth = Auth::new(config(Codec::SignedClaims));
    let req = RequestHead {
        path: "/users".to_owned(),
        method: "GET".to_owned(),
        authorization: Some(format!("Bearer {}", token)),
        session: None,
    };
    let attached = match auth.decide(&req, NOW) {
        Decision::Attach(u) => u,
        other => panic!("unexpected {:?}", other),
    };
    assert_eq!(attached, user("a@x.com", false));
    let denied = authorize_operation(&attached, &Operation::Privileged).unwrap_err();
    assert_eq!(denied.status_code(), 403);
    assert_eq!(denied.message(), "only admins can access this route");

    let admin_token = create_jwt(&user("a@x.com", true), NOW, 60 * 86400, &p.secret_key).unwrap();
    let req = RequestHead { authorization: Some(format!("Bearer {}", admin_token)), ..req };
    let attached = match auth.decide(&req, NOW) {
        Decision::Attach(u) => u,
        other => panic!("unexpected {:?}", other),
    };
    assert_eq!(authorize_operation(&attached, &Operation::Privileged), Ok(()));
}

#[test]
fn login_failures() {
    let p = params();
    let stored = Credential {
        email: "a@x.com".to_owned(),
        password_hash: hash_password("secret1", &p).unwrap(),
        clearance: true,
    };
    assert_eq!(check_login(None, "secret1", &p), Err(ServiceError::Unauthorized));
    assert_eq!(check_login(Some(stored.clone()), "secret2", &p), Err(ServiceError::Unauthorized));
    let broken = Credential { password_hash: "plain".to_owned(), ..stored.clone() };
    assert_eq!(check_login(Some(broken), "plain", &p), Err(ServiceError::InternalServerError));
    assert_eq!(check_login(Some(stored), "secret1", &p), Ok(user("a@x.com", true)));
}

#[test]
fn issue_credential_follows_the_codec() {
    let u = user("a@x.com", false);
    let blob = issue_credential(&u, &config(Codec::OpaqueSession)).unwrap();
    assert_eq!(blob, "0:a@x.com");
    assert_eq!(parse_session(&blob), Some(u.clone()));
    let token = issue_credential(&u, &config(Codec::SignedClaims)).unwrap();
    let claims = decode_jwt(&token, unix_now(), &params().secret_key).unwrap();
    assert_eq!(claims.email, "a@x.com");
    assert!(!claims.clearance);
}

#[test]
fn registration_hashes_the_password() {
    let p = params();
    let data = UserData {
        name: "test".to_owned(),
        email: "test@some_user.com".to_owned(),
        password: "test_password123".to_owned(),
    };
    let insert = prepare_insert(data, &p).unwrap();
    assert_eq!(insert.name, "test");
    assert_eq!(insert.email, "test@some_user.com");
    assert_ne!(insert.password, "test_password123");
    assert_eq!(verify_hash(&insert.password, "test_password123", &p), Ok(true));
    let bad = HashParams { secret_key: p.secret_key.clone(), salt: b"tiny".to_vec() };
    let data = UserData { name: "n".to_owned(), email: "e".to_owned(), password: "p".to_owned() };
    assert_eq!(prepare_insert(data, &bad), Err(ServiceError::InternalServerError));
}

#[test]
fn from_details_copies_the_fields() {
    let u = UserInsert::from_details("test", "test@some_user.com", "test_password123");
    assert_eq!(
        u,
        UserInsert {
            name: "test".to_owned(),
            email: "test@some_user.com".to_owned(),
            password: "test_password123".to_owned()
        }
    );
}

#[test]
fn update_hashes_only_a_new_password() {
    let p = params();
    let keep = UserChange { name: Some("n".to_owned()), email: None, password: None };
    assert_eq!(prepare_update(keep.clone(), &p), Ok(keep));
    let change = UserChange { name: None, email: Some("b@x.com".to_owned()), password: Some("pw".to_owned()) };
    let out = prepare_update(change, &p).unwrap();
    assert_eq!(out.name, None);
    assert_eq!(out.email, Some("b@x.com".to_owned()));
    let hashed = out.password.unwrap();
    assert_ne!(hashed, "pw");
    assert_eq!(verify_hash(&hashed, "pw", &p), Ok(true));
}

#[test]
fn account_type_toggles() {
    assert_eq!(
        account_type_change(true),
        (false, "change account type from admin to normal user".to_owned())
    );
    assert_eq!(
        account_type_change(false),
        (true, "change account type from normal user to admin".to_owned())
    );
}

#[test]
fn deletion_messages() {
    assert_eq!(deletion_message(1), "account deleted successfully");
    assert_eq!(deletion_message(3), "account deleted successfully");
    assert_eq!(deletion_message(0), "could not delete account");
}

#[test]
fn last_match_picks_the_last_row() {
    assert_eq!(last_match(vec![1, 2, 3]), Ok(3));
    assert_eq!(last_match::<u8>(vec![]), Err(ServiceError::NotFound));
}

#[test]
fn ids_from_paths() {
    assert_eq!(user_id_from_path("42"), Ok(42));
    assert_eq!(user_id_from_path("-7"), Ok(-7));
    assert_eq!(user_id_from_path("4x"), Err(ServiceError::BadRequest("invalid id".to_owned())));
    let admin = user("root@x.com", true);
    assert_eq!(account_change_target(&admin, "+15"), Ok(15));
    assert_eq!(
        account_change_target(&admin, ""),
        Err(ServiceError::BadRequest("invalid user id".to_owned()))
    );
    assert_eq!(
        account_change_target(&user("a@x.com", false), "15"),
        Err(ServiceError::Forbidden("only admins can access this route".to_owned()))
    );
}

#[test]
fn decimal_parsing_matches_std() {
    for s in [
        "0", "7", "-0", "+0", "123456", "-123456", "9223372036854775807", "-9223372036854775808",
        "9223372036854775808", "-9223372036854775809", "99999999999999999999999", "", "+", "-",
        "1 ", " 1", "1_000", "0x10", "--1", "+-1", "007", "١",
    ] {
        assert_eq!(parse_i64(s), s.parse::<i64>().ok(), "{:?}", s);
    }
}

fn unix_now() -> u64 {
    std::time::SystemTime::now().duration_since(std::time::UNIX_EPOCH).unwrap().as_secs()
}

#[test]
fn reads_of_other_accounts_need_privilege() {
    let plain = user("a@x.com", false);
    let admin = user("root@x.com", true);
    assert_eq!(authorize_read(&plain, "a@x.com"), Ok(()));
    assert_eq!(
        authorize_read(&plain, "b@x.com"),
        Err(ServiceError::Forbidden("only admins can access this route".to_owned()))
    );
    assert_eq!(authorize_read(&admin, "a@x.com"), Ok(()));
    assert_eq!(authorize_read(&admin, "root@x.com"), Ok(()));
}
