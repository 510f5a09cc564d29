use mlum_inner::errors::{CONFLICT, NOT_FOUND, UNAUTHORIZED};
use mlum_inner::models::{CertificateUser, CreateUser, Gender};
use mlum_inner::services::{
    serv_user_delete, serv_user_login, serv_user_logout, serv_user_profile, serv_user_register,
    serv_user_token_verify, serv_user_update, serv_user_verify, UserStore, LATEST_LOGIN_TIME,
};

fn credentials(username: &str, password: &str) -> CreateUser {
    CreateUser {
        username: username.into(),
        password: password.into(),
        phone: Some("".into()),
        email: Some("".into()),
    }
}

fn certificate(username: &str, token: &str) -> CertificateUser {
    CertificateUser { username: username.into(), token: token.into() }
}

fn store_with_dessera() -> UserStore {
    let mut store = UserStore::new();
    serv_user_register(&mut store, credentials("dessera", "123456")).unwrap();
    store
}

const T1: &str = "aaaaaaaaaaaaaaaaaaaaaaaaaaaaaaaa";
const T2: &str = "bbbbbbbbbbbbbbbbbbbbbbbbbbbbbbbb";

#[test]
fn test_user_register() {
    let mut store = UserStore::new();
    let result = serv_user_register(&mut store, credentials("dessera", "123456"));
    assert!(result.is_ok());
}

#[test]
fn test_user_login() {
    let mut store = store_with_dessera();
    let result = serv_user_login(&mut store, credentials("dessera", "123456"));
    assert!(result.is_ok());
}

#[test]
fn test_user_login_fail() {
    let mut store = UserStore::new();
    let result = serv_user_login(&mut store, credentials("dessera", "123456"));
    assert!(!result.is_ok());
}

#[test]
fn test_user_logout() {
    let mut store = store_with_dessera();
    let result = serv_user_login(&mut store, credentials("dessera", "123456"));
    assert!(result.is_ok());
    let token = result.unwrap();
    let result = serv_user_logout(&mut store, token);
    assert!(result.is_ok());
}

#[test]
fn test_user_profile() {
    let store = store_with_dessera();
    let result = serv_user_profile(&store, "dessera".into());
    assert!(result.is_ok());
}

#[test]
fn test_user_update() {
    let mut store = store_with_dessera();
    let result = serv_user_login(&mut store, credentials("dessera", "123456"));
    assert!(result.is_ok());
    let token = result.unwrap();
    let result = serv_user_profile(&store, "dessera".into());
    assert!(result.is_ok());
    let mut user = result.unwrap();
    user.token = token;
    user.password = String::from("123456");
    user.description = String::from("C++ programmer");
    let result = serv_user_update(&mut store, user);
    assert!(result.is_ok());
    let updated = serv_user_profile(&store, "dessera".into()).unwrap();
    assert_eq!(updated.description, "C++ programmer");
}

#[test]
fn test_user_delete() {
    let mut store = store_with_dessera();
    let result = serv_user_login(&mut store, credentials("dessera", "123456"));
    assert!(result.is_ok());
    let token = result.unwrap();
    let result = serv_user_delete(&mut store, certificate("dessera", &token));
    assert!(result.is_ok());
}

#[test]
fn test_user_certificate() {
    let mut store = store_with_dessera();
    let result = serv_user_login(&mut store, credentials("dessera", "123456"));
    assert!(result.is_ok());
    let token = result.unwrap();
    let result = serv_user_verify(&mut store, certificate("dessera", &token));
    assert!(result.is_ok());
}

#[test]
fn register_token_authenticates_at_once() {
    let mut store = UserStore::new();
    let token = serv_user_register(&mut store, credentials("bob", "pw")).unwrap();
    assert_eq!(token.len(), 32);
    assert!(serv_user_verify(&mut store, certificate("bob", &token)).is_ok());
    let live = serv_user_token_verify(&mut store, "bob".into()).unwrap();
    assert_eq!(live.token, token);
    let mut info = serv_user_profile(&store, "bob".into()).unwrap();
    info.token = token.clone();
    info.password = "pw".into();
    assert!(serv_user_update(&mut store, info).is_ok());
    assert!(serv_user_logout(&mut store, token).is_ok());
}

#[test]
fn register_taken_name_is_conflict() {
    let mut store = store_with_dessera();
    let e = serv_user_register(&mut store, credentials("dessera", "other")).unwrap_err();
    assert_eq!(e.status_code(), CONFLICT);
    assert_eq!(e.message.error_message, "Username already exists!");
    assert_eq!(store.len(), 1);
}

#[test]
fn login_sets_token_and_expiry() {
    let mut store = UserStore::new();
    store.register(credentials("alice", "pw1"), [1; 12], T1.into(), 100).unwrap();
    let t = store.login(&credentials("alice", "pw1"), T2.into(), 500).unwrap();
    assert_eq!(t, T2);
    let live = store.token_verify(&"alice".to_string(), 500).unwrap();
    assert_eq!(live.token, T2);
    assert_eq!(live.valid_token_time, 4100);
    assert!(live.valid_token_time > 500);
}

#[test]
fn login_failures_look_alike() {
    let mut store = UserStore::new();
    store.register(credentials("alice", "pw1"), [1; 12], T1.into(), 100).unwrap();
    store.register(credentials("carol", "pw3"), [3; 12], T2.into(), 100).unwrap();
    store.delete(&certificate("carol", T2)).unwrap();
    let wrong = store.login(&credentials("alice", "nope"), T2.into(), 200).unwrap_err();
    let deleted = store.login(&credentials("carol", "pw3"), T2.into(), 200).unwrap_err();
    let missing = store.login(&credentials("nobody", "pw1"), T2.into(), 200).unwrap_err();
    for e in [&wrong, &deleted, &missing] {
        assert_eq!(e.status_code(), UNAUTHORIZED);
        assert_eq!(e.message.error_message, "Username or password error!");
    }
}

#[test]
fn scenario_login_then_logout_twice() {
    let mut store = UserStore::new();
    let t1 = store.register(credentials("alice", "pw1"), [1; 12], T1.into(), 100).unwrap();
    assert_eq!(t1.len(), 32);
    let t2 = store.login(&credentials("alice", "pw1"), T2.into(), 200).unwrap();
    assert_eq!(t2, T2);
    assert_eq!(store.token_verify(&"alice".to_string(), 200).unwrap().valid_token_time, 3800);
    assert!(store.logout(&t2).is_ok());
    let e = store.logout(&t2).unwrap_err();
    assert_eq!(e.status_code(), UNAUTHORIZED);
    assert_eq!(e.message.error_message, "Token expired!");
}

#[test]
fn scenario_profile_after_registration() {
    let mut store = UserStore::new();
    store.register(credentials("alice", "pw1"), [1; 12], T1.into(), 100).unwrap();
    let p = store.profile(&"alice".to_string()).unwrap();
    assert_eq!(p.username, "alice");
    assert_eq!(p.password, "");
    assert_eq!(p.token, "");
    assert_eq!(p.gender, Gender::Other);
    assert_eq!(p.description, "");
    assert_eq!(p.register_time, 100);
    assert!(!p.is_deprecated);
    store.login(&credentials("alice", "pw1"), T2.into(), 200).unwrap();
    let p = store.profile(&"alice".to_string()).unwrap();
    assert_eq!(p.password, "");
    assert_eq!(p.token, "");
}

#[test]
fn scenario_delete_with_stale_then_current_token() {
    let mut store = UserStore::new();
    store.register(credentials("alice", "pw1"), [1; 12], T1.into(), 100).unwrap();
    store.login(&credentials("alice", "pw1"), T2.into(), 200).unwrap();
    let e = store.delete(&certificate("alice", T1)).unwrap_err();
    assert_eq!(e.status_code(), UNAUTHORIZED);
    assert_eq!(e.message.error_message, "Username or token error!");
    assert!(store.delete(&certificate("alice", T2)).is_ok());
    let e = store.login(&credentials("alice", "pw1"), T1.into(), 300).unwrap_err();
    assert_eq!(e.status_code(), UNAUTHORIZED);
    assert!(store.profile(&"alice".to_string()).unwrap().is_deprecated);
}

#[test]
fn deleted_account_fails_verify_and_update() {
    let mut store = UserStore::new();
    store.register(credentials("alice", "pw1"), [1; 12], T1.into(), 100).unwrap();
    let mut info = store.profile(&"alice".to_string()).unwrap();
    store.delete(&certificate("alice", T1)).unwrap();
    let e = store.verify(&certificate("alice", T1), 150).unwrap_err();
    assert_eq!(e.status_code(), UNAUTHORIZED);
    info.token = T1.into();
    let e = store.update(info, 150).unwrap_err();
    assert_eq!(e.status_code(), UNAUTHORIZED);
}

#[test]
fn update_with_wrong_token_is_unauthorized() {
    let mut store = UserStore::new();
    store.register(credentials("alice", "pw1"), [1; 12], T1.into(), 100).unwrap();
    let mut info = store.profile(&"alice".to_string()).unwrap();
    info.token = T2.into();
    info.description = "changed".into();
    let e = store.update(info, 150).unwrap_err();
    assert_eq!(e.status_code(), UNAUTHORIZED);
    assert_eq!(e.message.error_message, "Token error!");
    assert_eq!(store.profile(&"alice".to_string()).unwrap().description, "");
}

#[test]
fn update_keeps_identity_and_session() {
    let mut store = UserStore::new();
    store.register(credentials("alice", "pw1"), [1; 12], T1.into(), 100).unwrap();
    let mut info = store.profile(&"alice".to_string()).unwrap();
    info.token = T1.into();
    info.password = "pw2".into();
    info.school = "MIT".into();
    info.register_time = 7;
    info.is_deprecated = true;
    let shown = store.update(info, 150).unwrap();
    assert_eq!(shown.school, "MIT");
    assert_eq!(shown.password, "");
    assert_eq!(shown.token, "");
    assert_eq!(shown.register_time, 100);
    assert!(!shown.is_deprecated);
    assert!(store.verify(&certificate("alice", T1), 150).is_ok());
    assert!(store.login(&credentials("alice", "pw2"), T2.into(), 160).is_ok());
}

#[test]
fn expired_token_is_cleared() {
    let mut store = UserStore::new();
    store.register(credentials("alice", "pw1"), [1; 12], T1.into(), 100).unwrap();
    assert!(store.verify(&certificate("alice", T1), 3700).is_ok());
    let e = store.verify(&certificate("alice", T1), 3701).unwrap_err();
    assert_eq!(e.message.error_message, "Token expired!");
    let e = store.verify(&certificate("alice", T1), 3701).unwrap_err();
    assert_eq!(e.status_code(), UNAUTHORIZED);
    assert_eq!(e.message.error_message, "You need to login first!");
}

#[test]
fn verify_with_other_token_is_token_error() {
    let mut store = UserStore::new();
    store.register(credentials("alice", "pw1"), [1; 12], T1.into(), 100).unwrap();
    let e = store.verify(&certificate("alice", T2), 100).unwrap_err();
    assert_eq!(e.status_code(), UNAUTHORIZED);
    assert_eq!(e.message.error_message, "Token error!");
}

#[test]
fn logout_with_empty_token_fails() {
    let mut store = UserStore::new();
    store.register(credentials("alice", "pw1"), [1; 12], T1.into(), 100).unwrap();
    store.logout(&T1.to_string()).unwrap();
    let e = store.logout(&String::new()).unwrap_err();
    assert_eq!(e.status_code(), UNAUTHORIZED);
}

#[test]
fn profile_of_unknown_user_is_not_found() {
    let store = UserStore::new();
    let e = store.profile(&"ghost".to_string()).unwrap_err();
    assert_eq!(e.status_code(), NOT_FOUND);
    assert_eq!(e.message.error_message, "User not found!");
}

#[test]
fn verify_unknown_user_is_unauthorized() {
    let mut store = UserStore::new();
    let e = store.verify(&certificate("ghost", T1), 0).unwrap_err();
    assert_eq!(e.status_code(), UNAUTHORIZED);
    assert_eq!(e.message.error_message, "You need to login first!");
}

#[test]
fn login_at_latest_time_fits() {
    let mut store = UserStore::new();
    store.register(credentials("alice", "pw1"), [1; 12], T1.into(), LATEST_LOGIN_TIME).unwrap();
    let live = store.token_verify(&"alice".to_string(), LATEST_LOGIN_TIME).unwrap();
    assert_eq!(live.valid_token_time, i64::MAX);
}

#[test]
fn login_unknown_user_changes_nothing() {
    let mut store = store_with_dessera();
    let e = serv_user_login(&mut store, credentials("nobody", "123456")).unwrap_err();
    assert_eq!(e.status_code(), UNAUTHORIZED);
    assert_eq!(e.message.error_message, "Username or password error!");
    assert_eq!(store.len(), 1);
    let p = serv_user_profile(&store, "dessera".into()).unwrap();
    assert_eq!(p.username, "dessera");
}

#[test]
fn register_stores_the_returned_token() {
    let mut store = UserStore::new();
    let token = serv_user_register(&mut store, credentials("erin", "pw")).unwrap();
    let live = serv_user_token_verify(&mut store, "erin".into()).unwrap();
    assert_eq!(live.token, token);
    assert_eq!(live.password, "pw");
    assert!(live.valid_token_time > live.register_time);
    assert!(!live.is_deprecated);
}
