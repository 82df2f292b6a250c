//! Requests of administrators, step by step.

use screenguard::api::auth;
use screenguard::api::auth::{AuthRequest, LoginResponse, PatchMeBody, SetupBody};
use screenguard::api::reply::{
    internal, not_found, Account, Asked, Body, Change, Progress, Reply, Scalar, Step,
};
use screenguard::api::routes::{needs_token, router, Endpoint, Method};
use screenguard::api::secrets::{hash_password, sign_claims, verify_password, Claims, SecretError};
use screenguard::api::users;
use screenguard::api::users::{CreateUserBody, ResetPasswordBody};
use screenguard::db::write::Write;

const ID: u128 = 0x1234_5678_9abc_4def_8123_4567_89ab_cdef;
const ID_TEXT: &str = "12345678-9abc-4def-8123-456789abcdef";
const SECRET: &str = "a secret for tests";

fn account(is_owner: bool) -> Account {
    Account {
        id: ID,
        username: "ada".to_string(),
        password_hash: "none".to_string(),
        created_at: 17,
        timezone: "UTC".to_string(),
        is_owner,
    }
}

fn claims(sub: &str) -> Claims {
    Claims { sub: sub.to_string(), exp: 4_000_000_000, tenant_id: "default".to_string() }
}

fn owner() -> Progress {
    let mut p = Progress::new();
    p.caller = Asked::Got(Some(account(true)));
    p
}

fn answer(step: Step) -> Reply {
    match step {
        Step::Answer(r) => r,
        _ => panic!("no answer"),
    }
}

fn text<'a>(r: &'a Reply, name: &str) -> &'a str {
    match &r.body {
        Body::Object(members) => {
            match &members.iter().find(|m| m.name == name).expect("no such member").value {
                Scalar::Text(s) => s,
                _ => panic!("no text"),
            }
        }
        _ => panic!("no object"),
    }
}

fn flag(r: &Reply, name: &str) -> bool {
    match &r.body {
        Body::Object(members) => {
            match members.iter().find(|m| m.name == name).expect("no such member").value {
                Scalar::Flag(b) => b,
                _ => panic!("no flag"),
            }
        }
        _ => panic!("no object"),
    }
}

fn fails(step: Step, status: u16, error: &str) {
    let r = answer(step);
    assert_eq!(r.status, status);
    assert_eq!(text(&r, "error"), error);
}

#[test]
fn passwords_are_hashed_and_checked() {
    let hash = hash_password("correct horse").unwrap();
    assert!(hash.starts_with("$argon2id$"));
    assert_ne!(hash, hash_password("correct horse").unwrap());
    assert_eq!(verify_password("correct horse", &hash), Ok(true));
    assert_eq!(verify_password("wrong horse", &hash), Ok(false));
    assert_eq!(verify_password("correct horse", "plain"), Err(SecretError::BadHash));
}

#[test]
fn tokens_say_what_they_were_made_to_say() {
    let token = sign_claims(&claims("someone \"quoted\""), SECRET).unwrap();
    let header = format!("Bearer {token}");
    let read = auth::require_auth(Some(&header), SECRET).ok().unwrap();
    assert_eq!(read.sub, "someone \"quoted\"");
    assert_eq!(read.exp, 4_000_000_000);
    assert_eq!(read.tenant_id, "default");
    let refused = auth::require_auth(Some(&header), "another secret").err().unwrap();
    assert_eq!((refused.status, text(&refused, "error")), (401, "Invalid token"));
    let mut old = claims(ID_TEXT);
    old.exp = 1000;
    let header = format!("Bearer {}", sign_claims(&old, SECRET).unwrap());
    assert!(auth::require_auth(Some(&header), SECRET).is_err());
}

#[test]
fn requests_without_a_token_are_refused() {
    for header in [None, Some("Basic abc"), Some("bearer abc"), Some("")] {
        let r = auth::require_auth(header, SECRET).err().unwrap();
        assert_eq!((r.status, text(&r, "error")), (401, "Missing token"));
    }
    let r = auth::require_auth(Some("Bearer nonsense"), SECRET).err().unwrap();
    assert_eq!(text(&r, "error"), "Invalid token");
    assert!(auth::let_pass(None).is_err());
    assert_eq!(auth::let_pass(Some(claims("x"))).ok().unwrap().sub, "x");
}

#[test]
fn the_version_and_the_status_are_told() {
    let r = auth::version("0.9.1");
    assert_eq!((r.status, text(&r, "version")), (200, "0.9.1"));
    assert!(flag(&auth::status(Some(0)), "setup_needed"));
    assert!(!flag(&auth::status(Some(2)), "setup_needed"));
    assert_eq!(auth::status(None).status, 500);
    assert_eq!(text(&internal(), "error"), "Internal server error");
    assert_eq!((not_found().status, text(&not_found(), "error").len()), (404, 9));
}

fn setup_body(username: &str, password: &str, zone: Option<&str>) -> SetupBody {
    SetupBody {
        username: username.to_string(),
        password: password.to_string(),
        timezone: zone.map(|z| z.to_string()),
    }
}

#[test]
fn the_first_account_is_made_once() {
    let body = setup_body("ada", "pw", Some("Europe/Warsaw"));
    let mut p = Progress::new();
    assert!(matches!(auth::setup(&body, &p), Step::AskCount));
    p.count = Asked::Failed;
    fails(auth::setup(&body, &p), 500, "Internal server error");
    p.count = Asked::Got(1);
    fails(auth::setup(&body, &p), 409, "Admin account already exists");
    p.count = Asked::Got(0);
    let empty = "Username and password are required";
    fails(auth::setup(&setup_body("", "pw", None), &p), 400, empty);
    fails(auth::setup(&setup_body("ada", "", None), &p), 400, empty);
    match auth::setup(&body, &p) {
        Step::Store(Change::Create { id, account, is_owner, timezone }) => {
            assert!(is_owner);
            match account {
                Write::InsertAdmin { id: i, username, password_hash, .. } => {
                    assert_eq!(i, id);
                    assert_eq!(username, "ada");
                    assert_eq!(verify_password("pw", &password_hash), Ok(true));
                }
                _ => panic!("no account"),
            }
            match timezone {
                Some(Write::SetAdminTimezone { id: i, timezone }) => {
                    assert_eq!((i, timezone.as_str()), (id, "Europe/Warsaw"));
                }
                _ => panic!("no time zone"),
            }
        }
        _ => panic!("nothing stored"),
    }
    let odd = setup_body("ada", "pw", Some("Mars/Olympus"));
    assert!(matches!(
        auth::setup(&odd, &p),
        Step::Store(Change::Create { timezone: None, .. })
    ));
    p.stored = Asked::Failed;
    fails(auth::setup(&body, &p), 500, "Internal server error");
    p.stored = Asked::Got(ID);
    let r = answer(auth::setup(&body, &p));
    assert_eq!((r.status, text(&r, "message")), (201, "Admin account created"));
}

fn login_body(password: &str) -> AuthRequest {
    AuthRequest { username: "ada".to_string(), password: password.to_string() }
}

#[test]
fn signing_in_hands_out_a_token() {
    let mut p = Progress::new();
    let body = login_body("pw");
    assert!(matches!(auth::login(&body, &p, SECRET, 24), Step::AskName(n) if n == "ada"));
    p.namesake = Asked::Failed;
    fails(auth::login(&body, &p, SECRET, 24), 500, "Internal server error");
    p.namesake = Asked::Got(None);
    fails(auth::login(&body, &p, SECRET, 24), 401, "Invalid credentials");
    p.namesake = Asked::Got(Some(account(false)));
    fails(auth::login(&body, &p, SECRET, 24), 500, "Internal server error");
    let mut a = account(false);
    a.password_hash = hash_password("pw").unwrap();
    p.namesake = Asked::Got(Some(a));
    fails(auth::login(&login_body("other"), &p, SECRET, 24), 401, "Invalid credentials");
    let r = answer(auth::login(&body, &p, SECRET, 24));
    assert_eq!(r.status, 200);
    let header = format!("Bearer {}", text(&r, "token"));
    let read = auth::require_auth(Some(&header), SECRET).ok().unwrap();
    assert_eq!(read.sub, ID_TEXT);
    assert_eq!(read.tenant_id, "default");
    assert!(text(&r, "expires_at").ends_with("+00:00"));
    assert!(matches!(auth::get_me(&read, &Progress::new()), Step::AskCaller(ID)));
}

#[test]
fn tokens_expire_after_their_hours() {
    let granted: LoginResponse = auth::issue_token(&account(true), 1_700_000_000, 24, SECRET);
    assert_eq!(granted.expires_at, "2023-11-15T22:13:20+00:00");
    let r = auth::login_reply(&granted);
    assert_eq!(text(&r, "expires_at"), granted.expires_at);
    assert_eq!(text(&r, "token"), granted.token);
}

#[test]
fn one_can_read_and_change_ones_own_account() {
    let mut p = Progress::new();
    fails(auth::get_me(&claims("nobody"), &p), 401, "Invalid token");
    let me = claims(ID_TEXT);
    assert!(matches!(auth::get_me(&me, &p), Step::AskCaller(ID)));
    p.caller = Asked::Failed;
    fails(auth::get_me(&me, &p), 500, "Internal server error");
    p.caller = Asked::Got(None);
    fails(auth::get_me(&me, &p), 404, "Not found");
    p.caller = Asked::Got(Some(account(true)));
    let r = answer(auth::get_me(&me, &p));
    assert_eq!(r.status, 200);
    assert_eq!(text(&r, "id"), ID_TEXT);
    assert_eq!(text(&r, "username"), "ada");
    assert_eq!(text(&r, "timezone"), "UTC");
    assert!(flag(&r, "is_owner"));

    let zone = |z: Option<&str>| PatchMeBody { timezone: z.map(|z| z.to_string()) };
    fails(auth::patch_me(&claims("nobody"), &zone(None), &p), 401, "Invalid token");
    let r = answer(auth::patch_me(&me, &zone(None), &p));
    assert_eq!((r.status, text(&r, "message")), (200, "Profile updated"));
    fails(auth::patch_me(&me, &zone(Some("Mars/Olympus")), &p), 422, "Invalid timezone");
    let tokyo = zone(Some("Asia/Tokyo"));
    match auth::patch_me(&me, &tokyo, &p) {
        Step::Store(Change::SetTimezone {
            id: ID,
            write: Write::SetAdminTimezone { id: ID, timezone },
        }) => assert_eq!(timezone, "Asia/Tokyo"),
        _ => panic!("nothing stored"),
    }
    p.stored = Asked::Failed;
    fails(auth::patch_me(&me, &tokyo, &p), 500, "Internal server error");
    p.stored = Asked::Got(ID);
    assert_eq!(answer(auth::patch_me(&me, &tokyo, &p)).status, 200);
}

#[test]
fn only_owners_manage_accounts() {
    let me = claims(ID_TEXT);
    let new_user = CreateUserBody { username: "bob".to_string(), password: "pw".to_string() };
    let new_password = ResetPasswordBody { password: "pw".to_string() };
    let all = |c: &Claims, p: &Progress| {
        vec![
            users::list_users(c, p),
            users::create_user(c, &new_user, p),
            users::delete_user(c, 5, p),
            users::reset_password(c, 5, &new_password, p),
        ]
    };
    let mut p = Progress::new();
    for step in all(&claims("nobody"), &p) {
        fails(step, 401, "Invalid token");
    }
    for step in all(&me, &p) {
        assert!(matches!(step, Step::AskCaller(ID)));
    }
    p.caller = Asked::Failed;
    for step in all(&me, &p) {
        fails(step, 500, "Internal server error");
    }
    p.caller = Asked::Got(None);
    for step in all(&me, &p) {
        fails(step, 404, "Not found");
    }
    p.caller = Asked::Got(Some(account(false)));
    for step in all(&me, &p) {
        fails(step, 403, "Owner privileges required");
    }
    p.caller = Asked::Got(Some(account(true)));
    assert!(users::require_owner(&me, &p.caller).is_none());
}

#[test]
fn accounts_are_listed() {
    let me = claims(ID_TEXT);
    let mut p = owner();
    assert!(matches!(users::list_users(&me, &p), Step::AskAccounts));
    p.accounts = Asked::Failed;
    fails(users::list_users(&me, &p), 500, "Internal server error");
    p.accounts = Asked::Got(vec![account(true), account(false)]);
    let r = answer(users::list_users(&me, &p));
    match &r.body {
        Body::Listing("users", list) => {
            assert_eq!(list.len(), 2);
            let names: Vec<&str> = list[1].iter().map(|m| m.name).collect();
            assert_eq!(names, vec!["id", "username", "is_owner", "created_at"]);
            assert!(matches!(list[1][2].value, Scalar::Flag(false)));
            assert!(matches!(list[1][3].value, Scalar::Number(17)));
        }
        _ => panic!("no list"),
    }
}

#[test]
fn accounts_are_made_by_owners() {
    let me = claims(ID_TEXT);
    let body = |n: &str, w: &str| CreateUserBody { username: n.to_string(), password: w.to_string() };
    let mut p = owner();
    let empty = "Username and password are required";
    fails(users::create_user(&me, &body(" \t", "pw"), &p), 400, empty);
    fails(users::create_user(&me, &body("bob", ""), &p), 400, empty);
    let bob = body("bob", "pw");
    assert!(matches!(users::create_user(&me, &bob, &p), Step::AskName(n) if n == "bob"));
    p.namesake = Asked::Failed;
    fails(users::create_user(&me, &bob, &p), 500, "Internal server error");
    p.namesake = Asked::Got(Some(account(false)));
    fails(users::create_user(&me, &bob, &p), 409, "Username already exists");
    p.namesake = Asked::Got(None);
    assert!(matches!(
        users::create_user(&me, &bob, &p),
        Step::Store(Change::Create { is_owner: false, timezone: None, .. })
    ));
    p.stored = Asked::Failed;
    fails(users::create_user(&me, &bob, &p), 500, "Internal server error");
    p.stored = Asked::Got(ID);
    let r = answer(users::create_user(&me, &bob, &p));
    assert_eq!(r.status, 201);
    assert_eq!(text(&r, "id"), ID_TEXT);
    assert_eq!(text(&r, "username"), "bob");
    assert!(!flag(&r, "is_owner"));
}

#[test]
fn accounts_are_deleted_but_for_the_last() {
    let me = claims(ID_TEXT);
    let mut p = owner();
    assert!(matches!(users::delete_user(&me, 5, &p), Step::AskAccount(5)));
    p.account = Asked::Failed;
    fails(users::delete_user(&me, 5, &p), 500, "Internal server error");
    p.account = Asked::Got(None);
    fails(users::delete_user(&me, 5, &p), 404, "Not found");
    p.account = Asked::Got(Some(account(false)));
    assert!(matches!(users::delete_user(&me, 5, &p), Step::AskCount));
    p.count = Asked::Failed;
    fails(users::delete_user(&me, 5, &p), 500, "Internal server error");
    p.count = Asked::Got(1);
    fails(
        users::delete_user(&me, 5, &p),
        409,
        "Cannot delete the last remaining admin account",
    );
    p.count = Asked::Got(2);
    assert!(matches!(users::delete_user(&me, 5, &p), Step::Store(Change::Delete { id: 5 })));
    p.stored = Asked::Failed;
    fails(users::delete_user(&me, 5, &p), 500, "Internal server error");
    p.stored = Asked::Got(5);
    assert_eq!(text(&answer(users::delete_user(&me, 5, &p)), "message"), "User deleted");
}

#[test]
fn passwords_are_reset() {
    let me = claims(ID_TEXT);
    let body = |w: &str| ResetPasswordBody { password: w.to_string() };
    let mut p = owner();
    fails(users::reset_password(&me, 5, &body(""), &p), 400, "Password is required");
    assert!(matches!(users::reset_password(&me, 5, &body("new"), &p), Step::AskAccount(5)));
    p.account = Asked::Failed;
    fails(users::reset_password(&me, 5, &body("new"), &p), 500, "Internal server error");
    p.account = Asked::Got(None);
    fails(users::reset_password(&me, 5, &body("new"), &p), 404, "Not found");
    p.account = Asked::Got(Some(account(false)));
    match users::reset_password(&me, 5, &body("new"), &p) {
        Step::Store(Change::SetPassword { id: 5, password_hash }) => {
            assert_eq!(verify_password("new", &password_hash), Ok(true));
        }
        _ => panic!("nothing stored"),
    }
    p.stored = Asked::Failed;
    fails(users::reset_password(&me, 5, &body("new"), &p), 500, "Internal server error");
    p.stored = Asked::Got(5);
    let r = answer(users::reset_password(&me, 5, &body("new"), &p));
    assert_eq!(text(&r, "message"), "Password reset");
}

#[test]
fn only_four_routes_need_no_token() {
    let routes = router();
    assert_eq!(routes.len(), 42);
    let open: Vec<&str> =
        routes.iter().filter(|r| !needs_token(r.endpoint)).map(|r| r.path).collect();
    assert_eq!(open, vec!["/version", "/auth/status", "/auth/setup", "/auth/login"]);
    let mut i = 0;
    while i < routes.len() {
        let mut j = i + 1;
        while j < routes.len() {
            assert!(routes[i].method != routes[j].method || routes[i].path != routes[j].path);
            assert!(routes[i].endpoint != routes[j].endpoint);
            j += 1;
        }
        i += 1;
    }
    let reset = routes.iter().find(|r| r.endpoint == Endpoint::ResetPassword).unwrap();
    assert_eq!(reset.method, Method::Post);
    assert_eq!(reset.path, "/users/{id}/reset-password");
}

#[test]
fn an_account_is_made_of_what_was_drawn() {
    let zone = Some("Europe/Warsaw".to_string());
    match auth::account_made_with(ID, "ada", "hash", true, &zone, 77) {
        Step::Store(Change::Create { id, account, is_owner, timezone }) => {
            assert_eq!((id, is_owner), (ID, true));
            match account {
                Write::InsertAdmin { id, username, password_hash, at } => {
                    assert_eq!((id, at), (ID, 77));
                    assert_eq!((username.as_str(), password_hash.as_str()), ("ada", "hash"));
                }
                _ => panic!("no account"),
            }
            assert!(matches!(timezone, Some(Write::SetAdminTimezone { id: ID, .. })));
        }
        _ => panic!("nothing to store"),
    }
    assert!(matches!(
        auth::account_made_with(ID, "ada", "hash", false, &None, 77),
        Step::Store(Change::Create { is_owner: false, timezone: None, .. })
    ));
}
