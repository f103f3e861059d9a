use user_api::api::{create_user, get_user, handle, list_users, ApiError, ApiResponse, Request};
use user_api::auth::{AuthGuard, AuthGuardMiddleware};
use user_api::store::{MemoryStore, StoreError};
use user_api::users::{NewUser, Timestamp, User, UserResponse};
use user_api::validation::{validate_new_user, Validator};

fn new_user(name: &str, email: &str) -> NewUser {
    NewUser { name: name.to_string(), email: email.to_string() }
}

fn now() -> Timestamp {
    Timestamp::new(1_700_000_000, 0).unwrap()
}

const AUTH: Option<&str> = Some("Bearer test-token");

#[test]
fn test_validate_new_user_valid() {
    let input = NewUser { name: "Alice".to_string(), email: "alice@example.com".to_string() };
    assert!(validate_new_user(&input).is_ok());
}

#[test]
fn test_validate_new_user_invalid() {
    let input = NewUser { name: "".to_string(), email: "not-an-email".to_string() };
    let res = validate_new_user(&input);
    assert!(res.is_err());
    let errs = res.unwrap_err();
    assert!(errs.iter().any(|e| e == "name_required"));
    assert!(errs.iter().any(|e| e == "email_invalid"));
}

#[test]
fn blank_name_and_bad_email_in_order() {
    let errs = validate_new_user(&new_user(" \t ", "bad")).unwrap_err();
    assert_eq!(errs, vec!["name_required".to_string(), "email_invalid".to_string()]);
}

#[test]
fn only_the_broken_rule_is_reported() {
    let errs = validate_new_user(&new_user("  ", "a@b.c")).unwrap_err();
    assert_eq!(errs, vec!["name_required".to_string()]);
    let errs = validate_new_user(&new_user(" Al ", "a@b")).unwrap_err();
    assert_eq!(errs, vec!["email_invalid".to_string()]);
}

#[test]
fn email_shapes() {
    let v = Validator::new();
    let ok = |e: &str| v.validate(&new_user("Al", e)).is_ok();
    assert!(ok("a@b.c"));
    assert!(ok("first.last@mail.example.org"));
    assert!(!ok("a@b"));
    assert!(!ok("@b.c"));
    assert!(!ok("a@.c"));
    assert!(!ok("a@b."));
    assert!(!ok("a b@c.d"));
    assert!(!ok("a@b@c.d"));
    assert!(!ok("a@b.c\n"));
    assert!(!ok(""));
}

#[test]
fn bearer_check() {
    let guard = AuthGuard::new(None);
    assert!(guard.authorize(Some("Bearer test-token")));
    assert!(!guard.authorize(None));
    assert!(!guard.authorize(Some("test-token")));
    assert!(!guard.authorize(Some("bearer test-token")));
    assert!(!guard.authorize(Some("Bearer test-token ")));
    assert!(!guard.authorize(Some("Bearer other")));
    let guard = AuthGuard::new(Some("other".to_string()));
    assert!(guard.authorize(Some("Bearer other")));
    assert!(guard.authorize(Some("Bearer test-token")));
    assert!(!guard.authorize(Some("Bearer ")));
    let mw: AuthGuardMiddleware<u8> = guard.new_transform(5u8);
    assert_eq!(mw.service, 5);
    assert!(mw.forwards(Some("Bearer other")));
    assert!(!mw.forwards(Some("Basic other")));
}

#[test]
fn unauthorized_requests_never_reach_the_store() {
    let guard = AuthGuard::new(None);
    let mut store = MemoryStore::new();
    for auth in [None, Some("Bearer wrong"), Some("Token test-token")] {
        for req in [
            Request::List,
            Request::Get("00000000-0000-0000-0000-000000000001".to_string()),
            Request::Create(new_user("Bob", "bob@example.com")),
        ] {
            let r = handle(&guard, &Validator::new(), auth, req, &mut store, now());
            assert!(matches!(r, ApiResponse::Failed(ApiError::Unauthorized)));
            assert_eq!(r.status(), 401);
        }
    }
    assert!(store.list().is_empty());
}

#[test]
fn create_then_fetch_round_trip() {
    let guard = AuthGuard::new(None);
    let mut store = MemoryStore::new();
    let created = handle(&guard, &Validator::new(), AUTH, Request::Create(new_user("Bob", "bob@example.com")), &mut store, now());
    assert_eq!(created.status(), 201);
    let id = match created {
        ApiResponse::UserCreated(u) => u.id,
        other => panic!("unexpected {:?}", other),
    };
    let fetched = handle(&guard, &Validator::new(), AUTH, Request::Get(id.clone()), &mut store, now());
    assert_eq!(fetched.status(), 200);
    match fetched {
        ApiResponse::UserFound(u) => {
            assert_eq!(u.id, id);
            assert_eq!(u.name, "Bob");
            assert_eq!(u.email, "bob@example.com");
            assert!(!u.created_at.is_empty());
            assert_eq!(u.created_at, "2023-11-14T22:13:20+00:00");
        }
        other => panic!("unexpected {:?}", other),
    }
}

#[test]
fn fetching_unknown_id_is_not_found() {
    let guard = AuthGuard::new(None);
    let mut store = MemoryStore::new();
    let r = handle(&guard, &Validator::new(), AUTH, Request::Get("6f9619ff-8b86-d011-b42d-00c04fc964ff".to_string()), &mut store, now());
    match &r {
        ApiResponse::Failed(e) => {
            assert_eq!(e.code(), "not_found");
            assert_eq!(e.status(), 404);
        }
        other => panic!("unexpected {:?}", other),
    }
    assert_eq!(r.status(), 404);
}

#[test]
fn malformed_id_is_a_client_error() {
    let guard = AuthGuard::new(None);
    let mut store = MemoryStore::new();
    let r = handle(&guard, &Validator::new(), AUTH, Request::Get("not-a-uuid".to_string()), &mut store, now());
    assert!(matches!(r, ApiResponse::Failed(ApiError::MalformedId)));
    assert_eq!(r.status(), 400);
}

#[test]
fn listing_an_empty_store() {
    let guard = AuthGuard::new(None);
    let mut store = MemoryStore::new();
    let r = handle(&guard, &Validator::new(), AUTH, Request::List, &mut store, now());
    assert_eq!(r.status(), 200);
    match r {
        ApiResponse::UserList(v) => assert!(v.is_empty()),
        other => panic!("unexpected {:?}", other),
    }
}

#[test]
fn listing_is_newest_first() {
    let guard = AuthGuard::new(None);
    let mut store = MemoryStore::new();
    handle(&guard, &Validator::new(), AUTH, Request::Create(new_user("Ann", "ann@example.com")), &mut store, now());
    handle(&guard, &Validator::new(), AUTH, Request::Create(new_user("Bob", "bob@example.com")), &mut store, now());
    match handle(&guard, &Validator::new(), AUTH, Request::List, &mut store, now()) {
        ApiResponse::UserList(v) => {
            assert_eq!(v.len(), 2);
            assert_eq!(v[0].name, "Bob");
            assert_eq!(v[1].name, "Ann");
        }
        other => panic!("unexpected {:?}", other),
    }
}

#[test]
fn duplicate_email_conflicts_and_keeps_first() {
    let guard = AuthGuard::new(None);
    let mut store = MemoryStore::new();
    let first = handle(&guard, &Validator::new(), AUTH, Request::Create(new_user("Bob", "bob@example.com")), &mut store, now());
    let id = match first {
        ApiResponse::UserCreated(u) => u.id,
        other => panic!("unexpected {:?}", other),
    };
    let second = handle(&guard, &Validator::new(), AUTH, Request::Create(new_user("Robert", "bob@example.com")), &mut store, now());
    match &second {
        ApiResponse::Failed(e) => {
            assert_eq!(e.code(), "conflict");
            assert_eq!(e.status(), 409);
        }
        other => panic!("unexpected {:?}", other),
    }
    match handle(&guard, &Validator::new(), AUTH, Request::Get(id), &mut store, now()) {
        ApiResponse::UserFound(u) => assert_eq!(u.name, "Bob"),
        other => panic!("unexpected {:?}", other),
    }
    assert_eq!(store.list().len(), 1);
}

#[test]
fn invalid_creation_leaves_store_untouched() {
    let guard = AuthGuard::new(None);
    let mut store = MemoryStore::new();
    let r = handle(&guard, &Validator::new(), AUTH, Request::Create(new_user("", "nope")), &mut store, now());
    assert_eq!(r.status(), 400);
    match r {
        ApiResponse::Failed(ApiError::ValidationFailed(v)) => {
            assert_eq!(v, vec!["name_required".to_string(), "email_invalid".to_string()])
        }
        other => panic!("unexpected {:?}", other),
    }
    assert!(store.list().is_empty());
}

#[test]
fn store_gateway_signals() {
    let mut store = MemoryStore::new();
    assert!(matches!(store.get(1), Err(StoreError::NotFound)));
    let u = store.create(&new_user("Cy", "cy@example.com"), now()).unwrap();
    assert_eq!(store.get(u.id).unwrap().email, "cy@example.com");
    assert!(matches!(store.create(&new_user("Cy2", "cy@example.com"), now()), Err(StoreError::Conflict)));
    assert!(store.has_email(&"cy@example.com".to_string()));
}

#[test]
fn response_shaping() {
    let u = User {
        id: 1,
        name: "Dee".to_string(),
        email: "dee@example.com".to_string(),
        created_at: Timestamp::new(0, 0).unwrap(),
    };
    let r = UserResponse::from(u);
    assert_eq!(r.id, "00000000-0000-0000-0000-000000000001");
    assert_eq!(r.name, "Dee");
    assert_eq!(r.email, "dee@example.com");
    assert_eq!(r.created_at, "1970-01-01T00:00:00+00:00");
}

#[test]
fn timestamp_range() {
    assert!(Timestamp::new(0, 999_999_999).is_some());
    assert!(Timestamp::new(0, 1_000_000_000).is_none());
    assert!(Timestamp::new(253402300799, 0).is_some());
    assert!(Timestamp::new(253402300800, 0).is_none());
    assert!(Timestamp::new(-62167219200, 0).is_some());
    assert!(Timestamp::new(-62167219201, 0).is_none());
    let t = Timestamp::new(253402300799, 0).unwrap();
    assert_eq!(t.secs(), 253402300799);
    assert_eq!(t.nanos(), 0);
    assert_eq!(t.to_rfc3339(), "9999-12-31T23:59:59+00:00");
}

#[test]
fn store_failures_map_to_server_errors() {
    assert_eq!(list_users(Err(StoreError::Failure)).status(), 500);
    assert_eq!(get_user(Err(StoreError::Failure)).status(), 500);
    assert_eq!(get_user(Err(StoreError::NotFound)).status(), 404);
    assert_eq!(create_user(Err(StoreError::Conflict)).status(), 409);
    assert_eq!(ApiError::Unauthorized.code(), "unauthorized");
    assert_eq!(ApiError::ValidationFailed(vec![]).code(), "validation_failed");
}
