use user_store::error::{ServiceError, StatusCode};
use user_store::handlers::{
    create_user, delete_user, get_user, get_users, health_check, health_report, server_info,
    update_user, welcome, QueryParams, DEFAULT_LIMIT, DEFAULT_OFFSET,
};
use user_store::store::UserStore;
use user_store::user::{CreateUserRequest, User};

fn request(name: &str, email: &str, age: u32) -> CreateUserRequest {
    CreateUserRequest { name: name.to_string(), email: email.to_string(), age }
}

fn record(id: u32, name: &str, email: &str, age: u32) -> User {
    User { id, name: name.to_string(), email: email.to_string(), age }
}

fn two_users() -> UserStore {
    let mut store = UserStore::new();
    create_user(&mut store, request("Alice", "a@x.com", 30)).unwrap();
    create_user(&mut store, request("Bob", "b@x.com", 40)).unwrap();
    store
}

#[test]
fn status_codes_on_the_wire() {
    assert_eq!(StatusCode::Success.as_u16(), 200);
    assert_eq!(StatusCode::Created.as_u16(), 201);
    assert_eq!(StatusCode::BadRequest.as_u16(), 400);
    assert_eq!(StatusCode::NotFound.as_u16(), 404);
}

#[test]
fn errors_map_to_their_status() {
    assert_eq!(ServiceError::NotFound.status_code(), StatusCode::NotFound);
    assert_eq!(ServiceError::MalformedInput.status_code(), StatusCode::BadRequest);
    assert_eq!(ServiceError::NotFound.status_code().as_u16(), 404);
    assert_eq!(ServiceError::MalformedInput.status_code().as_u16(), 400);
}

#[test]
fn create_user_answers_created_with_the_record() {
    let mut store = UserStore::new();
    let (status, alice) = create_user(&mut store, request("Alice", "a@x.com", 30)).unwrap();
    assert_eq!(status, StatusCode::Created);
    assert_eq!(alice, record(1, "Alice", "a@x.com", 30));
    let (status, bob) = create_user(&mut store, request("Bob", "b@x.com", 40)).unwrap();
    assert_eq!(status, StatusCode::Created);
    assert_eq!(bob, record(2, "Bob", "b@x.com", 40));
}

#[test]
fn get_users_defaults_to_ten_and_zero() {
    let store = two_users();
    let body = get_users(QueryParams { limit: None, offset: None }, &store);
    assert_eq!(DEFAULT_LIMIT, 10);
    assert_eq!(DEFAULT_OFFSET, 0);
    assert_eq!(body.limit, 10);
    assert_eq!(body.offset, 0);
    assert_eq!(body.total, 2);
    let mut users = body.users;
    users.sort_by_key(|u| u.id);
    assert_eq!(users, vec![record(1, "Alice", "a@x.com", 30), record(2, "Bob", "b@x.com", 40)]);
}

#[test]
fn get_users_echoes_limit_and_offset() {
    let mut store = UserStore::new();
    for i in 0..15u32 {
        create_user(&mut store, request("n", "e", i)).unwrap();
    }
    let body = get_users(QueryParams { limit: Some(4), offset: Some(13) }, &store);
    assert_eq!(body.limit, 4);
    assert_eq!(body.offset, 13);
    assert_eq!(body.total, 15);
    assert_eq!(body.users.len(), 2);
    let body = get_users(QueryParams { limit: None, offset: Some(2) }, &store);
    assert_eq!(body.limit, 10);
    assert_eq!(body.users.len(), 10);
    let body = get_users(QueryParams { limit: Some(u32::MAX), offset: None }, &store);
    assert_eq!(body.limit, u32::MAX as usize);
    assert_eq!(body.users.len(), 15);
    let body = get_users(QueryParams { limit: Some(0), offset: Some(u32::MAX) }, &store);
    assert_eq!(body.users.len(), 0);
    assert_eq!(body.total, 15);
}

#[test]
fn get_user_found_and_not_found() {
    let store = two_users();
    assert_eq!(get_user(2, &store), Ok(record(2, "Bob", "b@x.com", 40)));
    assert_eq!(get_user(999, &store), Err(StatusCode::NotFound));
    assert_eq!(get_user(0, &store), Err(StatusCode::NotFound));
}

#[test]
fn update_user_then_get_shows_the_update() {
    let mut store = two_users();
    let updated = update_user(1, &mut store, request("Alice2", "a2@x.com", 31));
    assert_eq!(updated, Ok(record(1, "Alice2", "a2@x.com", 31)));
    assert_eq!(get_user(1, &store), Ok(record(1, "Alice2", "a2@x.com", 31)));
}

#[test]
fn update_user_unknown_is_404_and_creates_nothing() {
    let mut store = two_users();
    let outcome = update_user(3, &mut store, request("X", "x", 1));
    assert_eq!(outcome, Err(StatusCode::NotFound));
    assert_eq!(store.len(), 2);
    assert_eq!(get_user(3, &store), Err(StatusCode::NotFound));
}

#[test]
fn delete_user_confirms_in_a_sentence() {
    let mut store = two_users();
    let body = delete_user(1, &mut store).unwrap();
    assert_eq!(body.message, "User 1 deleted successfully");
    let listed = get_users(QueryParams { limit: Some(10), offset: Some(0) }, &store);
    assert_eq!(listed.total, 1);
    assert_eq!(listed.users, vec![record(2, "Bob", "b@x.com", 40)]);
}

#[test]
fn delete_user_unknown_is_404() {
    let mut store = two_users();
    assert_eq!(delete_user(42, &mut store).unwrap_err(), StatusCode::NotFound);
    assert_eq!(store.len(), 2);
    assert!(delete_user(2, &mut store).is_ok());
    assert_eq!(delete_user(2, &mut store).unwrap_err(), StatusCode::NotFound);
}

#[test]
fn delete_message_writes_the_id_in_decimal() {
    let mut store = UserStore::new();
    for _ in 0..12 {
        create_user(&mut store, request("n", "e", 0)).unwrap();
    }
    assert_eq!(delete_user(10, &mut store).unwrap().message, "User 10 deleted successfully");
    assert_eq!(delete_user(12, &mut store).unwrap().message, "User 12 deleted successfully");
}

#[test]
fn a_failed_request_leaves_later_ones_unaffected() {
    let mut store = two_users();
    assert!(get_user(9, &store).is_err());
    assert!(update_user(9, &mut store, request("q", "q", 0)).is_err());
    assert!(delete_user(9, &mut store).is_err());
    let (status, carol) = create_user(&mut store, request("Carol", "c@x.com", 50)).unwrap();
    assert_eq!(status, StatusCode::Created);
    assert_eq!(carol.id, 3);
    assert_eq!(get_users(QueryParams { limit: None, offset: None }, &store).total, 3);
}

#[test]
fn welcome_is_fixed() {
    let body = welcome();
    assert_eq!(body.message, "🦀 Welcome to Rust Web Server!");
    assert_eq!(body.info, "This is similar to Express.js but faster and safer");
    assert_eq!(body.author, "DevZAKRI");
}

#[test]
fn health_report_carries_the_stamp() {
    let body = health_report("2024-01-02T03:04:05+00:00".to_string());
    assert_eq!(body.status, "healthy");
    assert_eq!(body.timestamp, "2024-01-02T03:04:05+00:00");
    assert_eq!(body.uptime, "🟢 Server is running");
}

#[test]
fn health_check_is_ok_with_a_utc_stamp() {
    let (status, body) = health_check();
    assert_eq!(status, StatusCode::Success);
    assert_eq!(body.status, "healthy");
    assert_eq!(body.uptime, "🟢 Server is running");
    assert!(body.timestamp.chars().count() >= 25);
    assert!(body.timestamp.ends_with("+00:00"));
    let stamp = body.timestamp.as_bytes();
    assert!(stamp[..4].iter().all(|b| b.is_ascii_digit()));
    assert_eq!(stamp[4], b'-');
    assert_eq!(stamp[7], b'-');
    assert_eq!(stamp[10], b'T');
    assert_eq!(stamp[13], b':');
    assert_eq!(stamp[16], b':');
}

#[test]
fn server_info_is_fixed_but_for_the_compiler() {
    let body = server_info("rustc 1.80.0".to_string());
    assert_eq!(body.server, "Rust Web Server");
    assert_eq!(body.framework, "Axum");
    assert_eq!(body.version, "0.1.0");
    assert_eq!(body.rust_version, "rustc 1.80.0");
    assert_eq!(
        body.features,
        vec![
            "🔒 Memory Safety",
            "⚡ High Performance",
            "🔧 Type Safety",
            "🚀 Zero-cost Abstractions",
            "🌐 Async/Await Support"
        ]
    );
    assert_eq!(body.comparison_to_nodejs.performance, "2-3x faster than Node.js");
    assert_eq!(body.comparison_to_nodejs.memory_usage, "Lower memory footprint");
    assert_eq!(body.comparison_to_nodejs.type_safety, "Compile-time type checking");
    assert_eq!(
        body.comparison_to_nodejs.concurrency,
        "Built-in async/await without event loop overhead"
    );
}
