use hello_store::api::{content_type, get, post, response_status};
use hello_store::error::HelloError;
use hello_store::hello::create_hello;
use hello_store::migrations::create_hello_table;

fn ready_conn() -> rusqlite::Connection {
    let mut conn = rusqlite::Connection::open_in_memory().unwrap();
    create_hello_table(&mut conn).unwrap();
    conn
}

#[test]
fn post_then_get_round_trip() {
    let mut conn = ready_conn();
    let resp = post(&mut conn, Some("ada".to_string())).unwrap();
    assert_eq!(resp.status, 200);
    assert_eq!(resp.body, "{\n  \"id\": 1,\n  \"name\": \"ada\",\n  \"count\": 1\n}");
    let resp = get(&conn, Some("ada".to_string())).unwrap();
    assert_eq!(resp.status, 200);
    assert_eq!(resp.body, "{\n  \"id\": 1,\n  \"name\": \"ada\",\n  \"count\": 1\n}");
}

#[test]
fn get_defaults_the_name_to_world() {
    let mut conn = ready_conn();
    create_hello(&mut conn, "world".to_string()).unwrap();
    let resp = get(&conn, None).unwrap();
    assert_eq!(resp.body, "{\n  \"id\": 1,\n  \"name\": \"world\",\n  \"count\": 1\n}");
}

#[test]
fn post_defaults_the_name_to_empty() {
    let mut conn = ready_conn();
    let resp = post(&mut conn, None).unwrap();
    assert_eq!(resp.body, "{\n  \"id\": 1,\n  \"name\": \"\",\n  \"count\": 1\n}");
    let resp = post(&mut conn, None).unwrap();
    assert_eq!(resp.body, "{\n  \"id\": 1,\n  \"name\": \"\",\n  \"count\": 2\n}");
}

#[test]
fn get_of_missing_name_is_not_found() {
    let conn = ready_conn();
    assert!(matches!(
        get(&conn, Some("nobody".to_string())),
        Err(HelloError::NotFound)
    ));
}

#[test]
fn responses_carry_a_structured_content_type() {
    assert_eq!(content_type(), "application/json");
}

#[test]
fn failures_map_to_distinct_statuses() {
    assert_eq!(response_status(&HelloError::NotFound), 404);
    assert_eq!(response_status(&HelloError::StoreError), 500);
}
