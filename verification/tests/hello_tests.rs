use hello_store::error::HelloError;
use hello_store::hello::{create_hello, get_hello};
use hello_store::migrations::create_hello_table;

fn ready_conn() -> rusqlite::Connection {
    let mut conn = rusqlite::Connection::open_in_memory().unwrap();
    create_hello_table(&mut conn).unwrap();
    conn
}

#[test]
fn first_upsert_creates_with_count_one_and_fresh_id() {
    let mut conn = ready_conn();
    let a = create_hello(&mut conn, "alice".to_string()).unwrap();
    assert_eq!((a.id, a.name.as_str(), a.count), (1, "alice", 1));
    let b = create_hello(&mut conn, "bob".to_string()).unwrap();
    assert_eq!((b.id, b.name.as_str(), b.count), (2, "bob", 1));
    assert_ne!(a.id, b.id);
}

#[test]
fn repeated_upsert_keeps_id_and_increments_count() {
    let mut conn = ready_conn();
    let first = create_hello(&mut conn, "alice".to_string()).unwrap();
    create_hello(&mut conn, "bob".to_string()).unwrap();
    let second = create_hello(&mut conn, "alice".to_string()).unwrap();
    assert_eq!(second.id, first.id);
    assert_eq!(second.count, first.count + 1);
    // The other record is untouched.
    let bob = get_hello(&conn, "bob".to_string()).unwrap();
    assert_eq!((bob.id, bob.count), (2, 1));
}

#[test]
fn conflicting_upserts_also_move_the_id_sequence() {
    let mut conn = ready_conn();
    create_hello(&mut conn, "alice".to_string()).unwrap();
    create_hello(&mut conn, "alice".to_string()).unwrap();
    create_hello(&mut conn, "alice".to_string()).unwrap();
    // Every upsert statement moves the sequence, the two conflicting ones
    // included, so the next name gets id 4.
    let bob = create_hello(&mut conn, "bob".to_string()).unwrap();
    assert_eq!(bob.id, 4);
}

#[test]
fn fetch_after_upsert_reads_the_write() {
    let mut conn = ready_conn();
    let written = create_hello(&mut conn, "carol".to_string()).unwrap();
    let read = get_hello(&conn, "carol".to_string()).unwrap();
    assert_eq!(read.id, written.id);
    assert_eq!(read.name, written.name);
    assert_eq!(read.count, written.count);
}

#[test]
fn fetch_of_missing_name_is_not_found() {
    let mut conn = ready_conn();
    create_hello(&mut conn, "present".to_string()).unwrap();
    assert!(matches!(
        get_hello(&conn, "nonexistent".to_string()),
        Err(HelloError::NotFound)
    ));
}

#[test]
fn many_upserts_lose_no_update() {
    let mut conn = ready_conn();
    let n = 5;
    let mut last = 0;
    for _ in 0..n {
        last = create_hello(&mut conn, "shared".to_string()).unwrap().count;
    }
    assert_eq!(last, n);
    assert_eq!(get_hello(&conn, "shared".to_string()).unwrap().count, n);
}

#[test]
fn world_three_times_then_fetch() {
    let mut conn = ready_conn();
    for expected in 1..=3 {
        let rec = create_hello(&mut conn, "world".to_string()).unwrap();
        assert_eq!((rec.id, rec.name.as_str(), rec.count), (1, "world", expected));
    }
    let rec = get_hello(&conn, "world".to_string()).unwrap();
    assert_eq!((rec.id, rec.name.as_str(), rec.count), (1, "world", 3));
}

#[test]
fn operations_without_a_table_are_store_errors() {
    let mut conn = rusqlite::Connection::open_in_memory().unwrap();
    assert!(matches!(
        get_hello(&conn, "world".to_string()),
        Err(HelloError::StoreError)
    ));
    assert!(matches!(
        create_hello(&mut conn, "world".to_string()),
        Err(HelloError::StoreError)
    ));
}

#[test]
fn empty_name_is_a_record_like_any_other() {
    let mut conn = ready_conn();
    let rec = create_hello(&mut conn, String::new()).unwrap();
    assert_eq!((rec.id, rec.name.as_str(), rec.count), (1, "", 1));
    let rec = create_hello(&mut conn, String::new()).unwrap();
    assert_eq!((rec.id, rec.name.as_str(), rec.count), (1, "", 2));
}
