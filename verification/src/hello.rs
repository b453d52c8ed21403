//! The hello record and the two data-access operations: fetch-by-name and
//! upsert-with-increment.

use vstd::prelude::*;
use crate::error::HelloError;
use crate::store::{
    can_count_up, exec_upsert_hello, fetched, hello_next_id, hello_rows, hello_table_ready,
    query_hello_row, store_unchanged, upserted,
};

verus! {

/// The sole entity of the store: at most one record per distinct name.
#[derive(Debug)]
pub struct HelloRecord {
    pub id: i64,
    pub name: String,
    pub count: i64,
}

/// Fetches the record whose name matches `name` exactly.
///
/// A missing row is the normal negative answer `NotFound`; no default record
/// is fabricated. Any underlying query failure is `StoreError`.
pub fn get_hello(conn: &rusqlite::Connection, name: String) -> (r: Result<HelloRecord, HelloError>)
    ensures
        r matches Ok(rec) ==> fetched(hello_rows(*conn), name@) == Some(
            (rec.id as int, rec.count as int),
        ) && rec.name@ == name@,
        r is Ok ==> hello_rows(*conn).contains_key(name@),
        r matches Err(e) ==> (e is NotFound || e is StoreError),
        (r matches Err(e) && e is NotFound) ==> !hello_rows(*conn).contains_key(name@),
        !hello_table_ready(*conn) ==> (r matches Err(e) && e is StoreError),
{
    match query_hello_row(conn, name.as_str()) {
        Ok(Some(rec)) => Ok(rec),
        Ok(None) => Err(HelloError::NotFound),
        Err(_) => Err(HelloError::StoreError),
    }
}

/// Upserts `name` in one atomic conditional statement, then re-fetches the
/// resulting record.
///
/// A returned record always reflects the store after the write: a first
/// upsert of a name enters it with count 1 and the next free id, every later
/// one keeps the id and counts up by one.
pub fn create_hello(conn: &mut rusqlite::Connection, name: String) -> (r: Result<
    HelloRecord,
    HelloError,
>)
    ensures
        hello_table_ready(*final(conn)) == hello_table_ready(*old(conn)),
        r matches Ok(rec) ==> fetched(hello_rows(*final(conn)), name@) == Some(
            (rec.id as int, rec.count as int),
        ) && rec.name@ == name@,
        r is Ok && can_count_up(hello_rows(*old(conn)), name@) ==> hello_rows(*final(conn))
            == upserted(hello_rows(*old(conn)), hello_next_id(*old(conn)), name@)
            && hello_next_id(*final(conn)) >= hello_next_id(*old(conn)),
        r is Ok && !hello_rows(*old(conn)).contains_key(name@) ==> hello_next_id(*final(conn))
            == hello_next_id(*old(conn)) + 1,
        can_count_up(hello_rows(*old(conn)), name@) ==> (hello_rows(*final(conn)) == upserted(
            hello_rows(*old(conn)),
            hello_next_id(*old(conn)),
            name@,
        ) && hello_next_id(*final(conn)) >= hello_next_id(*old(conn))) || store_unchanged(
            *old(conn),
            *final(conn),
        ),
        r matches Err(e) ==> (e is StoreError || e is NotFound),
        (r matches Err(e) && e is NotFound) ==> !can_count_up(hello_rows(*old(conn)), name@),
        !hello_table_ready(*old(conn)) ==> (r matches Err(e) && e is StoreError
            && store_unchanged(*old(conn), *final(conn))),
{
    match exec_upsert_hello(conn, name.as_str()) {
        Ok(()) => get_hello(&*conn, name),
        Err(_) => Err(HelloError::StoreError),
    }
}

} // verus!
