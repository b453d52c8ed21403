//! The HTTP-facing half of the resource accessor: name defaulting, the two
//! request handlers, and response shaping.

use vstd::prelude::*;
use crate::error::HelloError;
use crate::hello::{create_hello, get_hello, HelloRecord};
use crate::render::{hello_json, render_hello};
use crate::store::{
    can_count_up, hello_next_id, hello_rows, hello_table_ready, upserted,
};

verus! {

/// A shaped response: a status code and the rendered body.
pub struct HelloResponse {
    pub status: u16,
    pub body: String,
}

/// The content type every shaped response carries.
pub fn content_type() -> (r: &'static str)
    ensures
        r@ == "application/json"@,
{
    "application/json"
}

impl HelloRecord {
    /// Shapes the record as a successful response: status 200 and the
    /// pretty-printed JSON document in field order id, name, count.
    ///
    /// Total: it never fails for any record.
    pub fn into_response(self) -> (r: HelloResponse)
        ensures
            r.status == 200,
            r.body@ == hello_json(self.id as int, self.name@, self.count as int),
    {
        HelloResponse { status: 200, body: render_hello(&self) }
    }
}

/// The status a failed resource access maps to: 404 for the normal negative
/// answer, 500 for everything that went wrong in the store.
pub fn response_status(e: &HelloError) -> (s: u16)
    ensures
        s == (if e is NotFound {
            404u16
        } else {
            500u16
        }),
{
    match e {
        HelloError::NotFound => 404,
        _ => 500,
    }
}

/// The key a read request asks for: the given name, or "world" when the
/// caller supplied none.
pub open spec fn query_name(name: Option<String>) -> Seq<char> {
    match name {
        Some(s) => s@,
        None => "world"@,
    }
}

/// The key a write request names: the given name, or the empty string when
/// the request body supplied none.
pub open spec fn body_name(name: Option<String>) -> Seq<char> {
    match name {
        Some(s) => s@,
        None => Seq::empty(),
    }
}

/// Handles a read request: fetches the record for the given name, default
/// "world", and shapes it.
pub fn get(conn: &rusqlite::Connection, name: Option<String>) -> (r: Result<
    HelloResponse,
    HelloError,
>)
    ensures
        r matches Ok(resp) ==> resp.status == 200 && hello_rows(*conn).contains_key(
            query_name(name),
        ) && resp.body@ == hello_json(
            hello_rows(*conn)[query_name(name)].0,
            query_name(name),
            hello_rows(*conn)[query_name(name)].1,
        ),
        r matches Err(e) ==> (e is NotFound || e is StoreError),
        (r matches Err(e) && e is NotFound) ==> !hello_rows(*conn).contains_key(query_name(name)),
        !hello_table_ready(*conn) ==> (r matches Err(e) && e is StoreError),
{
    let n: String = match name {
        Some(s) => s,
        None => "world".to_owned(),
    };
    match get_hello(conn, n) {
        Ok(rec) => Ok(rec.into_response()),
        Err(e) => Err(e),
    }
}

/// Handles a write request: upserts the given name, default the empty
/// string, and shapes the post-upsert record.
pub fn post(conn: &mut rusqlite::Connection, name: Option<String>) -> (r: Result<
    HelloResponse,
    HelloError,
>)
    ensures
        hello_table_ready(*final(conn)) == hello_table_ready(*old(conn)),
        r matches Ok(resp) ==> resp.status == 200 && hello_rows(*final(conn)).contains_key(
            body_name(name),
        ) && resp.body@ == hello_json(
            hello_rows(*final(conn))[body_name(name)].0,
            body_name(name),
            hello_rows(*final(conn))[body_name(name)].1,
        ),
        r is Ok && can_count_up(hello_rows(*old(conn)), body_name(name)) ==> hello_rows(
            *final(conn),
        ) == upserted(hello_rows(*old(conn)), hello_next_id(*old(conn)), body_name(name))
            && hello_next_id(*final(conn)) >= hello_next_id(*old(conn)),
        r is Ok && !hello_rows(*old(conn)).contains_key(body_name(name)) ==> hello_next_id(
            *final(conn),
        ) == hello_next_id(*old(conn)) + 1,
        r matches Err(e) ==> (e is StoreError || e is NotFound),
        !hello_table_ready(*old(conn)) ==> (r matches Err(e) && e is StoreError),
{
    let n: String = match name {
        Some(s) => s,
        None => String::new(),
    };
    match create_hello(conn, n) {
        Ok(rec) => Ok(rec.into_response()),
        Err(e) => Err(e),
    }
}

} // verus!
