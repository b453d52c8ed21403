//! The trusted boundary to the file-backed relational store, together with
//! the mathematical model of the one table the library owns.
//!
//! The `hello` table is modelled by three quantities of an open connection:
//! the rows as a map from name to the pair `(id, count)`, the value the
//! auto-increment column would assign to the next inserted row, and whether
//! the table exists at all. Everything the library proves about the store
//! goes through these three names and the contracts of the wrappers below.

use vstd::prelude::*;
use crate::hello::HelloRecord;

verus! {

#[verifier::external_type_specification]
#[verifier::external_body]
pub struct ExConnection(rusqlite::Connection);

#[verifier::external_type_specification]
#[verifier::external_body]
pub struct ExRusqliteError(rusqlite::Error);

/// The rows of the hello table: each present name maps to `(id, count)`.
pub uninterp spec fn hello_rows(c: rusqlite::Connection) -> Map<Seq<char>, (int, int)>;

/// The id that the auto-increment column assigns to the next inserted row.
pub uninterp spec fn hello_next_id(c: rusqlite::Connection) -> int;

/// Whether the hello table exists in the store behind the connection.
pub uninterp spec fn hello_table_ready(c: rusqlite::Connection) -> bool;

/// The rows after one conditional upsert of `name`: a present name keeps its
/// id and counts up by one, an absent one enters with the next free id and
/// count 1.
pub open spec fn upserted(
    m: Map<Seq<char>, (int, int)>,
    next: int,
    name: Seq<char>,
) -> Map<Seq<char>, (int, int)> {
    if m.contains_key(name) {
        m.insert(name, (m[name].0, m[name].1 + 1))
    } else {
        m.insert(name, (next, 1))
    }
}

/// The rows after the idempotent schema creation: an existing table is kept,
/// an absent one comes up empty.
pub open spec fn created_rows(m: Map<Seq<char>, (int, int)>, ready: bool) -> Map<
    Seq<char>,
    (int, int),
> {
    if ready {
        m
    } else {
        Map::empty()
    }
}

/// The next free id after the idempotent schema creation.
pub open spec fn created_next(next: int, ready: bool) -> int {
    if ready {
        next
    } else {
        1
    }
}

/// What a fetch of `name` sees in rows `m`.
pub open spec fn fetched(m: Map<Seq<char>, (int, int)>, name: Seq<char>) -> Option<(int, int)> {
    if m.contains_key(name) {
        Some(m[name])
    } else {
        None
    }
}

/// The observable store state behind `c2` equals the one behind `c1`.
pub open spec fn store_unchanged(c1: rusqlite::Connection, c2: rusqlite::Connection) -> bool {
    hello_rows(c2) == hello_rows(c1) && hello_next_id(c2) == hello_next_id(c1)
        && hello_table_ready(c2) == hello_table_ready(c1)
}

/// The count of `name`, if present, can still go up by one within the
/// store's integer column.
pub open spec fn can_count_up(m: Map<Seq<char>, (int, int)>, name: Seq<char>) -> bool {
    m.contains_key(name) ==> m[name].1 < i64::MAX
}

/// Well-formedness of the table contents: counts start at 1, ids are
/// distinct and lie below the next free id.
pub open spec fn store_inv(m: Map<Seq<char>, (int, int)>, next: int) -> bool {
    1 <= next && (forall|n: Seq<char>|
        #[trigger] m.contains_key(n) ==> 1 <= m[n].1 && 1 <= m[n].0 < next)
        && (forall|n1: Seq<char>, n2: Seq<char>|
        #![trigger m[n1], m[n2]]
        m.contains_key(n1) && m.contains_key(n2) && n1 != n2 ==> m[n1].0 != m[n2].0)
}

/// Relies on rusqlite::Connection::execute running one SQL statement: here
/// the idempotent CREATE TABLE IF NOT EXISTS for the hello table. An already
/// present table is left exactly as it is; an absent one is created empty,
/// with its auto-increment sequence starting at 1. A failed statement leaves
/// the store unchanged: single statements are atomic in SQLite.
#[verifier::external_body]
pub(crate) fn exec_create_hello_table(conn: &mut rusqlite::Connection) -> (r: Result<
    (),
    rusqlite::Error,
>)
    ensures
        r is Ok ==> hello_table_ready(*final(conn)),
        r is Ok ==> hello_rows(*final(conn)) == created_rows(
            hello_rows(*old(conn)),
            hello_table_ready(*old(conn)),
        ),
        r is Ok ==> hello_next_id(*final(conn)) == created_next(
            hello_next_id(*old(conn)),
            hello_table_ready(*old(conn)),
        ),
        r is Err ==> store_unchanged(*old(conn), *final(conn)),
{
    let sql =
        "CREATE TABLE IF NOT EXISTS hello (id INTEGER PRIMARY KEY AUTOINCREMENT, name TEXT, count INTEGER, UNIQUE (name));";
    match conn.execute(sql, ()) {
        Ok(_) => Ok(()),
        Err(e) => Err(e),
    }
}

/// Relies on rusqlite::Connection::execute running one SQL statement: here
/// the single conditional upsert INSERT ... ON CONFLICT (name) DO UPDATE SET
/// count = count + 1. On success with a present name the row keeps its id
/// and its count goes up by one; with an absent name a new row enters with
/// the next auto-increment id and count 1, and the sequence moves past it.
/// On the conflict arm the sequence is only promised not to move backwards:
/// the insert step may already have drawn an id before the conflict was
/// seen. An overflowing count makes the statement fail, so the exact effect
/// is stated only while the old count can still go up. A failed statement
/// leaves the store unchanged, and a missing table always fails.
#[verifier::external_body]
pub(crate) fn exec_upsert_hello(conn: &mut rusqlite::Connection, name: &str) -> (r: Result<
    (),
    rusqlite::Error,
>)
    ensures
        hello_table_ready(*final(conn)) == hello_table_ready(*old(conn)),
        !hello_table_ready(*old(conn)) ==> r is Err,
        r is Ok && can_count_up(hello_rows(*old(conn)), name@) ==> hello_rows(*final(conn))
            == upserted(hello_rows(*old(conn)), hello_next_id(*old(conn)), name@)
            && hello_next_id(*final(conn)) >= hello_next_id(*old(conn)),
        r is Ok && !hello_rows(*old(conn)).contains_key(name@) ==> hello_next_id(*final(conn))
            == hello_next_id(*old(conn)) + 1,
        r is Err ==> store_unchanged(*old(conn), *final(conn)),
{
    let sql =
        "INSERT INTO hello (name, count) VALUES (?, 1) ON CONFLICT (name) DO UPDATE SET count = count + 1;";
    match conn.execute(sql, (name,)) {
        Ok(_) => Ok(()),
        Err(e) => Err(e),
    }
}

/// Relies on rusqlite::Connection::query_row selecting the unique row whose
/// name column equals the parameter exactly: it hands the row to the mapping
/// closure, or returns Err(QueryReturnedNoRows) when no row matches, which
/// this wrapper converts to Ok(None). A missing table always fails.
#[verifier::external_body]
pub(crate) fn query_hello_row(conn: &rusqlite::Connection, name: &str) -> (r: Result<
    Option<HelloRecord>,
    rusqlite::Error,
>)
    ensures
        !hello_table_ready(*conn) ==> r is Err,
        r matches Ok(Some(rec)) ==> hello_rows(*conn).contains_key(name@) && rec.id as int
            == hello_rows(*conn)[name@].0 && rec.name@ == name@ && rec.count as int == hello_rows(
            *conn,
        )[name@].1,
        r matches Ok(None) ==> !hello_rows(*conn).contains_key(name@),
{
    let res = conn.query_row("SELECT id, name, count FROM hello WHERE name = ?", (name,), |row| {
        Ok(HelloRecord { id: row.get(0)?, name: row.get(1)?, count: row.get(2)? })
    });
    match res {
        Ok(rec) => Ok(Some(rec)),
        Err(rusqlite::Error::QueryReturnedNoRows) => Ok(None),
        Err(e) => Err(e),
    }
}

} // verus!
