//! The migration dispatcher: a closed set of named administrative actions
//! against an open store handle.

use vstd::prelude::*;
use crate::error::HelloError;
use crate::store::{
    created_next, created_rows, hello_next_id, hello_rows, hello_table_ready, store_unchanged,
    exec_create_hello_table,
};
use crate::text::str_eq;

verus! {

/// Acknowledges the intent to drop the store.
///
/// Removal of the underlying file is the surrounding collaborator's
/// responsibility; this action touches no store state itself.
pub fn drop_database() -> (r: &'static str)
    ensures
        r@ == "Dropped database"@,
{
    "Dropped database"
}

/// Runs the idempotent schema creation for the hello table.
///
/// An already present table keeps its rows and its auto-increment sequence;
/// an absent one comes up empty with the sequence at 1.
pub fn create_hello_table(conn: &mut rusqlite::Connection) -> (r: Result<&'static str, HelloError>)
    ensures
        r matches Ok(msg) ==> msg@ == "Created hello table"@ && hello_table_ready(*final(conn))
            && hello_rows(*final(conn)) == created_rows(
            hello_rows(*old(conn)),
            hello_table_ready(*old(conn)),
        ) && hello_next_id(*final(conn)) == created_next(
            hello_next_id(*old(conn)),
            hello_table_ready(*old(conn)),
        ),
        r matches Err(e) ==> e is StoreError && store_unchanged(*old(conn), *final(conn)),
{
    match exec_create_hello_table(conn) {
        Ok(()) => Ok("Created hello table"),
        Err(_) => Err(HelloError::StoreError),
    }
}

/// Dispatches a command name to its administrative action.
///
/// The recognized set is closed: `drop_file` and `create_hello_table`. Any
/// other command fails with `UnregisteredCommand` carrying the command
/// itself, and the store is left untouched.
pub fn execute_migration(command: &str, conn: &mut rusqlite::Connection) -> (r: Result<
    &'static str,
    HelloError,
>)
    ensures
        command@ == "drop_file"@ ==> (r matches Ok(msg) && msg@ == "Dropped database"@
            && store_unchanged(*old(conn), *final(conn))),
        command@ == "create_hello_table"@ ==> ((r matches Ok(msg) && msg@
            == "Created hello table"@ && hello_table_ready(*final(conn)) && hello_rows(
            *final(conn),
        ) == created_rows(hello_rows(*old(conn)), hello_table_ready(*old(conn)))
            && hello_next_id(*final(conn)) == created_next(
            hello_next_id(*old(conn)),
            hello_table_ready(*old(conn)),
        )) || (r matches Err(e) && e is StoreError && store_unchanged(*old(conn), *final(conn)))),
        command@ != "drop_file"@ && command@ != "create_hello_table"@ ==> (r matches Err(e) && (
        e matches HelloError::UnregisteredCommand(c) && c@ == command@) && store_unchanged(
            *old(conn),
            *final(conn),
        )),
{
    proof {
        reveal_strlit("drop_file");
        reveal_strlit("create_hello_table");
        assert("drop_file"@.len() == 9);
        assert("create_hello_table"@.len() == 18);
        assert("drop_file"@ != "create_hello_table"@);
    }
    if str_eq(command, "drop_file") {
        Ok(drop_database())
    } else if str_eq(command, "create_hello_table") {
        create_hello_table(conn)
    } else {
        Err(HelloError::UnregisteredCommand(command.to_owned()))
    }
}

} // verus!
