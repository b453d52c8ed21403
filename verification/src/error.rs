//! The error taxonomy shared by the migration dispatcher and the resource
//! accessor.

use vstd::prelude::*;

verus! {

/// Every failure the library reports.
///
/// - `UnregisteredCommand` carries the command string that the migration
///   dispatcher did not recognize.
/// - `NotFound` is the normal negative answer of a fetch whose key has no
///   record; it never stands for a store failure.
/// - `StoreError` is any underlying I/O, constraint or query failure.
/// - `ConfigError` is an invalid deployment-mode value.
#[derive(Debug)]
pub enum HelloError {
    UnregisteredCommand(String),
    NotFound,
    StoreError,
    ConfigError,
}

} // verus!
