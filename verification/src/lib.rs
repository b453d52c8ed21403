//! A migration-and-data-access core for a single-table, file-backed
//! relational store behind a command-style handler.
//!
//! The store holds one table of hello records, each a name with an id and a
//! counter. The migration dispatcher maps a command name to an
//! administrative action against an open store handle; the resource
//! accessor fetches a record by name or upserts it in one atomic
//! conditional statement. Both are specified against a mathematical model
//! of the table, and the store engine is reached only through the trusted
//! boundary in `store`.

pub mod api;
pub mod config;
pub mod error;
pub mod hello;
pub mod laws;
pub mod migrations;
pub mod render;
pub mod store;
pub mod text;
