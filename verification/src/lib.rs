//! Helpers for keeping structs and SQLite tables in step: the SQL text for
//! creating, reading and writing a table, the conversion of Rust values into
//! SQL values, and the decisions of the `AutoTable` derive (column types,
//! attribute handling, encoding and decoding plans).

pub mod value;
pub mod text;
pub mod sql_helpers;
pub mod naming;
pub mod type_model;
pub mod attrs;
pub mod table_plan;
pub mod queries;
pub mod codec;
pub mod laws;
pub mod derive_laws;
pub mod sql_laws;
pub mod attr_laws;
