//! A read-only adapter that exposes a remote product catalog, served as JSON,
//! as typed rows to a row-oriented query engine.
//!
//! - [`json`] holds the library's own model of a JSON document and its parser.
//! - [`error`] holds the structured failures of the adapter.
//! - [`decode`] projects one record onto one requested column.
//! - [`fdw`] holds the scan lifecycle: configuration, the row buffer and its cursor.

pub mod decode;
pub mod error;
pub mod fdw;
pub mod json;
