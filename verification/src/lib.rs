//! An in-memory user registry with an HTTP-facing presentation layer.
//!
//! The registry assigns monotonically increasing identifiers to user
//! records and supports insertion, lookup, listing and removal. The
//! presentation layer renders registry contents as JSON text and parses
//! identifiers out of path segments; the network server around it lives
//! outside this crate.

pub mod http;
pub mod json;
pub mod parse;
pub mod registry;
