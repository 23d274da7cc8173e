//! Core of a small HTTP service offering paginated list and create
//! operations over two resources (notes, users) backed by a relational
//! store.
//!
//! The modules here hold the store-independent logic: how pagination
//! parameters are resolved, how query outcomes are shaped into a uniform
//! response envelope, how a duplicate-key failure is recognised, and which
//! method/path pairs the router binds.  The surrounding process (socket,
//! connection pool, JSON encoding) feeds these functions plain values and
//! carries their results out.

pub mod envelope;
pub mod handler;
pub mod helper;
pub mod model;
pub mod pagination;
pub mod strtool;
