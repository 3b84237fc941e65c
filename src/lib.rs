//! An in-memory store of questions with paginated listing, typed failures and
//! the mapping of those failures to HTTP responses.

pub mod error;
pub mod keyed;
pub mod laws;
pub mod routes;
pub mod store;
pub mod types;
