//! Questions and answers behind one small API: validated pagination, a closed
//! set of failures with their HTTP statuses, and the record stores.

pub mod error;
pub mod number;
pub mod relational;
pub mod reply;
pub mod routes;
pub mod store;
pub mod types;
