//! A small service over one collection of crab records: the records, the
//! responses, and the decisions that each request handler takes between its
//! waits on the connection pool and the database.

pub mod basics;
pub mod record;
pub mod response;
pub mod handler;
pub mod failure;
pub mod guarantees;
pub mod lifecycle;
