//! The decision core of a small HTTP backend: paginated read access to a table
//! of messages and a single timestamp object kept in a blob store.
//!
//! Nothing in this crate performs I/O. A host hands each request to
//! [`routes::dispatch`], carries out the effect that it is told to, reports
//! the outcome to [`routes::resume`], and goes on until it is handed a reply.
//! [`memory::Memory`] is such a host, with both stores in memory.

pub mod clock;
pub mod config;
pub mod db;
pub mod error;
pub mod memory;
pub mod models;
pub mod reply;
pub mod routes;
pub mod s3;
pub mod table;
