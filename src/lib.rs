//! Request-handling core of a small todo service: the data model, the
//! failure taxonomy and its HTTP mapping, the per-request decisions of each
//! handler, and a model of the `todos` table with the laws the service obeys.
pub mod error;
pub mod handlers;
pub mod models;
pub mod table;
pub mod text;
