//! Verified core of an authorization worker that keeps relationship tuples
//! in a SQL table: the tuple model, the SQL statements it issues, the
//! decisions taken between its storage and network round trips, and the
//! structured log records it emits.

pub mod tuple;
pub mod sql;
pub mod store;
pub mod query;
pub mod json;
pub mod log;
pub mod http;
pub mod check;
