//! A small HTTP health-check service backed by a bounded PostgreSQL
//! connection pool: the pool factory, the error mapping and the request
//! handler's decisions, each with its contract.
pub mod error;
pub mod handler;
pub mod pool;
