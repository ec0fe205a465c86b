//! Query composition, connection policy, startup control and quote selection
//! for a read-only catalogue of philosophical quotes served over HTTP.
//!
//! The library holds the logic; the HTTP server, the database drivers and the
//! process lifecycle live in the binary around it.

pub mod dialect;
pub mod errors;
pub mod models;
pub mod pool;
pub mod query;
pub mod readiness;
pub mod selector;
