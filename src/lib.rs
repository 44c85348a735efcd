//! A per-user service supervisor: the decisions behind starting, stopping,
//! observing and restarting named services, over a configuration that every
//! actor reads and writes whole.
pub mod table;
pub mod launch;
pub mod model;
pub mod lifecycle;
pub mod server;
pub mod questions;
