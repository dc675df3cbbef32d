//! A scheduler that keeps a SQL router and its Readyset caches in step.
//!
//! Each run does two things. The health sweep asks every Readyset instance for
//! its status and moves the router's server table to match. Query discovery
//! ranks the read queries that pass through the router, asks Readyset whether
//! it can cache each of them, creates the caches and adds the routing rules.
//!
//! The library decides and words every statement; it never opens a socket. A
//! driver sends each [`sql_connection::Command`] it is handed and answers with
//! a [`sql_connection::Reply`].
pub mod clock;
pub mod config;
pub mod hosts;
pub mod laws;
pub mod messages;
pub mod proxysql;
pub mod queries;
pub mod readyset;
pub mod server;
pub mod sql_connection;
pub mod text;
