//! The state of a server in the router's server table, under the name the
//! router's documentation gives it: another name for
//! [`crate::readyset::ProxySQLStatus`].
pub use crate::readyset::ProxySQLStatus as ServerStatus;
