//! A Readyset instance under the name of the host it runs on: other names
//! for the types of [`crate::readyset`].
pub use crate::readyset::{ProxySQLStatus as ProxyStatus, Readyset as Host, ReadysetStatus};
