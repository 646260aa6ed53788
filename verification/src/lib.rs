//! Client-side core of a Gerrit topic synchronizer.
//!
//! The library models Gerrit change data, derives per-project tip commits,
//! matches local repositories to Gerrit project names by their remote URLs,
//! and decides which fetch / checkout operations to run.  Network transport
//! and the version-control commands themselves are left to the caller.

pub mod checkout;
pub mod config;
pub mod entities;
pub mod error;
pub mod fetch;
pub mod gerrit;
pub mod matcher;
pub mod query;
