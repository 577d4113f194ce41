//! The access check of a transaction that was run.

pub mod access_permissions;
pub mod laws;
pub mod outcomes;
pub mod privileged_access;
