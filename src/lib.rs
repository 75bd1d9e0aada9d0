//! Migration of API keys between two accounts of a key and usage-plan store.
//!
//! The library holds the decisions of a migration run: what to list, what to
//! create, which keys to attach to a usage plan and which to delete. The calls
//! to the remote store are made by the caller, which hands each reply back.

pub mod model;
pub mod error;
pub mod rename;
pub mod provision;
pub mod attach;
pub mod delete;
pub mod enumerate;
pub mod run;
