//! A verified core for a task service: create, read, update and delete
//! records held in a key-addressed field store, with an existence guard
//! in front of each operation and a field-level merge rule for updates.

pub mod common;
pub mod config;
pub mod guard;
pub mod laws;
pub mod merge;
pub mod outcome;
pub mod store;
pub mod tasks;
pub mod wallet;
