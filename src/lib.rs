//! An in-memory task tracker: validated titles, unique increasing ids and a
//! store of immutable task records, with create-and-get operations.

pub mod models;
pub mod error;
pub mod repo;
pub mod state;
pub mod tasks;
pub mod laws;
