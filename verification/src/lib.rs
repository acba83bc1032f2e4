//! Persistence and schema migration for a local task tracker.
//!
//! The on-disk state is a single JSON document pairing a schema version
//! identifier with a list of projects.  This crate holds the verified core:
//! the version catalog, the forward-only migration chain, and the planning
//! logic of the persistence manager.  File access and JSON encoding stay in
//! the surrounding application, which hands parsed values in and writes the
//! returned documents out.

pub mod json;
pub mod migration;
pub mod project;
