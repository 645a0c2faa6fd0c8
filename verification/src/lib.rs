//! A two-stage generation pipeline: a request in natural language is
//! classified into an archetype, a bundle of reference schemas is assembled
//! for that archetype, a schema is generated against that bundle, and the
//! result is recorded under a fresh name in an append-only index.
//!
//! Everything here works on plain values. The model and the file system are
//! not reached from this crate: the run of one request is a state machine
//! whose driver performs each action and hands back what happened.

pub mod text;
pub mod json;
pub mod message;
pub mod catalog;
pub mod error;
pub mod prompt;
pub mod store;
pub mod pipeline;
