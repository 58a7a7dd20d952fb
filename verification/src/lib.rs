//! A reactive entity-persistence core.
//!
//! Typed entities are written to a key/value store with a derived property
//! index, and every write or delete is fanned out to the handlers registered
//! for its `(action, kind)` pair. Handler responses may carry further
//! entities, which re-enter the pipeline. A separate signal channel routes a
//! request entity to exactly one handler and returns its single answer.
//!
//! Everything in this crate computes: it decides which statements the store
//! runs, which handlers a dispatch reaches and what a response means. Running
//! the statements and awaiting the handlers is left to the caller.

pub mod action;
pub mod text;
pub mod digits;
pub mod entity;
pub mod predicate;
pub mod sql;
pub mod store;
pub mod datastore;
pub mod tables;
pub mod registry;
pub mod dispatcher;
pub mod json;
pub mod util;
pub mod demo;
pub mod flux;
pub mod flux_state;
pub mod rx;
pub mod rx_store;
pub mod naming;
