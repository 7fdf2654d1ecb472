//! A small library for a dual-backend demo service: it coordinates one write
//! (or read) against a document store together with one against a search
//! index, joins both results unconditionally, and aggregates them into a
//! combined outcome whose status degrades to a partial failure whenever any
//! sub-operation failed.
//!
//! The backends themselves are reached over the network by the surrounding
//! binary; this crate holds the decision logic: outcome aggregation, the
//! HTTP status mapping, the view counter semantics, record generation, the
//! startup configuration rules, and the rendering of the response bodies.

pub mod config;
pub mod coordinator;
pub mod counter;
pub mod json;
pub mod outcome;
pub mod record;
