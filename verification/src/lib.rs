//! A small full-text search service core: per-index schemas, documents,
//! a single-writer index actor with batched commits, and a search pipeline,
//! all built around the tantivy index engine.

pub mod actor;
pub mod doc;
pub mod engine;
pub mod env;
pub mod errors;
pub mod laws;
pub mod person;
pub mod question;
pub mod schema;
pub mod search;
pub mod text;
