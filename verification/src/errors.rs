//! Error taxonomy of the service core.

use vstd::prelude::*;

verus! {

/// Per-message failure of the index actor. Non-fatal: the message is
/// dropped and the actor goes on.
#[derive(Debug)]
pub enum IndexError {
    /// The schema has no `id` field, or the document carries no `id` value.
    FieldMissing(String),
    /// The engine failed to commit; the pending batch stays and the next
    /// commit tick retries.
    CommitFailed(String),
}

/// Failure while opening or creating an index at startup. Fatal: startup halts.
#[derive(Debug)]
pub enum BootstrapError {
    Fatal(String),
}

/// Failure of a search request.
#[derive(Debug)]
pub enum SearchError {
    /// The query string did not parse.
    QueryParse(String),
    /// The engine failed while running the query or loading a result.
    SearchFailed(String),
}

/// Outcome of asking the engine to open an existing on-disk index.
#[derive(Debug)]
pub enum OpenError {
    /// An index exists there but its schema differs from the requested one.
    SchemaMismatch(String),
    /// Any other failure.
    Other(String),
}

impl IndexError {
    /// A plain rendering for logs.
    pub fn message(&self) -> (r: &String) {
        match self {
            IndexError::FieldMissing(m) => m,
            IndexError::CommitFailed(m) => m,
        }
    }
}

impl SearchError {
    /// A plain rendering for logs.
    pub fn message(&self) -> (r: &String) {
        match self {
            SearchError::QueryParse(m) => m,
            SearchError::SearchFailed(m) => m,
        }
    }
}

} // verus!
