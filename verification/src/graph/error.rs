//! Errors of the graph database.
use vstd::prelude::*;

verus! {

/// Why a graph operation failed.
#[derive(Debug, Clone, PartialEq, Eq)]
pub enum GraphError {
    /// The query cannot be built for what was asked.
    QueryBuildError(String),
    /// The query ran out of its time budget.
    QueryTimeout,
    /// The database reported an error.
    Database(String),
}

} // verus!
