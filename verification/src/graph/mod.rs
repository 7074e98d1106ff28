//! The graph database: queries, the catalogue of reads and their telemetry.
pub mod bindings;
pub mod catalogue;
pub mod composed;
pub mod error;
pub mod get;
pub mod instrumented;
pub mod laws;
pub mod pattern;
pub mod post_stream;
pub mod query;
