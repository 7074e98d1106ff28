//! The decisions behind Nexus, an indexer of Pubky homeservers.
//!
//! A watcher reads events of homeservers, fetches what they are about and indexes it in a graph
//! and in sorted sets; an HTTP service answers from both. This library holds what these services
//! decide and compute, as functions on plain values with proved contracts: how an event line is
//! read, which error is retried and when, which homeservers a run looks at, which Cypher query
//! answers a request, which page of a stream is returned, what is measured and logged.
//!
//! It performs no input or output. Where a decision takes turns with outside work, it is a state
//! machine: a step names what is to be done next, and takes what came of it.
pub mod config;
pub mod daemon;
pub mod graph;
pub mod post;
pub mod sort;
pub mod telemetry;
pub mod text;
pub mod types;
pub mod uri;
pub mod user;
pub mod watcher;
pub mod webapi;
