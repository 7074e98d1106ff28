//! Settings shared by all services.
use crate::config::net::NetConfig;
use vstd::prelude::*;

verus! {

/// Verbosity of the log.
#[derive(Debug, Clone, Copy, PartialEq, Eq, Structural)]
pub enum Level {
    Error,
    Warn,
    Info,
    Debug,
    Trace,
}

/// Addresses of the databases.
#[derive(Debug, Clone, PartialEq, Eq)]
pub struct DatabaseConfig {
    pub redis: String,
    pub neo4j_uri: String,
}

/// Settings shared by all services.
#[derive(Debug, Clone, PartialEq, Eq)]
pub struct StackConfig {
    pub log_level: Level,
    /// Directory for static files.
    pub files_path: String,
    /// OpenTelemetry endpoint for tracing and monitoring.
    pub otlp_endpoint: Option<String>,
    pub db: DatabaseConfig,
    pub net: NetConfig,
}

} // verus!
