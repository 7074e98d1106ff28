//! Builder of the watcher's settings.
use crate::config::stack::{DatabaseConfig, Level, StackConfig};
use crate::config::watcher::WatcherConfig;
use crate::uri::PubkyId;
use vstd::prelude::*;

verus! {

/// Settings that the watcher is started with.
#[derive(Debug, Clone, PartialEq, Eq)]
pub struct NexusWatcherBuilder(pub WatcherConfig);

impl NexusWatcherBuilder {
    /// Creates a `NexusWatcherBuilder` instance with the given configuration and stack settings.
    pub fn with_stack(config: WatcherConfig, stack: StackConfig) -> (r: Self)
        ensures
            r.0 == (WatcherConfig { stack, ..config }),
    {
        NexusWatcherBuilder(WatcherConfig { stack, ..config })
    }

    /// Configures the logging level for the service, determining verbosity and log output
    pub fn log_level(&mut self, log_level: Level) -> (r: &mut Self)
        ensures
            r.0 == (WatcherConfig {
                stack: StackConfig { log_level, ..old(self).0.stack },
                ..old(self).0
            }),
            *final(self) == *final(r),
    {
        self.0.stack.log_level = log_level;
        self
    }

    /// Sets the prioritized homeserver
    pub fn homeserver(&mut self, homeserver: PubkyId) -> (r: &mut Self)
        ensures
            r.0 == (WatcherConfig { homeserver, ..old(self).0 }),
            *final(self) == *final(r),
    {
        self.0.homeserver = homeserver;
        self
    }

    /// Sets the directory for storing static files on the server
    pub fn files_path(&mut self, files_path: String) -> (r: &mut Self)
        ensures
            r.0 == (WatcherConfig {
                stack: StackConfig { files_path, ..old(self).0.stack },
                ..old(self).0
            }),
            *final(self) == *final(r),
    {
        self.0.stack.files_path = files_path;
        self
    }

    /// Sets the OpenTelemetry endpoint for tracing and monitoring
    pub fn otlp_endpoint(&mut self, otlp_endpoint: Option<String>) -> (r: &mut Self)
        ensures
            r.0 == (WatcherConfig {
                stack: StackConfig { otlp_endpoint, ..old(self).0.stack },
                ..old(self).0
            }),
            *final(self) == *final(r),
    {
        self.0.stack.otlp_endpoint = otlp_endpoint;
        self
    }

    /// Sets the database configuration, including graph database and Redis settings
    pub fn db(&mut self, db: DatabaseConfig) -> (r: &mut Self)
        ensures
            r.0 == (WatcherConfig {
                stack: StackConfig { db, ..old(self).0.stack },
                ..old(self).0
            }),
            *final(self) == *final(r),
    {
        self.0.stack.db = db;
        self
    }
}

} // verus!
