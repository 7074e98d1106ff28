//! The HTTP service: its middleware, limits, context and presence in the DHT.
pub mod context;
pub mod key_republisher;
pub mod routes;
pub mod tracing;
