//! Users: who may be ingested.
pub mod ingestor;
