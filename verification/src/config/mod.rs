//! Settings of the services: defaults and what a setting may be.
pub mod api;
pub mod net;
pub mod stack;
pub mod trust;
pub mod watcher;
