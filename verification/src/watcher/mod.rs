//! The watcher: what it makes of homeserver events and of what goes wrong with them.
pub mod builder;
pub mod errors;
pub mod event;
pub mod fetch;
pub mod handlers;
pub mod homeserver;
pub mod key_based;
pub mod retry;
pub mod runner;
