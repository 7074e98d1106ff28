//! Posts: where a stream takes them from and how it is assembled.
pub mod index;
pub mod source;
pub mod stream;
