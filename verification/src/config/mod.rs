//! The server's configuration.
pub mod args;
