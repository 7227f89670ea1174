//! The WebSocket side of the server.
pub mod handler;
pub mod messages;
