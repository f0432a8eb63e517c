//! The terminal interface to a client.

pub mod app;
pub mod draw;
pub mod fetch;
