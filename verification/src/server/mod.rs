//! The server side: it opens tunnels for its clients.

pub mod config;
pub mod proxy;
