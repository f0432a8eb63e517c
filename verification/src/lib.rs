//! The verified core of a load balancing proxy: addresses and framing, backend
//! metrics, host rules, load balancing, connection state machines, certificate
//! helpers and the state of the terminal interface.

pub mod addr;
pub mod client;
pub mod config;
pub mod easycert;
pub mod handshake;
pub mod metric;
pub mod proxy;
pub mod proxy_client;
pub mod server;
pub mod text;
pub mod tls;
pub mod tui;
pub mod uri;

