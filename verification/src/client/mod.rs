//! The client side: it takes proxy requests and spreads them over backends.

pub mod backends;
pub mod balance;
pub mod config;
pub mod connector;
pub mod control;
pub mod metric;
pub mod peer;
pub mod proxy;
pub mod rules;
