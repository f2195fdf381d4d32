//! Listeners and acceptors: the TLS termination layer.

pub mod acceptor;
pub mod rustls;
