//! The server's side of the tunnel.
pub mod config;
pub mod connection;
pub mod datagram;
pub mod dns;
pub mod service;
pub mod stream;
pub mod transport;
