//! The client's side of the tunnel.
pub mod config;
pub mod connection;
pub mod datagram;
pub mod fakedns;
pub mod http;
pub mod multiplex;
pub mod service;
pub mod stream;
pub mod transport;
pub mod tun;
