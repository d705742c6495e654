//! A user-space network stack: what arrives on a TUN device is taken apart into
//! UDP datagrams and TCP streams, and what the application sends is framed again.
pub mod buffer;
pub mod wire;
pub mod stack;
pub mod udp;
pub mod laws;
pub mod stream;
pub mod tcp;
