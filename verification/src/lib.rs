//! The decision-making core of the ombrac tunnel: wire formats, configuration
//! layering, connection life cycles and the user-space network stack, stated
//! as contracts and proved.
pub mod address;
pub mod buf;
pub mod client;
pub mod congestion;
pub mod error;
pub mod ffi;
pub mod layer;
pub mod logging;
pub mod netstack;
pub mod path;
pub mod secret;
pub mod server;
pub mod socks;
pub mod text;
pub mod time;
pub mod transport;
pub mod tunnel;
