//! A local SOCKS5 proxy multiplexer: upstream registry, rotation policies,
//! the client-side SOCKS5 handshake, upstream dialing plans and health
//! probing, each stated and proved with Verus.

pub mod clock;
pub mod commands;
pub mod crypto;
pub mod prober;
pub mod proxy;
pub mod registry;
pub mod rotation;
pub mod selector;
pub mod server;
pub mod socks;
pub mod text;
pub mod upstream;
pub mod vpn;

pub use rotation::RotationMode;
