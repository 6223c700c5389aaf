//! A TCP-to-SOCKS5 relay library.
//!
//! The library holds the verified core of a proxy server that accepts plain
//! TCP connections and relays their byte stream to a fixed destination
//! through an upstream SOCKS5 proxy: the address and configuration model,
//! the per-direction relay state machine with cooperative cancellation, the
//! exactly-once disconnect notification guard, and the server's session
//! registry and lifecycle. The blocking I/O, the threads and the SOCKS5
//! handshake live outside the library and drive these state machines.

pub mod config;
pub mod error;
pub mod model;
pub mod pipeline;
pub mod relay;
pub mod server;
pub mod server_command;
pub mod session;

pub use config::ServerConfig;
pub use model::model::Address;
pub use model::model::IpAddr;
pub use model::model::L4Protocol;
pub use model::model::SocketAddr;
pub use model::model::UdpDatagram;
pub use server::Server;
pub use server_command::ServerCommand;
