//! Data model shared by every component: addresses and errors.

pub mod error;
pub mod model;

pub use error::Error;
pub use error::ErrorKind;
pub use model::Address;
pub use model::IpAddr;
pub use model::L4Protocol;
pub use model::SocketAddr;
pub use model::UdpDatagram;
