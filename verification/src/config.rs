//! Server configuration: the one (listen, proxy, destination) triple an
//! instance serves, and its timeouts.

use vstd::prelude::*;
use crate::model::model::{Address, IpAddr, SocketAddr};

verus! {

/// Default timeout, in milliseconds, of relaying one data chunk from the
/// client to the external network.
pub const DEFAULT_CLIENT_RW_TIMEOUT_MS: u64 = 2000;

/// Default timeout, in milliseconds, of relaying one data chunk from the
/// external network to the client.
pub const DEFAULT_SERVER_RW_TIMEOUT_MS: u64 = 5000;

/// Default timeout, in milliseconds, of one wait for a client connection.
pub const DEFAULT_ACCEPT_TIMEOUT_MS: u64 = 3000;

/// Server configuration. Timeouts are in milliseconds and apply per I/O
/// call, never per session; `None` means block indefinitely on that
/// operation.
#[derive(Debug)]
pub struct ServerConfig {
    /// where the server listens for clients
    pub server_addr: SocketAddr,
    /// the upstream SOCKS5 proxy
    pub proxy_addr: SocketAddr,
    /// the fixed destination every connection is relayed to
    pub dst_addr: Address,
    /// timeout of relaying a data chunk from client to external network
    pub client_rw_timeout: Option<u64>,
    /// timeout of relaying a data chunk from external network to client
    pub server_rw_timeout: Option<u64>,
    /// timeout of accepting a connection from a client
    pub accept_timeout: Option<u64>,
}

impl ServerConfig {
    /// A configuration for the given triple, with the default timeouts.
    pub fn new(server_addr: SocketAddr, proxy_addr: SocketAddr, dst_addr: Address) -> (c:
        ServerConfig)
        ensures
            c.server_addr == server_addr,
            c.proxy_addr == proxy_addr,
            c.dst_addr == dst_addr,
            c.client_rw_timeout == Some(DEFAULT_CLIENT_RW_TIMEOUT_MS),
            c.server_rw_timeout == Some(DEFAULT_SERVER_RW_TIMEOUT_MS),
            c.accept_timeout == Some(DEFAULT_ACCEPT_TIMEOUT_MS),
    {
        ServerConfig {
            server_addr,
            proxy_addr,
            dst_addr,
            client_rw_timeout: Some(DEFAULT_CLIENT_RW_TIMEOUT_MS),
            server_rw_timeout: Some(DEFAULT_SERVER_RW_TIMEOUT_MS),
            accept_timeout: Some(DEFAULT_ACCEPT_TIMEOUT_MS),
        }
    }
}

impl Clone for ServerConfig {
    fn clone(&self) -> (c: ServerConfig)
        ensures
            c == *self,
    {
        ServerConfig {
            server_addr: self.server_addr,
            proxy_addr: self.proxy_addr,
            dst_addr: self.dst_addr.clone(),
            client_rw_timeout: self.client_rw_timeout,
            server_rw_timeout: self.server_rw_timeout,
            accept_timeout: self.accept_timeout,
        }
    }
}

impl Default for ServerConfig {
    /// The loopback defaults: listen on port 1081, proxy on port 1080,
    /// destination port 80, all on this host.
    fn default() -> (c: ServerConfig)
        ensures
            c.server_addr == (SocketAddr { ip: IpAddr::V4(127, 0, 0, 1), port: 1081 }),
            c.proxy_addr == (SocketAddr { ip: IpAddr::V4(127, 0, 0, 1), port: 1080 }),
            c.dst_addr == Address::IpAddr(IpAddr::V4(127, 0, 0, 1), 80),
            c.client_rw_timeout == Some(DEFAULT_CLIENT_RW_TIMEOUT_MS),
            c.server_rw_timeout == Some(DEFAULT_SERVER_RW_TIMEOUT_MS),
            c.accept_timeout == Some(DEFAULT_ACCEPT_TIMEOUT_MS),
    {
        ServerConfig::new(
            SocketAddr { ip: IpAddr::V4(127, 0, 0, 1), port: 1081 },
            SocketAddr { ip: IpAddr::V4(127, 0, 0, 1), port: 1080 },
            Address::IpAddr(IpAddr::V4(127, 0, 0, 1), 80),
        )
    }
}

} // verus!
