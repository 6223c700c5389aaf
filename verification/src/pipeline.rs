//! Startup validation of the three endpoint URLs.
//!
//! One instance serves one `(server, proxy, destination)` triple, given as
//! `tcp://host:port`, `socks5h://host:port` and `tcp://host:port`. URL
//! syntax and name resolution happen outside the library; what arrives
//! here is each URL's scheme, host, port and resolved socket addresses as
//! plain values, and the rules below decide, exactly, what is accepted.

use vstd::prelude::*;
use crate::model::model::{Address, IpAddr, SocketAddr};

verus! {

/// The host part of a parsed URL.
#[derive(Debug)]
pub enum UrlHost {
    Domain(String),
    Ip(IpAddr),
}

/// One parsed endpoint URL, reduced to the values validation reads: its
/// scheme, its host and port if present, and the socket addresses it
/// resolves to (`None` when resolution failed).
#[derive(Debug)]
pub struct UrlParts {
    pub scheme: String,
    pub host: Option<UrlHost>,
    pub port: Option<u16>,
    pub resolved: Option<Vec<SocketAddr>>,
}

/// Why an endpoint URL, or the triple as a whole, was rejected.
#[derive(Clone, Copy, Debug, PartialEq, Eq, Structural)]
pub enum PipelineError {
    /// The pipeline must be exactly (server, proxy, destination).
    WrongLength,
    /// The URL's scheme is not the one supported for its position.
    UnsupportedProtocol,
    /// The URL did not resolve to socket addresses at all; an endpoint URL
    /// must be of the form `protocol://host:port`.
    InvalidEndpoint,
    /// The URL must resolve to exactly one socket address.
    NotUniqueSocketAddr,
    /// The destination URL carries no host or no port.
    MissingHostOrPort,
}

/// The unique socket address an endpoint URL stands for, or why there is
/// none.
pub open spec fn spec_unique_addr(resolved: Option<Vec<SocketAddr>>) -> Result<
    SocketAddr,
    PipelineError,
> {
    match resolved {
        None => Err(PipelineError::InvalidEndpoint),
        Some(xs) => if xs@.len() == 1 {
            Ok(xs@[0])
        } else {
            Err(PipelineError::NotUniqueSocketAddr)
        },
    }
}

/// Accepts an endpoint URL's resolution exactly when it produced one
/// socket address, and returns that address.
pub fn validate_socket_addr_contained_unique(resolved: &Option<Vec<SocketAddr>>) -> (r: Result<
    SocketAddr,
    PipelineError,
>)
    ensures
        r == spec_unique_addr(*resolved),
{
    match resolved {
        None => Err(PipelineError::InvalidEndpoint),
        Some(xs) => {
            if xs.len() == 1 {
                Ok(xs[0])
            } else {
                Err(PipelineError::NotUniqueSocketAddr)
            }
        },
    }
}

/// The validated listen endpoint: `tcp://`, one socket address.
#[derive(Clone, Copy, Debug, PartialEq, Eq, Structural)]
pub struct ServerUrl(pub SocketAddr);

/// The validated proxy endpoint: `socks5h://` — remote, proxy-side name
/// resolution — and one socket address.
#[derive(Clone, Copy, Debug, PartialEq, Eq, Structural)]
pub struct ProxyUrl(pub SocketAddr);

/// The validated destination: `tcp://`, host and port kept as given; a
/// domain name is left for the proxy to resolve.
#[derive(Debug)]
pub struct DestinationUrl(pub Address);

/// What `ServerUrl::new` accepts: the scheme must be `tcp` and the URL
/// must stand for exactly one socket address.
pub open spec fn spec_server_url(parts: UrlParts) -> Result<ServerUrl, PipelineError> {
    if parts.scheme@ != "tcp"@ {
        Err(PipelineError::UnsupportedProtocol)
    } else {
        match spec_unique_addr(parts.resolved) {
            Ok(addr) => Ok(ServerUrl(addr)),
            Err(e) => Err(e),
        }
    }
}

impl ServerUrl {
    /// Validates the server URL.
    pub fn new(parts: &UrlParts) -> (r: Result<ServerUrl, PipelineError>)
        ensures
            r == spec_server_url(*parts),
    {
        let tcp: String = "tcp".to_owned();
        if !(parts.scheme == tcp) {
            return Err(PipelineError::UnsupportedProtocol);
        }
        match validate_socket_addr_contained_unique(&parts.resolved) {
            Ok(addr) => Ok(ServerUrl(addr)),
            Err(e) => Err(e),
        }
    }

    /// The one socket address the server listens on.
    pub fn socket_addr(&self) -> (a: SocketAddr)
        ensures
            a == self.0,
    {
        self.0
    }
}

/// What `ProxyUrl::new` accepts: the scheme must be `socks5h` — the only
/// supported proxy protocol — and the URL must stand for exactly one
/// socket address.
pub open spec fn spec_proxy_url(parts: UrlParts) -> Result<ProxyUrl, PipelineError> {
    if parts.scheme@ != "socks5h"@ {
        Err(PipelineError::UnsupportedProtocol)
    } else {
        match spec_unique_addr(parts.resolved) {
            Ok(addr) => Ok(ProxyUrl(addr)),
            Err(e) => Err(e),
        }
    }
}

impl ProxyUrl {
    /// Validates the proxy URL.
    pub fn new(parts: &UrlParts) -> (r: Result<ProxyUrl, PipelineError>)
        ensures
            r == spec_proxy_url(*parts),
    {
        let socks5h: String = "socks5h".to_owned();
        if !(parts.scheme == socks5h) {
            return Err(PipelineError::UnsupportedProtocol);
        }
        match validate_socket_addr_contained_unique(&parts.resolved) {
            Ok(addr) => Ok(ProxyUrl(addr)),
            Err(e) => Err(e),
        }
    }

    /// The one socket address of the upstream proxy.
    pub fn socket_addr(&self) -> (a: SocketAddr)
        ensures
            a == self.0,
    {
        self.0
    }
}

/// What `DestinationUrl::new` accepts: the scheme must be `tcp`, and both
/// a host and a port must be present. The host is kept as given — an IP
/// literal as an address, a domain name unresolved.
pub open spec fn spec_destination_url(parts: UrlParts) -> Result<DestinationUrl, PipelineError> {
    if parts.scheme@ != "tcp"@ {
        Err(PipelineError::UnsupportedProtocol)
    } else {
        match (parts.host, parts.port) {
            (Some(UrlHost::Domain(name)), Some(port)) => Ok(
                DestinationUrl(Address::Domain(name, port)),
            ),
            (Some(UrlHost::Ip(ip)), Some(port)) => Ok(DestinationUrl(Address::IpAddr(ip, port))),
            _ => Err(PipelineError::MissingHostOrPort),
        }
    }
}

impl DestinationUrl {
    /// Validates the destination URL.
    pub fn new(parts: &UrlParts) -> (r: Result<DestinationUrl, PipelineError>)
        ensures
            r == spec_destination_url(*parts),
    {
        let tcp: String = "tcp".to_owned();
        if !(parts.scheme == tcp) {
            return Err(PipelineError::UnsupportedProtocol);
        }
        match (&parts.host, &parts.port) {
            (Some(UrlHost::Domain(name)), Some(port)) => Ok(
                DestinationUrl(Address::Domain(name.clone(), *port)),
            ),
            (Some(UrlHost::Ip(ip)), Some(port)) => Ok(DestinationUrl(Address::IpAddr(*ip, *port))),
            _ => Err(PipelineError::MissingHostOrPort),
        }
    }

    /// The destination address the relay will connect to, via the proxy.
    pub fn addr(&self) -> (a: Address)
        ensures
            a == self.0,
    {
        self.0.clone()
    }
}

/// The validated triple.
#[derive(Debug)]
pub struct Pipeline {
    pub src: ServerUrl,
    pub proxy: ProxyUrl,
    pub dst: DestinationUrl,
}

/// What `Pipeline::parse` accepts: exactly three URLs, each valid for its
/// position.
pub open spec fn spec_pipeline(args: Seq<UrlParts>) -> Result<Pipeline, PipelineError> {
    if args.len() != 3 {
        Err(PipelineError::WrongLength)
    } else {
        match spec_server_url(args[0]) {
            Err(e) => Err(e),
            Ok(src) => match spec_proxy_url(args[1]) {
                Err(e) => Err(e),
                Ok(proxy) => match spec_destination_url(args[2]) {
                    Err(e) => Err(e),
                    Ok(dst) => Ok(Pipeline { src, proxy, dst }),
                },
            },
        }
    }
}

impl Pipeline {
    /// Validates the (server, proxy, destination) triple.
    pub fn parse(args: &Vec<UrlParts>) -> (r: Result<Pipeline, PipelineError>)
        ensures
            r == spec_pipeline(args@),
    {
        if args.len() != 3 {
            return Err(PipelineError::WrongLength);
        }
        let src = match ServerUrl::new(&args[0]) {
            Ok(src) => src,
            Err(e) => {
                return Err(e);
            },
        };
        let proxy = match ProxyUrl::new(&args[1]) {
            Ok(proxy) => proxy,
            Err(e) => {
                return Err(e);
            },
        };
        let dst = match DestinationUrl::new(&args[2]) {
            Ok(dst) => dst,
            Err(e) => {
                return Err(e);
            },
        };
        Ok(Pipeline { src, proxy, dst })
    }

    /// The listen address.
    pub fn server_addr(&self) -> (a: SocketAddr)
        ensures
            a == self.src.0,
    {
        self.src.socket_addr()
    }

    /// The proxy address.
    pub fn proxy_addr(&self) -> (a: SocketAddr)
        ensures
            a == self.proxy.0,
    {
        self.proxy.socket_addr()
    }

    /// The destination address.
    pub fn dst_addr(&self) -> (a: Address)
        ensures
            a == self.dst.0,
    {
        self.dst.addr()
    }
}

} // verus!
