//! Configuration defaults, the address model, errors, and the validation
//! of the three endpoint URLs.

use tcp2socks::model::error::{Error, ErrorKind};
use tcp2socks::model::model::{Address, IpAddr, SocketAddr};
use tcp2socks::pipeline::{
    DestinationUrl, Pipeline, PipelineError, ProxyUrl, ServerUrl, UrlHost, UrlParts,
};
use tcp2socks::ServerConfig;

fn addr(d: u8, port: u16) -> SocketAddr {
    SocketAddr { ip: IpAddr::V4(127, 0, 0, d), port }
}

fn parts(scheme: &str, host: UrlHost, port: u16, resolved: SocketAddr) -> UrlParts {
    UrlParts {
        scheme: scheme.to_string(),
        host: Some(host),
        port: Some(port),
        resolved: Some(vec![resolved]),
    }
}

#[test]
fn config_has_documented_timeout_defaults() {
    let config = ServerConfig::new(
        addr(1, 1081),
        addr(1, 1080),
        Address::Domain("example.net".to_string(), 80),
    );
    assert_eq!(config.client_rw_timeout, Some(2000));
    assert_eq!(config.server_rw_timeout, Some(5000));
    assert_eq!(config.accept_timeout, Some(3000));
}

#[test]
fn default_config_is_the_loopback_triple() {
    let config = ServerConfig::default();
    assert_eq!(config.server_addr, addr(1, 1081));
    assert_eq!(config.proxy_addr, addr(1, 1080));
    match config.dst_addr {
        Address::IpAddr(ip, port) => {
            assert_eq!(ip, IpAddr::V4(127, 0, 0, 1));
            assert_eq!(port, 80);
        }
        Address::Domain(..) => panic!("the default destination is an IP literal"),
    }
}

#[test]
fn address_port_reads_either_variant() {
    assert_eq!(Address::IpAddr(IpAddr::V4(10, 0, 0, 1), 8080).port(), 8080);
    assert_eq!(Address::Domain("example.net".to_string(), 443).port(), 443);
}

#[test]
fn address_from_socket_addr_keeps_ip_and_port() {
    let a = Address::from(addr(1, 9000));
    match a {
        Address::IpAddr(ip, port) => {
            assert_eq!(ip, IpAddr::V4(127, 0, 0, 1));
            assert_eq!(port, 9000);
        }
        Address::Domain(..) => panic!("a socket address is an IP destination"),
    }
}

#[test]
fn protocol_names_are_printable() {
    assert_eq!(tcp2socks::L4Protocol::Tcp.name(), "Tcp");
    assert_eq!(tcp2socks::L4Protocol::Udp.name(), "Udp");
}

#[test]
fn disconnected_error_names_the_channel() {
    let kind = ErrorKind::disconnected("command".to_string());
    match kind {
        ErrorKind::Disconnected { name } => assert_eq!(name, "command"),
        _ => panic!("wrong kind"),
    }
}

#[test]
fn every_core_error_surfaces_as_io() {
    let surface = tcp2socks::error::Error::from(Error::new(ErrorKind::Io));
    assert_eq!(surface.kind, tcp2socks::error::ErrorKind::Io);
    let surface = tcp2socks::error::Error::from(Error::new(ErrorKind::Disconnected {
        name: "command".to_string(),
    }));
    assert_eq!(surface.kind, tcp2socks::error::ErrorKind::Io);
}

#[test]
fn a_valid_triple_parses() {
    let args = vec![
        parts("tcp", UrlHost::Ip(IpAddr::V4(127, 0, 0, 1)), 1081, addr(1, 1081)),
        parts("socks5h", UrlHost::Ip(IpAddr::V4(127, 0, 0, 1)), 1080, addr(1, 1080)),
        parts("tcp", UrlHost::Domain("example.net".to_string()), 80, addr(1, 80)),
    ];
    let pipeline = Pipeline::parse(&args).unwrap();
    assert_eq!(pipeline.server_addr(), addr(1, 1081));
    assert_eq!(pipeline.proxy_addr(), addr(1, 1080));
    match pipeline.dst_addr() {
        Address::Domain(name, port) => {
            assert_eq!(name, "example.net");
            assert_eq!(port, 80);
        }
        Address::IpAddr(..) => panic!("the destination keeps its domain for the proxy"),
    }
}

#[test]
fn a_pipeline_needs_exactly_three_urls() {
    let args = vec![parts("tcp", UrlHost::Ip(IpAddr::V4(127, 0, 0, 1)), 1081, addr(1, 1081))];
    assert_eq!(Pipeline::parse(&args).unwrap_err(), PipelineError::WrongLength);
}

#[test]
fn server_url_requires_tcp() {
    let p = parts("udp", UrlHost::Ip(IpAddr::V4(127, 0, 0, 1)), 1081, addr(1, 1081));
    assert_eq!(ServerUrl::new(&p).unwrap_err(), PipelineError::UnsupportedProtocol);
    let p = parts("tcp", UrlHost::Ip(IpAddr::V4(127, 0, 0, 1)), 1081, addr(1, 1081));
    assert_eq!(ServerUrl::new(&p).unwrap().socket_addr(), addr(1, 1081));
}

#[test]
fn proxy_url_requires_socks5h() {
    let p = parts("socks5", UrlHost::Ip(IpAddr::V4(127, 0, 0, 1)), 1080, addr(1, 1080));
    assert_eq!(ProxyUrl::new(&p).unwrap_err(), PipelineError::UnsupportedProtocol);
    let p = parts("socks5h", UrlHost::Ip(IpAddr::V4(127, 0, 0, 1)), 1080, addr(1, 1080));
    assert_eq!(ProxyUrl::new(&p).unwrap().socket_addr(), addr(1, 1080));
}

#[test]
fn an_unresolved_endpoint_is_rejected() {
    let mut p = parts("tcp", UrlHost::Domain("example.net".to_string()), 1081, addr(1, 1081));
    p.resolved = None;
    assert_eq!(ServerUrl::new(&p).unwrap_err(), PipelineError::InvalidEndpoint);
}

#[test]
fn an_ambiguous_endpoint_is_rejected() {
    let mut p = parts("tcp", UrlHost::Domain("example.net".to_string()), 1081, addr(1, 1081));
    p.resolved = Some(vec![addr(1, 1081), addr(2, 1081)]);
    assert_eq!(ServerUrl::new(&p).unwrap_err(), PipelineError::NotUniqueSocketAddr);
    p.resolved = Some(Vec::new());
    assert_eq!(ServerUrl::new(&p).unwrap_err(), PipelineError::NotUniqueSocketAddr);
}

#[test]
fn destination_needs_host_and_port() {
    let mut p = parts("tcp", UrlHost::Domain("example.net".to_string()), 80, addr(1, 80));
    p.port = None;
    assert_eq!(DestinationUrl::new(&p).unwrap_err(), PipelineError::MissingHostOrPort);
    let mut p = parts("tcp", UrlHost::Domain("example.net".to_string()), 80, addr(1, 80));
    p.host = None;
    assert_eq!(DestinationUrl::new(&p).unwrap_err(), PipelineError::MissingHostOrPort);
}

#[test]
fn destination_keeps_an_ip_literal() {
    let p = parts("tcp", UrlHost::Ip(IpAddr::V6(0, 0, 0, 0, 0, 0, 0, 1)), 443, addr(1, 443));
    match DestinationUrl::new(&p).unwrap().addr() {
        Address::IpAddr(ip, port) => {
            assert_eq!(ip, IpAddr::V6(0, 0, 0, 0, 0, 0, 0, 1));
            assert_eq!(port, 443);
        }
        Address::Domain(..) => panic!("an IP literal stays an IP"),
    }
}
