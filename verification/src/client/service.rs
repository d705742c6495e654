//! The client as a service: which transport it uses, and which endpoints it
//! starts.
use std::path::PathBuf;
use std::str::FromStr;
use vstd::prelude::*;

use crate::address::{Ipv4Addr, Ipv6Addr, SocketAddr};
use crate::congestion::Congestion;
use crate::error::{Error as IoError, ErrorKind};
use crate::text::{before_last_colon, split_host};
use crate::time::{Duration, NANOS_PER_MILLI};

use super::config::{EndpointConfig, TlsMode, TransportConfig, TunConfig};

verus! {

/// Why a service could not be built.
pub enum Error {
    Io(IoError),
    Config(String),
    Endpoint(String),
}

/// The name that the server has to prove: the one that was set, or else the
/// server's address without the port.
pub fn server_name(server: &str, explicit: &Option<String>) -> (r: Result<String, IoError>)
    ensures
        match explicit {
            Some(name) => r matches Ok(s) && s@ == name@,
            None => match before_last_colon(server@) {
                Some(host) => r matches Ok(s) && s@ == host,
                None => r matches Err(e) && e.reads(
                    ErrorKind::InvalidInput,
                    "invalid server address: "@ + server@,
                ),
            },
        },
{
    match explicit {
        Some(name) => Ok(name.clone()),
        None => match split_host(server) {
            Some(host) => Ok(host),
            None => {
                let mut message = "invalid server address: ".to_owned();
                message.append(server);
                Err(IoError::with_message(ErrorKind::InvalidInput, message))
            },
        },
    }
}

/// The address of the server: the first that its name resolves to.
pub fn server_addr(server: &str, resolved: &Vec<SocketAddr>) -> (r: Result<SocketAddr, IoError>)
    ensures
        if resolved@.len() > 0 {
            r == Ok::<SocketAddr, IoError>(resolved@[0])
        } else {
            r matches Err(e) && e.reads(
                ErrorKind::NotFound,
                "failed to resolve server address: '"@ + server@ + "'"@,
            )
        },
{
    if resolved.len() > 0 {
        return Ok(resolved[0]);
    }
    let mut message = "failed to resolve server address: '".to_owned();
    message.append(server);
    message.append("'");
    Err(IoError::with_message(ErrorKind::NotFound, message))
}

/// What the QUIC client is made with. What is not set stays at the transport's
/// own default.
pub struct QuicClientConfig {
    pub server_addr: SocketAddr,
    pub server_name: String,
    /// The local address, where one was set.
    pub bind: Option<SocketAddr>,
    pub enable_zero_rtt: bool,
    pub alpn_protocols: Option<Vec<Vec<u8>>>,
    pub root_ca_path: Option<PathBuf>,
    pub client_cert_key_paths: Option<(PathBuf, PathBuf)>,
    pub skip_server_verification: bool,
    pub max_idle_timeout: Option<Duration>,
    pub keep_alive_period: Option<Duration>,
    pub max_streams: Option<u64>,
    /// The algorithm, and the window that it starts with.
    pub congestion: Option<(Congestion, Option<u64>)>,
}

/// What is missing for a mode, in the order in which it is asked for: mutual TLS
/// needs the authority's certificate and both of the client's files.
pub open spec fn missing_for_tls(transport: TransportConfig) -> Option<Seq<char>> {
    if transport.tls_mode == Some(TlsMode::MTls) {
        if transport.ca_cert is None {
            Some("ca cert is required for mutual tls mode"@)
        } else if transport.client_cert is None {
            Some("client cert is required for mutual tls mode"@)
        } else if transport.client_key is None {
            Some("client key is required for mutual tls mode"@)
        } else {
            None
        }
    } else {
        None
    }
}

/// A number of milliseconds.
pub open spec fn is_millis(d: Option<Duration>, millis: Option<u64>) -> bool {
    match millis {
        Some(n) => d matches Some(d) && d.nanos == n * NANOS_PER_MILLI,
        None => d is None,
    }
}

fn millis(n: Option<u64>) -> (d: Option<Duration>)
    ensures
        is_millis(d, n),
{
    match n {
        Some(n) => Some(Duration::from_millis(n)),
        None => None,
    }
}

fn invalid_input(message: &str) -> (e: IoError)
    ensures
        e.reads(ErrorKind::InvalidInput, message@),
{
    IoError::new(ErrorKind::InvalidInput, message)
}

/// What the QUIC client is made with. Certificates are taken up as far as the TLS
/// mode has a use for them.
pub fn quic_client_from_config(
    transport: TransportConfig,
    server_addr: SocketAddr,
    server_name: String,
) -> (r: Result<QuicClientConfig, IoError>)
    ensures
        match missing_for_tls(transport) {
            Some(m) => r matches Err(e) && e.reads(ErrorKind::InvalidInput, m),
            None => r matches Ok(q) && {
                &&& q.server_addr == server_addr
                &&& q.server_name == server_name
                &&& q.bind == transport.bind
                &&& q.enable_zero_rtt == (transport.zero_rtt == Some(true))
                &&& q.alpn_protocols == transport.alpn_protocols
                &&& q.root_ca_path == if transport.tls_mode == Some(TlsMode::Insecure) {
                    None
                } else {
                    transport.ca_cert
                }
                &&& q.client_cert_key_paths == if transport.tls_mode == Some(TlsMode::MTls) {
                    Some((transport.client_cert->0, transport.client_key->0))
                } else {
                    None
                }
                &&& q.skip_server_verification == (transport.tls_mode == Some(TlsMode::Insecure))
                &&& is_millis(q.max_idle_timeout, transport.idle_timeout)
                &&& is_millis(q.keep_alive_period, transport.keep_alive)
                &&& q.max_streams == transport.max_streams
                &&& q.congestion == match transport.congestion {
                    Some(c) => Some((c, transport.cwnd_init)),
                    None => None,
                }
            },
        },
{
    let mut config = QuicClientConfig {
        server_addr,
        server_name,
        bind: transport.bind,
        enable_zero_rtt: transport.zero_rtt.unwrap_or(false),
        alpn_protocols: transport.alpn_protocols,
        root_ca_path: None,
        client_cert_key_paths: None,
        skip_server_verification: false,
        max_idle_timeout: millis(transport.idle_timeout),
        keep_alive_period: millis(transport.keep_alive),
        max_streams: transport.max_streams,
        congestion: match transport.congestion {
            Some(c) => Some((c, transport.cwnd_init)),
            None => None,
        },
    };
    match transport.tls_mode.unwrap_or(TlsMode::Tls) {
        TlsMode::Tls => {
            config.root_ca_path = transport.ca_cert;
        },
        TlsMode::MTls => {
            let ca = match transport.ca_cert {
                Some(ca) => ca,
                None => return Err(invalid_input("ca cert is required for mutual tls mode")),
            };
            let cert = match transport.client_cert {
                Some(cert) => cert,
                None => return Err(invalid_input("client cert is required for mutual tls mode")),
            };
            let key = match transport.client_key {
                Some(key) => key,
                None => return Err(invalid_input("client key is required for mutual tls mode")),
            };
            config.root_ca_path = Some(ca);
            config.client_cert_key_paths = Some((cert, key));
        },
        TlsMode::Insecure => {
            config.skip_server_verification = true;
        },
    }
    Ok(config)
}

/// Which endpoints a client starts.
#[derive(Clone, Copy, Debug, PartialEq, Eq, Structural)]
pub struct Endpoints {
    pub http: bool,
    pub socks: bool,
    pub tun: bool,
}

/// Whether the TUN device is more than its defaults: it has an address of its own
/// or exists already.
pub open spec fn tun_enabled(tun: Option<TunConfig>) -> bool {
    tun matches Some(t) && (t.tun_ipv4 is Some || t.tun_ipv6 is Some || t.tun_fd is Some)
}

/// Which endpoints a client starts. With none it has nothing to do.
pub fn build(endpoint: &EndpointConfig) -> (r: Result<Endpoints, Error>)
    ensures
        if endpoint.http is None && endpoint.socks is None && !tun_enabled(endpoint.tun) {
            r matches Err(Error::Config(m)) && m@
                == "no endpoints were configured or enabled, the service has nothing to do."@
        } else {
            r == Ok::<Endpoints, Error>(
                Endpoints {
                    http: endpoint.http is Some,
                    socks: endpoint.socks is Some,
                    tun: tun_enabled(endpoint.tun),
                },
            )
        },
{
    let http: bool = endpoint.http.is_some();
    let socks: bool = endpoint.socks.is_some();
    let tun: bool = match &endpoint.tun {
        Some(t) => t.tun_ipv4.is_some() || t.tun_ipv6.is_some() || t.tun_fd.is_some(),
        None => false,
    };
    if !http && !socks && !tun {
        return Err(
            Error::Config(
                "no endpoints were configured or enabled, the service has nothing to do.".to_owned(),
            ),
        );
    }
    Ok(Endpoints { http, socks, tun })
}

/// An IPv4 network in CIDR notation, as `ipnet` reads it: the octets of the
/// address, and the length of the prefix.
pub uninterp spec fn ipv4_cidr(s: Seq<char>) -> Option<(Seq<u8>, u8)>;

/// An IPv6 network in CIDR notation, as `ipnet` reads it: the octets of the
/// address, and the length of the prefix.
pub uninterp spec fn ipv6_cidr(s: Seq<char>) -> Option<(Seq<u8>, u8)>;

/// `Ipv4Net::from_str`: the address, with its host bits, and the length of the
/// prefix, which is at most 32. What is no network has one message for all.
#[verifier::external_body]
fn parse_ipv4_net(s: &str) -> (r: Result<(Ipv4Addr, u8), String>)
    ensures
        match r {
            Ok((a, n)) => ipv4_cidr(s@) == Some((a@, n)) && n <= 32,
            Err(m) => ipv4_cidr(s@) is None && m@ == "invalid IP address syntax"@,
        },
{
    match ipnet::Ipv4Net::from_str(s) {
        Ok(net) => Ok((Ipv4Addr { octets: net.addr().octets() }, net.prefix_len())),
        Err(e) => Err(e.to_string()),
    }
}

/// `Ipv6Net::from_str`: the address, with its host bits, and the length of the
/// prefix, which is at most 128. What is no network has one message for all.
#[verifier::external_body]
fn parse_ipv6_net(s: &str) -> (r: Result<(Ipv6Addr, u8), String>)
    ensures
        match r {
            Ok((a, n)) => ipv6_cidr(s@) == Some((a@, n)) && n <= 128,
            Err(m) => ipv6_cidr(s@) is None && m@ == "invalid IP address syntax"@,
        },
{
    match ipnet::Ipv6Net::from_str(s) {
        Ok(net) => Ok((Ipv6Addr { octets: net.addr().octets() }, net.prefix_len())),
        Err(e) => Err(e.to_string()),
    }
}

/// The TUN device to be used.
pub enum TunDevice {
    /// The one with this file descriptor.
    Existing(i32),
    /// A new one, with an MTU and with these addresses and prefixes.
    New { mtu: u16, ipv4: Option<(Ipv4Addr, u8)>, ipv6: Option<(Ipv6Addr, u8)> },
}

/// Whether `r` is the network that was set, if one was.
pub open spec fn reads_ipv4(r: Option<(Ipv4Addr, u8)>, set: Option<String>) -> bool {
    match set {
        Some(s) => r matches Some((a, n)) && ipv4_cidr(s@) == Some((a@, n)),
        None => r is None,
    }
}

/// Whether `r` is the network that was set, if one was.
pub open spec fn reads_ipv6(r: Option<(Ipv6Addr, u8)>, set: Option<String>) -> bool {
    match set {
        Some(s) => r matches Some((a, n)) && ipv6_cidr(s@) == Some((a@, n)),
        None => r is None,
    }
}

/// Whether a network was set that is none, and this says so.
pub open spec fn rejects(e: Error, before: Seq<char>, cidr: Seq<char>) -> bool {
    e matches Error::Config(m) && m@ == before + cidr + "': invalid IP address syntax"@
}

fn rejection(before: &str, cidr: &str, why: &str) -> (e: Error)
    ensures
        e matches Error::Config(m) && m@ == before@ + cidr@ + "': "@ + why@,
{
    let mut message = before.to_owned();
    message.append(cidr);
    message.append("': ");
    message.append(why);
    Error::Config(message)
}

proof fn lemma_rejection_text(before: Seq<char>, cidr: Seq<char>)
    ensures
        before + cidr + "': "@ + "invalid IP address syntax"@ == before + cidr
            + "': invalid IP address syntax"@,
{
    reveal_strlit("': ");
    reveal_strlit("invalid IP address syntax");
    reveal_strlit("': invalid IP address syntax");
    assert("': "@ + "invalid IP address syntax"@ =~= "': invalid IP address syntax"@);
    assert(before + cidr + "': "@ + "invalid IP address syntax"@ =~= before + cidr + ("': "@
        + "invalid IP address syntax"@));
}

/// The TUN device to be used: an existing one where its descriptor was set, which
/// then leaves everything else aside, or else a new one.
pub fn tun_device(config: &TunConfig) -> (r: Result<TunDevice, Error>)
    ensures
        match config.tun_fd {
            Some(fd) => r == Ok::<TunDevice, Error>(TunDevice::Existing(fd)),
            None => if (config.tun_ipv4 matches Some(s) && ipv4_cidr(s@) is None) {
                r matches Err(e) && rejects(
                    e,
                    "failed to parse ipv4 cidr '"@,
                    config.tun_ipv4->0@,
                )
            } else if (config.tun_ipv6 matches Some(s) && ipv6_cidr(s@) is None) {
                r matches Err(e) && rejects(
                    e,
                    "failed to parse ipv6 cidr '"@,
                    config.tun_ipv6->0@,
                )
            } else {
                r matches Ok(TunDevice::New { mtu, ipv4, ipv6 }) && mtu == (match config.tun_mtu {
                    Some(m) => m,
                    None => 1500,
                }) && reads_ipv4(ipv4, config.tun_ipv4) && reads_ipv6(ipv6, config.tun_ipv6)
            },
        },
{
    if let Some(fd) = config.tun_fd {
        return Ok(TunDevice::Existing(fd));
    }
    let ipv4 = match &config.tun_ipv4 {
        Some(s) => match parse_ipv4_net(s.as_str()) {
            Ok(net) => Some(net),
            Err(why) => {
                proof {
                    lemma_rejection_text("failed to parse ipv4 cidr '"@, s@);
                }
                return Err(rejection("failed to parse ipv4 cidr '", s.as_str(), why.as_str()));
            },
        },
        None => None,
    };
    let ipv6 = match &config.tun_ipv6 {
        Some(s) => match parse_ipv6_net(s.as_str()) {
            Ok(net) => Some(net),
            Err(why) => {
                proof {
                    lemma_rejection_text("failed to parse ipv6 cidr '"@, s@);
                }
                return Err(rejection("failed to parse ipv6 cidr '", s.as_str(), why.as_str()));
            },
        },
        None => None,
    };
    Ok(TunDevice::New { mtu: config.tun_mtu.unwrap_or(1500), ipv4, ipv6 })
}

/// The pool of the built-in DNS server, where one was set.
pub fn fake_dns_pool(config: &TunConfig) -> (r: Result<Option<(Ipv4Addr, u8)>, Error>)
    ensures
        if (config.fake_dns matches Some(s) && ipv4_cidr(s@) is None) {
            r matches Err(e) && rejects(e, "failed to parse fake_dns cidr '"@, config.fake_dns->0@)
        } else {
            r matches Ok(net) && reads_ipv4(net, config.fake_dns) && (net matches Some((_, n))
                ==> n <= 32)
        },
{
    match &config.fake_dns {
        Some(s) => match parse_ipv4_net(s.as_str()) {
            Ok(net) => Ok(Some(net)),
            Err(why) => {
                proof {
                    lemma_rejection_text("failed to parse fake_dns cidr '"@, s@);
                }
                Err(rejection("failed to parse fake_dns cidr '", s.as_str(), why.as_str()))
            },
        },
        None => Ok(None),
    }
}

/// The name that the server has to prove is the one that was set, or else the host of its
/// address.
pub proof fn law_server_name_is_its_host(
    server: &str,
    explicit: &Option<String>,
    r: Result<String, IoError>,
    host: Option<String>,
)
    requires
        call_ensures(server_name, (server, explicit), r),
        call_ensures(split_host, (server,), host),
    ensures
        explicit matches Some(name) ==> (r matches Ok(s) && s@ == name@),
        explicit is None ==> (host matches Some(h) ==> (r matches Ok(s) && s@ == h@)),
        explicit is None && host is None ==> (r matches Err(e) && e.kind
            == ErrorKind::InvalidInput && e.message@ == "invalid server address: "@ + server@),
{
}

/// The server is at the first address that its name resolves to.
pub proof fn law_first_resolved_address_is_used(
    server: &str,
    resolved: &Vec<SocketAddr>,
    r: Result<SocketAddr, IoError>,
)
    requires
        call_ensures(server_addr, (server, resolved), r),
    ensures
        r is Ok <==> resolved@.len() > 0,
        r matches Ok(a) ==> resolved@[0] == a,
        r matches Err(e) ==> e.kind == ErrorKind::NotFound && e.message@
            == "failed to resolve server address: '"@ + server@ + "'"@,
{
}

/// A client verifies the server unless it is insecure, and shows a certificate of its own
/// only for mutual TLS, which needs three files. Whatever else is missing keeps nobody
/// from connecting.
pub proof fn law_client_is_made_with_what_it_needs(
    t: TransportConfig,
    addr: SocketAddr,
    name: String,
    r: Result<QuicClientConfig, IoError>,
)
    requires
        call_ensures(quic_client_from_config, (t, addr, name), r),
    ensures
        r is Err <==> t.tls_mode == Some(TlsMode::MTls) && (t.ca_cert is None || t.client_cert
            is None || t.client_key is None),
        r matches Err(e) ==> e.kind == ErrorKind::InvalidInput && e.message@ == if t.ca_cert
            is None {
            "ca cert is required for mutual tls mode"@
        } else if t.client_cert is None {
            "client cert is required for mutual tls mode"@
        } else {
            "client key is required for mutual tls mode"@
        },
        r matches Ok(q) ==> {
            &&& q.skip_server_verification <==> t.tls_mode == Some(TlsMode::Insecure)
            &&& q.client_cert_key_paths is Some <==> t.tls_mode == Some(TlsMode::MTls)
            &&& q.client_cert_key_paths matches Some((cert, key)) ==> t.client_cert == Some(cert)
                && t.client_key == Some(key)
            &&& t.tls_mode == Some(TlsMode::Insecure) ==> q.root_ca_path is None
            &&& t.tls_mode != Some(TlsMode::Insecure) ==> q.root_ca_path == t.ca_cert
        },
{
}

/// What is set for a client is what it is made with, and what is not set is left to the
/// transport.
pub proof fn law_client_takes_what_is_set(
    t: TransportConfig,
    addr: SocketAddr,
    name: String,
    r: Result<QuicClientConfig, IoError>,
)
    requires
        call_ensures(quic_client_from_config, (t, addr, name), r),
    ensures
        r matches Ok(q) ==> {
            &&& q.server_addr == addr
            &&& q.server_name == name
            &&& q.bind == t.bind
            &&& t.zero_rtt matches Some(v) ==> q.enable_zero_rtt == v
            &&& t.zero_rtt is None ==> !q.enable_zero_rtt
            &&& q.alpn_protocols == t.alpn_protocols
            &&& t.idle_timeout matches Some(v) ==> (q.max_idle_timeout matches Some(d) && d.nanos
                == v * 1_000_000)
            &&& t.idle_timeout is None ==> q.max_idle_timeout is None
            &&& t.keep_alive matches Some(v) ==> (q.keep_alive_period matches Some(d) && d.nanos
                == v * 1_000_000)
            &&& t.keep_alive is None ==> q.keep_alive_period is None
            &&& q.max_streams == t.max_streams
            &&& t.congestion matches Some(v) ==> (q.congestion matches Some((c, w)) && c == v && w
                == t.cwnd_init)
            &&& t.congestion is None ==> q.congestion is None
        },
{
}

/// A client starts each endpoint that has an address to bind, and the TUN device where it
/// has an address of its own or exists; a client without any is not built.
pub proof fn law_configured_endpoints_are_started(
    endpoint: &EndpointConfig,
    r: Result<Endpoints, Error>,
)
    requires
        call_ensures(build, (endpoint,), r),
    ensures
        r matches Ok(e) ==> {
            &&& e.http <==> endpoint.http is Some
            &&& e.socks <==> endpoint.socks is Some
            &&& e.tun <==> (endpoint.tun matches Some(t) && (t.tun_ipv4 is Some || t.tun_ipv6
                is Some || t.tun_fd is Some))
            &&& e.http || e.socks || e.tun
        },
        r is Err ==> endpoint.http is None && endpoint.socks is None && (
        endpoint.tun matches Some(t) ==> t.tun_ipv4 is None && t.tun_ipv6 is None && t.tun_fd
            is None),
        r matches Err(e) ==> e is Config,
{
}

/// A device that exists is used as it is. A new one has the MTU that was set, or 1500, and
/// the networks that were set, of which each has to be one.
pub proof fn law_tun_device_is_as_configured(config: &TunConfig, r: Result<TunDevice, Error>)
    requires
        call_ensures(tun_device, (config,), r),
    ensures
        config.tun_fd matches Some(fd) ==> (r matches Ok(TunDevice::Existing(n)) && n == fd),
        config.tun_fd is None ==> {
            &&& r is Err <==> (config.tun_ipv4 matches Some(s) && ipv4_cidr(s@) is None) || (
            config.tun_ipv6 matches Some(s) && ipv6_cidr(s@) is None)
            &&& r matches Ok(device) ==> {
                &&& device matches TunDevice::New { mtu, ipv4, ipv6 }
                &&& config.tun_mtu matches Some(m) ==> mtu == m
                &&& config.tun_mtu is None ==> mtu == 1500
                &&& ipv4 is Some <==> config.tun_ipv4 is Some
                &&& ipv6 is Some <==> config.tun_ipv6 is Some
                &&& ipv4 matches Some((a, n)) ==> (config.tun_ipv4 matches Some(s) && ipv4_cidr(s@)
                    == Some((a@, n)))
                &&& ipv6 matches Some((a, n)) ==> (config.tun_ipv6 matches Some(s) && ipv6_cidr(s@)
                    == Some((a@, n)))
            }
        },
        r matches Err(e) ==> e is Config,
{
}

/// The pool is the network that was set, where one was.
pub proof fn law_pool_is_as_configured(
    config: &TunConfig,
    r: Result<Option<(Ipv4Addr, u8)>, Error>,
)
    requires
        call_ensures(fake_dns_pool, (config,), r),
    ensures
        config.fake_dns is None <==> (r matches Ok(pool) && pool is None),
        r is Err <==> (config.fake_dns matches Some(s) && ipv4_cidr(s@) is None),
        r matches Ok(Some((a, n))) ==> (config.fake_dns matches Some(s) && ipv4_cidr(s@) == Some(
            (a@, n),
        )),
        r matches Err(e) ==> e is Config,
{
}

/// A configuration that cannot be served says what is wrong with it: a network that is
/// none, the first one first, or that there is nothing to do.
pub proof fn law_unserved_configuration_says_why(
    config: &TunConfig,
    device: Result<TunDevice, Error>,
    pool: Result<Option<(Ipv4Addr, u8)>, Error>,
    endpoint: &EndpointConfig,
    built: Result<Endpoints, Error>,
)
    requires
        call_ensures(tun_device, (config,), device),
        call_ensures(fake_dns_pool, (config,), pool),
        call_ensures(build, (endpoint,), built),
    ensures
        config.tun_fd is None ==> (config.tun_ipv4 matches Some(s) ==> (ipv4_cidr(s@) is None ==> (
        device matches Err(Error::Config(m)) && m@ == "failed to parse ipv4 cidr '"@ + s@
            + "': invalid IP address syntax"@))),
        config.tun_fd is None && (config.tun_ipv4 matches Some(s) ==> ipv4_cidr(s@) is Some) ==> (
        config.tun_ipv6 matches Some(s) ==> (ipv6_cidr(s@) is None ==> (
        device matches Err(Error::Config(m)) && m@ == "failed to parse ipv6 cidr '"@ + s@
            + "': invalid IP address syntax"@))),
        config.fake_dns matches Some(s) ==> (ipv4_cidr(s@) is None ==> (
        pool matches Err(Error::Config(m)) && m@ == "failed to parse fake_dns cidr '"@ + s@
            + "': invalid IP address syntax"@)),
        built matches Err(e) ==> (e matches Error::Config(m) && m@
            == "no endpoints were configured or enabled, the service has nothing to do."@),
{
}

} // verus!
