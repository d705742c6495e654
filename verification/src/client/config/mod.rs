//! The client's configuration: defaults, overridden by a JSON document,
//! overridden by the command line.
use std::path::PathBuf;
use vstd::prelude::*;

use crate::address::SocketAddr;
use crate::congestion::Congestion;
use crate::layer::{layer, layered};

pub mod cli;
pub mod json;
pub mod laws;

verus! {

/// What the client offers to applications.
#[derive(Clone, Debug)]
pub struct EndpointConfig {
    /// The address to bind for the HTTP/HTTPS server.
    pub http: Option<SocketAddr>,
    /// The address to bind for the SOCKS server.
    pub socks: Option<SocketAddr>,
    /// The TUN device.
    pub tun: Option<TunConfig>,
}

/// How the client reaches the server.
#[derive(Clone, Debug)]
pub struct TransportConfig {
    /// The address to bind for transport.
    pub bind: Option<SocketAddr>,
    /// Name of the server to connect (derived from `server` if not provided).
    pub server_name: Option<String>,
    /// The TLS mode for the connection.
    pub tls_mode: Option<TlsMode>,
    /// Path to the Certificate Authority (CA) certificate file.
    pub ca_cert: Option<PathBuf>,
    /// Path to the client's TLS certificate for mTLS.
    pub client_cert: Option<PathBuf>,
    /// Path to the client's TLS private key for mTLS.
    pub client_key: Option<PathBuf>,
    /// Enable 0-RTT for faster connection establishment.
    pub zero_rtt: Option<bool>,
    /// Application-Layer protocol negotiation (ALPN) protocols.
    pub alpn_protocols: Option<Vec<Vec<u8>>>,
    /// Congestion control algorithm to use.
    pub congestion: Option<Congestion>,
    /// Initial congestion window size in bytes.
    pub cwnd_init: Option<u64>,
    /// Maximum idle time (in milliseconds) before closing the connection.
    pub idle_timeout: Option<u64>,
    /// Keep-alive interval (in milliseconds).
    pub keep_alive: Option<u64>,
    /// Maximum number of bidirectional streams that can be open simultaneously.
    pub max_streams: Option<u64>,
}

/// What is logged.
#[derive(Clone, Debug)]
pub struct LoggingConfig {
    /// Logging level (e.g., INFO, WARN, ERROR).
    pub log_level: Option<String>,
}

/// The TUN device.
#[derive(Clone, Debug)]
pub struct TunConfig {
    /// The file descriptor of a TUN device that exists already; `tun_ipv4`,
    /// `tun_ipv6` and `tun_mtu` are then ignored.
    pub tun_fd: Option<i32>,
    /// The IPv4 address and subnet for the TUN device, in CIDR notation.
    pub tun_ipv4: Option<String>,
    /// The IPv6 address and subnet for the TUN device, in CIDR notation.
    pub tun_ipv6: Option<String>,
    /// The Maximum Transmission Unit (MTU) for the TUN device.
    pub tun_mtu: Option<u16>,
    /// The IPv4 address pool for the built-in fake DNS server, in CIDR notation.
    pub fake_dns: Option<String>,
    /// Disable UDP traffic to port 443.
    pub disable_udp_443: Option<bool>,
}

/// How the two sides prove who they are.
#[derive(Clone, Copy, Debug, PartialEq, Eq, Structural)]
pub enum TlsMode {
    /// The server shows a certificate.
    Tls,
    /// Both sides show a certificate.
    MTls,
    /// Nothing is verified.
    Insecure,
}

impl Default for TlsMode {
    fn default() -> (r: TlsMode)
        ensures
            r == TlsMode::Tls,
    {
        TlsMode::Tls
    }
}

impl Default for EndpointConfig {
    fn default() -> (r: EndpointConfig)
        ensures
            r.http is None,
            r.socks is None,
            r.tun is None,
    {
        EndpointConfig { http: None, socks: None, tun: None }
    }
}

/// Whether these are the ALPN protocols that are offered by default: `h3` alone.
pub open spec fn is_default_alpn(protocols: Option<Vec<Vec<u8>>>) -> bool {
    protocols matches Some(v) && v@.len() == 1 && v@[0]@ == seq![0x68u8, 0x33u8]
}

/// The ALPN protocols that are offered by default.
pub fn default_alpn() -> (v: Vec<Vec<u8>>)
    ensures
        is_default_alpn(Some(v)),
{
    let mut h3: Vec<u8> = Vec::new();
    h3.push(0x68);
    h3.push(0x33);
    assert(h3@ =~= seq![0x68u8, 0x33u8]);
    let mut v: Vec<Vec<u8>> = Vec::new();
    v.push(h3);
    v
}

impl TransportConfig {
    /// Whether every field has its default.
    pub open spec fn is_default(&self) -> bool {
        &&& self.bind is None
        &&& self.server_name is None
        &&& self.tls_mode == Some(TlsMode::Tls)
        &&& self.ca_cert is None
        &&& self.client_cert is None
        &&& self.client_key is None
        &&& self.zero_rtt == Some(false)
        &&& is_default_alpn(self.alpn_protocols)
        &&& self.congestion == Some(Congestion::Bbr)
        &&& self.cwnd_init is None
        &&& self.idle_timeout == Some(30000u64)
        &&& self.keep_alive == Some(8000u64)
        &&& self.max_streams == Some(100u64)
    }

    /// Nothing set.
    pub open spec fn is_unset(&self) -> bool {
        &&& self.bind is None
        &&& self.server_name is None
        &&& self.tls_mode is None
        &&& self.ca_cert is None
        &&& self.client_cert is None
        &&& self.client_key is None
        &&& self.zero_rtt is None
        &&& self.alpn_protocols is None
        &&& self.congestion is None
        &&& self.cwnd_init is None
        &&& self.idle_timeout is None
        &&& self.keep_alive is None
        &&& self.max_streams is None
    }
}

impl Default for TransportConfig {
    fn default() -> (r: TransportConfig)
        ensures
            r.is_default(),
    {
        TransportConfig {
            bind: None,
            server_name: None,
            tls_mode: Some(TlsMode::Tls),
            ca_cert: None,
            client_cert: None,
            client_key: None,
            zero_rtt: Some(false),
            alpn_protocols: Some(default_alpn()),
            congestion: Some(Congestion::Bbr),
            cwnd_init: None,
            idle_timeout: Some(30000),
            keep_alive: Some(8000),
            max_streams: Some(100),
        }
    }
}

impl Default for LoggingConfig {
    fn default() -> (r: LoggingConfig)
        ensures
            r.log_level matches Some(s) && s@ == "INFO"@,
    {
        LoggingConfig { log_level: Some("INFO".to_owned()) }
    }
}

impl Default for TunConfig {
    fn default() -> (r: TunConfig)
        ensures
            r.tun_fd is None,
            r.tun_ipv4 is None,
            r.tun_ipv6 is None,
            r.tun_mtu == Some(1500u16),
            r.fake_dns matches Some(s) && s@ == "198.18.0.0/16"@,
            r.disable_udp_443 == Some(false),
    {
        TunConfig {
            tun_fd: None,
            tun_ipv4: None,
            tun_ipv6: None,
            tun_mtu: Some(1500),
            fake_dns: Some("198.18.0.0/16".to_owned()),
            disable_udp_443: Some(false),
        }
    }
}

/// The configuration that the client runs with.
#[derive(Clone, Debug)]
pub struct ServiceConfig {
    pub secret: String,
    pub server: String,
    pub auth_option: Option<String>,
    pub endpoint: EndpointConfig,
    pub transport: TransportConfig,
    pub logging: LoggingConfig,
}

/// Field by field, what `over` sets replaces what `base` sets.
pub open spec fn merged_transport(base: TransportConfig, over: TransportConfig) -> TransportConfig {
    TransportConfig {
        bind: layered(base.bind, over.bind),
        server_name: layered(base.server_name, over.server_name),
        tls_mode: layered(base.tls_mode, over.tls_mode),
        ca_cert: layered(base.ca_cert, over.ca_cert),
        client_cert: layered(base.client_cert, over.client_cert),
        client_key: layered(base.client_key, over.client_key),
        zero_rtt: layered(base.zero_rtt, over.zero_rtt),
        alpn_protocols: layered(base.alpn_protocols, over.alpn_protocols),
        congestion: layered(base.congestion, over.congestion),
        cwnd_init: layered(base.cwnd_init, over.cwnd_init),
        idle_timeout: layered(base.idle_timeout, over.idle_timeout),
        keep_alive: layered(base.keep_alive, over.keep_alive),
        max_streams: layered(base.max_streams, over.max_streams),
    }
}

/// Field by field, what `over` sets replaces what `base` sets.
pub open spec fn merged_tun(base: Option<TunConfig>, over: Option<TunConfig>) -> Option<TunConfig> {
    match (base, over) {
        (Some(b), Some(o)) => Some(
            TunConfig {
                tun_fd: layered(b.tun_fd, o.tun_fd),
                tun_ipv4: layered(b.tun_ipv4, o.tun_ipv4),
                tun_ipv6: layered(b.tun_ipv6, o.tun_ipv6),
                tun_mtu: layered(b.tun_mtu, o.tun_mtu),
                fake_dns: layered(b.fake_dns, o.fake_dns),
                disable_udp_443: layered(b.disable_udp_443, o.disable_udp_443),
            },
        ),
        _ => layered(base, over),
    }
}

/// Field by field, what `over` sets replaces what `base` sets.
pub open spec fn merged_endpoint(base: EndpointConfig, over: EndpointConfig) -> EndpointConfig {
    EndpointConfig {
        http: layered(base.http, over.http),
        socks: layered(base.socks, over.socks),
        tun: merged_tun(base.tun, over.tun),
    }
}

/// What `over` sets replaces what `base` sets.
pub open spec fn merged_logging(base: LoggingConfig, over: LoggingConfig) -> LoggingConfig {
    LoggingConfig { log_level: layered(base.log_level, over.log_level) }
}

/// The configuration as far as it has been put together.
pub struct ConfigBuilder {
    pub secret: Option<String>,
    pub server: Option<String>,
    pub auth_option: Option<String>,
    pub endpoint: EndpointConfig,
    pub transport: TransportConfig,
    pub logging: LoggingConfig,
}

impl ConfigBuilder {
    /// Nothing but defaults.
    pub open spec fn is_new(&self) -> bool {
        &&& self.secret is None
        &&& self.server is None
        &&& self.auth_option is None
        &&& self.endpoint == (EndpointConfig { http: None, socks: None, tun: None })
        &&& self.transport.is_default()
        &&& self.logging.log_level matches Some(s) && s@ == "INFO"@
    }

    /// This configuration with that of a JSON document over it.
    pub open spec fn with_json(self, json: json::JsonConfig) -> ConfigBuilder {
        ConfigBuilder {
            secret: layered(self.secret, json.secret),
            server: layered(self.server, json.server),
            auth_option: layered(self.auth_option, json.auth_option),
            endpoint: match json.endpoint {
                Some(over) => merged_endpoint(self.endpoint, over),
                None => self.endpoint,
            },
            transport: match json.transport {
                Some(over) => merged_transport(self.transport, over),
                None => self.transport,
            },
            logging: match json.logging {
                Some(over) => merged_logging(self.logging, over),
                None => self.logging,
            },
        }
    }

    /// This configuration with that of the command line over it.
    pub open spec fn with_cli(self, cli: cli::CliConfig) -> ConfigBuilder {
        ConfigBuilder {
            secret: layered(self.secret, cli.secret),
            server: layered(self.server, cli.server),
            auth_option: layered(self.auth_option, cli.auth_option),
            endpoint: merged_endpoint(self.endpoint, cli.endpoint),
            transport: merged_transport(self.transport, cli.transport),
            logging: merged_logging(self.logging, cli.logging),
        }
    }

    /// Whether this is the service that results, or the reason why there is none:
    /// the secret is asked for first, then the server.
    pub open spec fn builds(self, r: Result<ServiceConfig, String>) -> bool {
        match (self.secret, self.server) {
            (None, _) => r matches Err(m) && m@ == "missing required field: secret"@,
            (Some(_), None) => r matches Err(m) && m@ == "missing required field: server"@,
            (Some(secret), Some(server)) => r == Ok::<ServiceConfig, String>(
                ServiceConfig {
                    secret,
                    server,
                    auth_option: self.auth_option,
                    endpoint: self.endpoint,
                    transport: self.transport,
                    logging: self.logging,
                },
            ),
        }
    }

    /// A builder with default values.
    pub fn new() -> (r: ConfigBuilder)
        ensures
            r.is_new(),
    {
        ConfigBuilder {
            secret: None,
            server: None,
            auth_option: None,
            endpoint: EndpointConfig::default(),
            transport: TransportConfig::default(),
            logging: LoggingConfig::default(),
        }
    }

    /// Puts the configuration of a JSON document over this one.
    pub fn merge_json(self, json_config: json::JsonConfig) -> (r: ConfigBuilder)
        ensures
            r == self.with_json(json_config),
    {
        ConfigBuilder {
            secret: layer(self.secret, json_config.secret),
            server: layer(self.server, json_config.server),
            auth_option: layer(self.auth_option, json_config.auth_option),
            endpoint: match json_config.endpoint {
                Some(endpoint) => Self::merge_endpoint(self.endpoint, endpoint),
                None => self.endpoint,
            },
            transport: match json_config.transport {
                Some(transport) => Self::merge_transport(self.transport, transport),
                None => self.transport,
            },
            logging: match json_config.logging {
                Some(logging) => Self::merge_logging(self.logging, logging),
                None => self.logging,
            },
        }
    }

    /// Puts the configuration of the command line over this one.
    pub fn merge_cli(self, cli_config: cli::CliConfig) -> (r: ConfigBuilder)
        ensures
            r == self.with_cli(cli_config),
    {
        ConfigBuilder {
            secret: layer(self.secret, cli_config.secret),
            server: layer(self.server, cli_config.server),
            auth_option: layer(self.auth_option, cli_config.auth_option),
            endpoint: Self::merge_endpoint(self.endpoint, cli_config.endpoint),
            transport: Self::merge_transport(self.transport, cli_config.transport),
            logging: Self::merge_logging(self.logging, cli_config.logging),
        }
    }

    /// The service that results, where the required fields are set.
    pub fn build(self) -> (r: Result<ServiceConfig, String>)
        ensures
            self.builds(r),
    {
        let secret = match self.secret {
            Some(secret) => secret,
            None => return Err("missing required field: secret".to_owned()),
        };
        let server = match self.server {
            Some(server) => server,
            None => return Err("missing required field: server".to_owned()),
        };
        Ok(
            ServiceConfig {
                secret,
                server,
                auth_option: self.auth_option,
                endpoint: self.endpoint,
                transport: self.transport,
                logging: self.logging,
            },
        )
    }

    fn merge_endpoint(base: EndpointConfig, over: EndpointConfig) -> (r: EndpointConfig)
        ensures
            r == merged_endpoint(base, over),
    {
        EndpointConfig {
            http: layer(base.http, over.http),
            socks: layer(base.socks, over.socks),
            tun: Self::merge_tun(base.tun, over.tun),
        }
    }

    fn merge_tun(base: Option<TunConfig>, over: Option<TunConfig>) -> (r: Option<TunConfig>)
        ensures
            r == merged_tun(base, over),
    {
        match (base, over) {
            (None, None) => None,
            (Some(base), None) => Some(base),
            (None, Some(over)) => Some(over),
            (Some(base), Some(over)) => Some(
                TunConfig {
                    tun_fd: layer(base.tun_fd, over.tun_fd),
                    tun_ipv4: layer(base.tun_ipv4, over.tun_ipv4),
                    tun_ipv6: layer(base.tun_ipv6, over.tun_ipv6),
                    tun_mtu: layer(base.tun_mtu, over.tun_mtu),
                    fake_dns: layer(base.fake_dns, over.fake_dns),
                    disable_udp_443: layer(base.disable_udp_443, over.disable_udp_443),
                },
            ),
        }
    }

    fn merge_transport(base: TransportConfig, over: TransportConfig) -> (r: TransportConfig)
        ensures
            r == merged_transport(base, over),
    {
        TransportConfig {
            bind: layer(base.bind, over.bind),
            server_name: layer(base.server_name, over.server_name),
            tls_mode: layer(base.tls_mode, over.tls_mode),
            ca_cert: layer(base.ca_cert, over.ca_cert),
            client_cert: layer(base.client_cert, over.client_cert),
            client_key: layer(base.client_key, over.client_key),
            zero_rtt: layer(base.zero_rtt, over.zero_rtt),
            alpn_protocols: layer(base.alpn_protocols, over.alpn_protocols),
            congestion: layer(base.congestion, over.congestion),
            cwnd_init: layer(base.cwnd_init, over.cwnd_init),
            idle_timeout: layer(base.idle_timeout, over.idle_timeout),
            keep_alive: layer(base.keep_alive, over.keep_alive),
            max_streams: layer(base.max_streams, over.max_streams),
        }
    }

    fn merge_logging(base: LoggingConfig, over: LoggingConfig) -> (r: LoggingConfig)
        ensures
            r == merged_logging(base, over),
    {
        LoggingConfig { log_level: layer(base.log_level, over.log_level) }
    }
}

impl Default for ConfigBuilder {
    fn default() -> (r: ConfigBuilder)
        ensures
            r.is_new(),
    {
        ConfigBuilder::new()
    }
}

/// Puts the configuration together: defaults, then the JSON document where there
/// is one, then the command line.
pub fn load(json: Option<json::JsonConfig>, cli: cli::CliConfig) -> (r: Result<
    ServiceConfig,
    String,
>)
    ensures
        exists|b: ConfigBuilder| #[trigger]
            b.is_new() && (match json {
                Some(j) => b.with_json(j),
                None => b,
            }).with_cli(cli).builds(r),
{
    let builder = ConfigBuilder::new();
    let ghost fresh = builder;
    let builder = match json {
        Some(json) => builder.merge_json(json),
        None => builder,
    };
    let r = builder.merge_cli(cli).build();
    assert(fresh.is_new());
    r
}

/// Puts the configuration together from defaults and a JSON document.
pub fn load_from_json(json: json::JsonConfig) -> (r: Result<ServiceConfig, String>)
    ensures
        exists|b: ConfigBuilder| #[trigger] b.is_new() && b.with_json(json).builds(r),
{
    let builder = ConfigBuilder::new();
    let ghost fresh = builder;
    let r = builder.merge_json(json).build();
    assert(fresh.is_new());
    r
}

/// Layering transports is associative: three sources may be combined in either
/// grouping.
pub proof fn law_transport_layers_associate(
    a: TransportConfig,
    b: TransportConfig,
    c: TransportConfig,
)
    ensures
        merged_transport(merged_transport(a, b), c) == merged_transport(a, merged_transport(b, c)),
{
}

/// A source that sets nothing changes nothing, and one is not changed by being
/// layered over nothing.
pub proof fn law_unset_transport_is_neutral(a: TransportConfig, unset: TransportConfig)
    requires
        unset.is_unset(),
    ensures
        merged_transport(a, unset) == a,
        merged_transport(unset, a) == a,
{
}

/// Layering endpoints is associative.
pub proof fn law_endpoint_layers_associate(a: EndpointConfig, b: EndpointConfig, c: EndpointConfig)
    ensures
        merged_endpoint(merged_endpoint(a, b), c) == merged_endpoint(a, merged_endpoint(b, c)),
{
}

/// The command line wins over the JSON document, which wins over the defaults:
/// here for the secret, the server and the transport.
pub proof fn law_command_line_wins(b: ConfigBuilder, json: json::JsonConfig, cli: cli::CliConfig)
    ensures
        b.with_json(json).with_cli(cli).secret == layered(
            layered(b.secret, json.secret),
            cli.secret,
        ),
        b.with_json(json).with_cli(cli).server == layered(
            layered(b.server, json.server),
            cli.server,
        ),
        json.transport matches Some(t) ==> b.with_json(json).with_cli(cli).transport
            == merged_transport(b.transport, merged_transport(t, cli.transport)),
        json.endpoint matches Some(e) ==> b.with_json(json).with_cli(cli).endpoint
            == merged_endpoint(b.endpoint, merged_endpoint(e, cli.endpoint)),
{
    if let Some(t) = json.transport {
        law_transport_layers_associate(b.transport, t, cli.transport);
    }
    if let Some(e) = json.endpoint {
        law_endpoint_layers_associate(b.endpoint, e, cli.endpoint);
    }
}

} // verus!
