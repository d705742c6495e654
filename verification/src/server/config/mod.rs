//! The server's configuration: defaults, overridden by a JSON document,
//! overridden by the command line.
use std::path::PathBuf;
use vstd::prelude::*;

use crate::address::SocketAddr;
use crate::client::config::{default_alpn, is_default_alpn};
use crate::congestion::Congestion;
use crate::layer::{layer, layered};

pub mod cli;
pub mod json;
pub mod laws;

verus! {

/// How clients reach the server.
#[derive(Clone, Debug)]
pub struct TransportConfig {
    /// The TLS mode for the connection.
    pub tls_mode: Option<TlsMode>,
    /// Path to the Certificate Authority (CA) certificate file.
    pub ca_cert: Option<PathBuf>,
    /// Path to the server's TLS certificate.
    pub tls_cert: Option<PathBuf>,
    /// Path to the server's TLS private key.
    pub tls_key: Option<PathBuf>,
    /// Enable 0-RTT for faster connection establishment.
    pub zero_rtt: Option<bool>,
    /// Application-Layer protocol negotiation (ALPN) protocols.
    pub alpn_protocols: Option<Vec<Vec<u8>>>,
    /// Congestion control algorithm to use.
    pub congestion: Option<Congestion>,
    /// Initial congestion window size in bytes.
    pub cwnd_init: Option<u64>,
    /// Maximum idle time (in milliseconds) before closing the connection.
    pub idle_timeout: Option<u64>,
    /// Keep-alive interval (in milliseconds).
    pub keep_alive: Option<u64>,
    /// Maximum number of bidirectional streams that can be open simultaneously.
    pub max_streams: Option<u64>,
}

/// How the two sides prove who they are.
#[derive(Clone, Copy, Debug, PartialEq, Eq, Structural)]
pub enum TlsMode {
    /// The server shows a certificate.
    Tls,
    /// Both sides show a certificate.
    MTls,
    /// The server signs its own certificate.
    Insecure,
}

impl Default for TlsMode {
    fn default() -> (r: TlsMode)
        ensures
            r == TlsMode::Tls,
    {
        TlsMode::Tls
    }
}

impl TransportConfig {
    /// Whether every field has its default.
    pub open spec fn is_default(&self) -> bool {
        &&& self.tls_mode == Some(TlsMode::Tls)
        &&& self.ca_cert is None
        &&& self.tls_cert is None
        &&& self.tls_key is None
        &&& self.zero_rtt == Some(false)
        &&& is_default_alpn(self.alpn_protocols)
        &&& self.congestion == Some(Congestion::Bbr)
        &&& self.cwnd_init is None
        &&& self.idle_timeout == Some(30000u64)
        &&& self.keep_alive == Some(8000u64)
        &&& self.max_streams == Some(1000u64)
    }

    /// Nothing set.
    pub open spec fn is_unset(&self) -> bool {
        &&& self.tls_mode is None
        &&& self.ca_cert is None
        &&& self.tls_cert is None
        &&& self.tls_key is None
        &&& self.zero_rtt is None
        &&& self.alpn_protocols is None
        &&& self.congestion is None
        &&& self.cwnd_init is None
        &&& self.idle_timeout is None
        &&& self.keep_alive is None
        &&& self.max_streams is None
    }

    /// The TLS mode, or the default.
    pub fn tls_mode(&self) -> (r: TlsMode)
        ensures
            r == match self.tls_mode {
                Some(v) => v,
                None => TlsMode::Tls,
            },
    {
        self.tls_mode.unwrap_or(TlsMode::Tls)
    }

    /// Whether 0-RTT is on, or the default.
    pub fn zero_rtt(&self) -> (r: bool)
        ensures
            r == match self.zero_rtt {
                Some(v) => v,
                None => false,
            },
    {
        self.zero_rtt.unwrap_or(false)
    }

    /// The ALPN protocols, or the default.
    pub fn alpn_protocols(self) -> (r: Vec<Vec<u8>>)
        ensures
            match self.alpn_protocols {
                Some(v) => r == v,
                None => is_default_alpn(Some(r)),
            },
    {
        match self.alpn_protocols {
            Some(v) => v,
            None => default_alpn(),
        }
    }

    /// The congestion control algorithm, or the default.
    pub fn congestion(&self) -> (r: Congestion)
        ensures
            r == match self.congestion {
                Some(v) => v,
                None => Congestion::Bbr,
            },
    {
        self.congestion.unwrap_or(Congestion::Bbr)
    }

    /// The idle timeout in milliseconds, or the default.
    pub fn idle_timeout(&self) -> (r: u64)
        ensures
            r == match self.idle_timeout {
                Some(v) => v,
                None => 30000,
            },
    {
        self.idle_timeout.unwrap_or(30000)
    }

    /// The keep-alive interval in milliseconds, or the default.
    pub fn keep_alive(&self) -> (r: u64)
        ensures
            r == match self.keep_alive {
                Some(v) => v,
                None => 8000,
            },
    {
        self.keep_alive.unwrap_or(8000)
    }

    /// The number of streams, or the default.
    pub fn max_streams(&self) -> (r: u64)
        ensures
            r == match self.max_streams {
                Some(v) => v,
                None => 1000,
            },
    {
        self.max_streams.unwrap_or(1000)
    }
}

impl Default for TransportConfig {
    fn default() -> (r: TransportConfig)
        ensures
            r.is_default(),
    {
        TransportConfig {
            tls_mode: Some(TlsMode::Tls),
            ca_cert: None,
            tls_cert: None,
            tls_key: None,
            zero_rtt: Some(false),
            alpn_protocols: Some(default_alpn()),
            congestion: Some(Congestion::Bbr),
            cwnd_init: None,
            idle_timeout: Some(30000),
            keep_alive: Some(8000),
            max_streams: Some(1000),
        }
    }
}

/// How connections are taken on and limited.
#[derive(Clone, Copy, Debug, PartialEq, Eq, Structural)]
pub struct ConnectionConfig {
    /// Maximum number of concurrent connections.
    pub max_connections: Option<usize>,
    /// Authentication timeout in seconds.
    pub auth_timeout_secs: Option<u64>,
    /// Maximum concurrent stream connections per client connection.
    pub max_concurrent_streams: Option<usize>,
    /// Maximum concurrent datagram handlers per client connection.
    pub max_concurrent_datagrams: Option<usize>,
}

impl ConnectionConfig {
    /// The number of connections, or the default.
    pub fn max_connections(&self) -> (r: usize)
        ensures
            r == match self.max_connections {
                Some(v) => v,
                None => 10000,
            },
    {
        self.max_connections.unwrap_or(10000)
    }

    /// The authentication timeout in seconds, or the default.
    pub fn auth_timeout_secs(&self) -> (r: u64)
        ensures
            r == match self.auth_timeout_secs {
                Some(v) => v,
                None => 10,
            },
    {
        self.auth_timeout_secs.unwrap_or(10)
    }

    /// The authentication timeout under its former name.
    pub fn handshake_timeout_secs(&self) -> (r: u64)
        ensures
            r == match self.auth_timeout_secs {
                Some(v) => v,
                None => 10,
            },
    {
        self.auth_timeout_secs()
    }

    /// The number of streams per connection, or the default.
    pub fn max_concurrent_streams(&self) -> (r: usize)
        ensures
            r == match self.max_concurrent_streams {
                Some(v) => v,
                None => 4096,
            },
    {
        self.max_concurrent_streams.unwrap_or(4096)
    }

    /// The number of datagrams handled at once per connection, or the default.
    pub fn max_concurrent_datagrams(&self) -> (r: usize)
        ensures
            r == match self.max_concurrent_datagrams {
                Some(v) => v,
                None => 4096,
            },
    {
        self.max_concurrent_datagrams.unwrap_or(4096)
    }

    /// The defaults.
    pub open spec fn defaults() -> ConnectionConfig {
        ConnectionConfig {
            max_connections: Some(10000usize),
            auth_timeout_secs: Some(10u64),
            max_concurrent_streams: Some(4096usize),
            max_concurrent_datagrams: Some(4096usize),
        }
    }
}

impl Default for ConnectionConfig {
    fn default() -> (r: ConnectionConfig)
        ensures
            r == ConnectionConfig::defaults(),
    {
        ConnectionConfig {
            max_connections: Some(10000),
            auth_timeout_secs: Some(10),
            max_concurrent_streams: Some(4096),
            max_concurrent_datagrams: Some(4096),
        }
    }
}

/// What is logged.
#[derive(Clone, Debug)]
pub struct LoggingConfig {
    /// Logging level (e.g., INFO, WARN, ERROR).
    pub log_level: Option<String>,
}

impl LoggingConfig {
    /// The logging level, or the default.
    pub fn log_level(&self) -> (s: &str)
        ensures
            s@ == match self.log_level {
                Some(level) => level@,
                None => "INFO"@,
            },
    {
        match &self.log_level {
            Some(level) => level.as_str(),
            None => "INFO",
        }
    }
}

impl Default for LoggingConfig {
    fn default() -> (r: LoggingConfig)
        ensures
            r.log_level matches Some(s) && s@ == "INFO"@,
    {
        LoggingConfig { log_level: Some("INFO".to_owned()) }
    }
}

/// The configuration that the server runs with.
#[derive(Clone, Debug)]
pub struct ServiceConfig {
    pub secret: String,
    pub listen: SocketAddr,
    pub transport: TransportConfig,
    pub connection: ConnectionConfig,
    pub logging: LoggingConfig,
}

/// Field by field, what `over` sets replaces what `base` sets.
pub open spec fn merged_transport(base: TransportConfig, over: TransportConfig) -> TransportConfig {
    TransportConfig {
        tls_mode: layered(base.tls_mode, over.tls_mode),
        ca_cert: layered(base.ca_cert, over.ca_cert),
        tls_cert: layered(base.tls_cert, over.tls_cert),
        tls_key: layered(base.tls_key, over.tls_key),
        zero_rtt: layered(base.zero_rtt, over.zero_rtt),
        alpn_protocols: layered(base.alpn_protocols, over.alpn_protocols),
        congestion: layered(base.congestion, over.congestion),
        cwnd_init: layered(base.cwnd_init, over.cwnd_init),
        idle_timeout: layered(base.idle_timeout, over.idle_timeout),
        keep_alive: layered(base.keep_alive, over.keep_alive),
        max_streams: layered(base.max_streams, over.max_streams),
    }
}

/// Field by field, what `over` sets replaces what `base` sets.
pub open spec fn merged_connection(
    base: ConnectionConfig,
    over: ConnectionConfig,
) -> ConnectionConfig {
    ConnectionConfig {
        max_connections: layered(base.max_connections, over.max_connections),
        auth_timeout_secs: layered(base.auth_timeout_secs, over.auth_timeout_secs),
        max_concurrent_streams: layered(base.max_concurrent_streams, over.max_concurrent_streams),
        max_concurrent_datagrams: layered(base.max_concurrent_datagrams, over.max_concurrent_datagrams),
    }
}

/// What `over` sets replaces what `base` sets.
pub open spec fn merged_logging(base: LoggingConfig, over: LoggingConfig) -> LoggingConfig {
    LoggingConfig { log_level: layered(base.log_level, over.log_level) }
}

/// The configuration as far as it has been put together.
pub struct ConfigBuilder {
    pub secret: Option<String>,
    pub listen: Option<SocketAddr>,
    pub transport: TransportConfig,
    pub connection: ConnectionConfig,
    pub logging: LoggingConfig,
}

impl ConfigBuilder {
    /// Nothing but defaults.
    pub open spec fn is_new(&self) -> bool {
        &&& self.secret is None
        &&& self.listen is None
        &&& self.transport.is_default()
        &&& self.connection == ConnectionConfig::defaults()
        &&& self.logging.log_level matches Some(s) && s@ == "INFO"@
    }

    /// This configuration with that of a JSON document over it.
    pub open spec fn with_json(self, json: json::JsonConfig) -> ConfigBuilder {
        ConfigBuilder {
            secret: layered(self.secret, json.secret),
            listen: layered(self.listen, json.listen),
            transport: match json.transport {
                Some(over) => merged_transport(self.transport, over),
                None => self.transport,
            },
            connection: match json.connection {
                Some(over) => merged_connection(self.connection, over),
                None => self.connection,
            },
            logging: match json.logging {
                Some(over) => merged_logging(self.logging, over),
                None => self.logging,
            },
        }
    }

    /// This configuration with that of the command line over it.
    pub open spec fn with_cli(self, cli: cli::CliConfig) -> ConfigBuilder {
        ConfigBuilder {
            secret: layered(self.secret, cli.secret),
            listen: layered(self.listen, cli.listen),
            transport: merged_transport(self.transport, cli.transport),
            connection: self.connection,
            logging: merged_logging(self.logging, cli.logging),
        }
    }

    /// Whether this is the service that results, or the reason why there is none:
    /// the secret is asked for first, then where to listen.
    pub open spec fn builds(self, r: Result<ServiceConfig, String>) -> bool {
        match (self.secret, self.listen) {
            (None, _) => r matches Err(m) && m@ == "missing required field: secret"@,
            (Some(_), None) => r matches Err(m) && m@ == "missing required field: listen"@,
            (Some(secret), Some(listen)) => r == Ok::<ServiceConfig, String>(
                ServiceConfig {
                    secret,
                    listen,
                    transport: self.transport,
                    connection: self.connection,
                    logging: self.logging,
                },
            ),
        }
    }

    /// A builder with default values.
    pub fn new() -> (r: ConfigBuilder)
        ensures
            r.is_new(),
    {
        ConfigBuilder {
            secret: None,
            listen: None,
            transport: TransportConfig::default(),
            connection: ConnectionConfig::default(),
            logging: LoggingConfig::default(),
        }
    }

    /// Puts the configuration of a JSON document over this one.
    pub fn merge_json(self, json_config: json::JsonConfig) -> (r: ConfigBuilder)
        ensures
            r == self.with_json(json_config),
    {
        ConfigBuilder {
            secret: layer(self.secret, json_config.secret),
            listen: layer(self.listen, json_config.listen),
            transport: match json_config.transport {
                Some(transport) => Self::merge_transport(self.transport, transport),
                None => self.transport,
            },
            connection: match json_config.connection {
                Some(connection) => Self::merge_connection(self.connection, connection),
                None => self.connection,
            },
            logging: match json_config.logging {
                Some(logging) => Self::merge_logging(self.logging, logging),
                None => self.logging,
            },
        }
    }

    /// Puts the configuration of the command line over this one.
    pub fn merge_cli(self, cli_config: cli::CliConfig) -> (r: ConfigBuilder)
        ensures
            r == self.with_cli(cli_config),
    {
        ConfigBuilder {
            secret: layer(self.secret, cli_config.secret),
            listen: layer(self.listen, cli_config.listen),
            transport: Self::merge_transport(self.transport, cli_config.transport),
            connection: self.connection,
            logging: Self::merge_logging(self.logging, cli_config.logging),
        }
    }

    /// The service that results, where the required fields are set.
    pub fn build(self) -> (r: Result<ServiceConfig, String>)
        ensures
            self.builds(r),
    {
        let secret = match self.secret {
            Some(secret) => secret,
            None => return Err("missing required field: secret".to_owned()),
        };
        let listen = match self.listen {
            Some(listen) => listen,
            None => return Err("missing required field: listen".to_owned()),
        };
        Ok(
            ServiceConfig {
                secret,
                listen,
                transport: self.transport,
                connection: self.connection,
                logging: self.logging,
            },
        )
    }

    fn merge_transport(base: TransportConfig, over: TransportConfig) -> (r: TransportConfig)
        ensures
            r == merged_transport(base, over),
    {
        TransportConfig {
            tls_mode: layer(base.tls_mode, over.tls_mode),
            ca_cert: layer(base.ca_cert, over.ca_cert),
            tls_cert: layer(base.tls_cert, over.tls_cert),
            tls_key: layer(base.tls_key, over.tls_key),
            zero_rtt: layer(base.zero_rtt, over.zero_rtt),
            alpn_protocols: layer(base.alpn_protocols, over.alpn_protocols),
            congestion: layer(base.congestion, over.congestion),
            cwnd_init: layer(base.cwnd_init, over.cwnd_init),
            idle_timeout: layer(base.idle_timeout, over.idle_timeout),
            keep_alive: layer(base.keep_alive, over.keep_alive),
            max_streams: layer(base.max_streams, over.max_streams),
        }
    }

    fn merge_connection(base: ConnectionConfig, over: ConnectionConfig) -> (r: ConnectionConfig)
        ensures
            r == merged_connection(base, over),
    {
        ConnectionConfig {
            max_connections: layer(base.max_connections, over.max_connections),
            auth_timeout_secs: layer(base.auth_timeout_secs, over.auth_timeout_secs),
            max_concurrent_streams: layer(base.max_concurrent_streams, over.max_concurrent_streams),
            max_concurrent_datagrams: layer(base.max_concurrent_datagrams, over.max_concurrent_datagrams),
        }
    }

    fn merge_logging(base: LoggingConfig, over: LoggingConfig) -> (r: LoggingConfig)
        ensures
            r == merged_logging(base, over),
    {
        LoggingConfig { log_level: layer(base.log_level, over.log_level) }
    }
}

impl Default for ConfigBuilder {
    fn default() -> (r: ConfigBuilder)
        ensures
            r.is_new(),
    {
        ConfigBuilder::new()
    }
}

/// Puts the configuration together: defaults, then the JSON document where there
/// is one, then the command line.
pub fn load(json: Option<json::JsonConfig>, cli: cli::CliConfig) -> (r: Result<
    ServiceConfig,
    String,
>)
    ensures
        exists|b: ConfigBuilder| #[trigger]
            b.is_new() && (match json {
                Some(j) => b.with_json(j),
                None => b,
            }).with_cli(cli).builds(r),
{
    let builder = ConfigBuilder::new();
    let ghost fresh = builder;
    let builder = match json {
        Some(json) => builder.merge_json(json),
        None => builder,
    };
    let r = builder.merge_cli(cli).build();
    assert(fresh.is_new());
    r
}

/// Puts the configuration together from defaults and a JSON document.
pub fn load_from_json(json: json::JsonConfig) -> (r: Result<ServiceConfig, String>)
    ensures
        exists|b: ConfigBuilder| #[trigger] b.is_new() && b.with_json(json).builds(r),
{
    let builder = ConfigBuilder::new();
    let ghost fresh = builder;
    let r = builder.merge_json(json).build();
    assert(fresh.is_new());
    r
}

/// Layering transports is associative: three sources may be combined in either
/// grouping.
pub proof fn law_transport_layers_associate(
    a: TransportConfig,
    b: TransportConfig,
    c: TransportConfig,
)
    ensures
        merged_transport(merged_transport(a, b), c) == merged_transport(a, merged_transport(b, c)),
{
}

/// A source that sets nothing changes nothing, and one is not changed by being
/// layered over nothing.
pub proof fn law_unset_transport_is_neutral(a: TransportConfig, unset: TransportConfig)
    requires
        unset.is_unset(),
    ensures
        merged_transport(a, unset) == a,
        merged_transport(unset, a) == a,
{
}

/// The command line wins over the JSON document, which wins over the defaults; of
/// connections it says nothing.
pub proof fn law_command_line_wins(b: ConfigBuilder, json: json::JsonConfig, cli: cli::CliConfig)
    ensures
        b.with_json(json).with_cli(cli).secret == layered(
            layered(b.secret, json.secret),
            cli.secret,
        ),
        b.with_json(json).with_cli(cli).listen == layered(
            layered(b.listen, json.listen),
            cli.listen,
        ),
        json.transport matches Some(t) ==> b.with_json(json).with_cli(cli).transport
            == merged_transport(b.transport, merged_transport(t, cli.transport)),
        b.with_json(json).with_cli(cli).connection == b.with_json(json).connection,
{
    if let Some(t) = json.transport {
        law_transport_layers_associate(b.transport, t, cli.transport);
    }
}

/// Every limit on connections has a value, whatever the JSON document sets: the
/// defaults stand behind it.
pub proof fn law_connection_limits_are_total(b: ConfigBuilder, json: json::JsonConfig)
    requires
        b.is_new(),
    ensures
        b.with_json(json).connection.max_connections is Some,
        b.with_json(json).connection.auth_timeout_secs is Some,
        b.with_json(json).connection.max_concurrent_streams is Some,
        b.with_json(json).connection.max_concurrent_datagrams is Some,
{
}

} // verus!
