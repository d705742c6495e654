//! The configuration as the command line gives it.
use std::path::PathBuf;
use vstd::prelude::*;

use crate::address::SocketAddr;
use crate::congestion::Congestion;

use super::{LoggingConfig, TlsMode, TransportConfig};

verus! {

/// The transport that the command line asks for.
#[derive(Clone, Debug)]
pub struct CliTransportConfig {
    pub tls_mode: Option<TlsMode>,
    pub ca_cert: Option<PathBuf>,
    pub tls_cert: Option<PathBuf>,
    pub tls_key: Option<PathBuf>,
    pub zero_rtt: Option<bool>,
    pub alpn_protocols: Option<Vec<Vec<u8>>>,
    pub congestion: Option<Congestion>,
    pub cwnd_init: Option<u64>,
    pub idle_timeout: Option<u64>,
    pub keep_alive: Option<u64>,
    pub max_streams: Option<u64>,
}

/// The logging that the command line asks for.
#[derive(Clone, Debug)]
pub struct CliLoggingConfig {
    pub log_level: Option<String>,
}

/// The command line as a configuration in which anything may be missing. It says
/// nothing of connections.
#[derive(Clone, Debug)]
pub struct CliConfig {
    pub secret: Option<String>,
    pub listen: Option<SocketAddr>,
    pub transport: TransportConfig,
    pub logging: LoggingConfig,
}

impl CliTransportConfig {
    /// What the command line sets, and nothing else.
    pub fn into_transport_config(self) -> (r: TransportConfig)
        ensures
            r == (TransportConfig {
                tls_mode: self.tls_mode,
                ca_cert: self.ca_cert,
                tls_cert: self.tls_cert,
                tls_key: self.tls_key,
                zero_rtt: self.zero_rtt,
                alpn_protocols: self.alpn_protocols,
                congestion: self.congestion,
                cwnd_init: self.cwnd_init,
                idle_timeout: self.idle_timeout,
                keep_alive: self.keep_alive,
                max_streams: self.max_streams,
            }),
    {
        TransportConfig {
            tls_mode: self.tls_mode,
            ca_cert: self.ca_cert,
            tls_cert: self.tls_cert,
            tls_key: self.tls_key,
            zero_rtt: self.zero_rtt,
            alpn_protocols: self.alpn_protocols,
            congestion: self.congestion,
            cwnd_init: self.cwnd_init,
            idle_timeout: self.idle_timeout,
            keep_alive: self.keep_alive,
            max_streams: self.max_streams,
        }
    }
}

impl CliLoggingConfig {
    /// What the command line sets, and nothing else.
    pub fn into_logging_config(self) -> (r: LoggingConfig)
        ensures
            r == (LoggingConfig { log_level: self.log_level }),
    {
        LoggingConfig { log_level: self.log_level }
    }
}

} // verus!
