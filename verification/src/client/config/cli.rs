//! The configuration as the command line gives it.
use std::path::PathBuf;
use vstd::prelude::*;

use crate::address::SocketAddr;
use crate::congestion::Congestion;

use super::{EndpointConfig, LoggingConfig, TlsMode, TransportConfig, TunConfig};

verus! {

/// The endpoints that the command line asks for.
#[derive(Clone, Debug)]
pub struct CliEndpointConfig {
    pub http: Option<SocketAddr>,
    pub socks: Option<SocketAddr>,
    pub tun: Option<CliTunConfig>,
}

/// The TUN device that the command line asks for.
#[derive(Clone, Debug)]
pub struct CliTunConfig {
    pub tun_fd: Option<i32>,
    pub tun_ipv4: Option<String>,
    pub tun_ipv6: Option<String>,
    pub tun_mtu: Option<u16>,
    pub fake_dns: Option<String>,
    pub disable_udp_443: Option<bool>,
}

/// The transport that the command line asks for.
#[derive(Clone, Debug)]
pub struct CliTransportConfig {
    pub bind: Option<SocketAddr>,
    pub server_name: Option<String>,
    pub tls_mode: Option<TlsMode>,
    pub ca_cert: Option<PathBuf>,
    pub client_cert: Option<PathBuf>,
    pub client_key: Option<PathBuf>,
    pub zero_rtt: Option<bool>,
    pub alpn_protocols: Option<Vec<Vec<u8>>>,
    pub congestion: Option<Congestion>,
    pub cwnd_init: Option<u64>,
    pub idle_timeout: Option<u64>,
    pub keep_alive: Option<u64>,
    pub max_streams: Option<u64>,
}

/// The logging that the command line asks for.
#[derive(Clone, Debug)]
pub struct CliLoggingConfig {
    pub log_level: Option<String>,
}

/// The command line as a configuration in which anything may be missing.
#[derive(Clone, Debug)]
pub struct CliConfig {
    pub secret: Option<String>,
    pub server: Option<String>,
    pub auth_option: Option<String>,
    pub endpoint: EndpointConfig,
    pub transport: TransportConfig,
    pub logging: LoggingConfig,
}

impl CliTunConfig {
    /// What the command line sets, and nothing else.
    pub open spec fn as_tun(self) -> TunConfig {
        TunConfig {
            tun_fd: self.tun_fd,
            tun_ipv4: self.tun_ipv4,
            tun_ipv6: self.tun_ipv6,
            tun_mtu: self.tun_mtu,
            fake_dns: self.fake_dns,
            disable_udp_443: self.disable_udp_443,
        }
    }

    /// What the command line sets, and nothing else.
    pub fn into_tun_config(self) -> (r: TunConfig)
        ensures
            r == self.as_tun(),
    {
        TunConfig {
            tun_fd: self.tun_fd,
            tun_ipv4: self.tun_ipv4,
            tun_ipv6: self.tun_ipv6,
            tun_mtu: self.tun_mtu,
            fake_dns: self.fake_dns,
            disable_udp_443: self.disable_udp_443,
        }
    }
}

impl CliEndpointConfig {
    /// What the command line sets, and nothing else.
    pub fn into_endpoint_config(self) -> (r: EndpointConfig)
        ensures
            r == (EndpointConfig {
                http: self.http,
                socks: self.socks,
                tun: match self.tun {
                    Some(t) => Some(t.as_tun()),
                    None => None,
                },
            }),
    {
        EndpointConfig {
            http: self.http,
            socks: self.socks,
            tun: match self.tun {
                Some(tun) => Some(tun.into_tun_config()),
                None => None,
            },
        }
    }
}

impl CliTransportConfig {
    /// What the command line sets, and nothing else.
    pub fn into_transport_config(self) -> (r: TransportConfig)
        ensures
            r == (TransportConfig {
                bind: self.bind,
                server_name: self.server_name,
                tls_mode: self.tls_mode,
                ca_cert: self.ca_cert,
                client_cert: self.client_cert,
                client_key: self.client_key,
                zero_rtt: self.zero_rtt,
                alpn_protocols: self.alpn_protocols,
                congestion: self.congestion,
                cwnd_init: self.cwnd_init,
                idle_timeout: self.idle_timeout,
                keep_alive: self.keep_alive,
                max_streams: self.max_streams,
            }),
    {
        TransportConfig {
            bind: self.bind,
            server_name: self.server_name,
            tls_mode: self.tls_mode,
            ca_cert: self.ca_cert,
            client_cert: self.client_cert,
            client_key: self.client_key,
            zero_rtt: self.zero_rtt,
            alpn_protocols: self.alpn_protocols,
            congestion: self.congestion,
            cwnd_init: self.cwnd_init,
            idle_timeout: self.idle_timeout,
            keep_alive: self.keep_alive,
            max_streams: self.max_streams,
        }
    }
}

impl CliLoggingConfig {
    /// What the command line sets, and nothing else.
    pub fn into_logging_config(self) -> (r: LoggingConfig)
        ensures
            r == (LoggingConfig { log_level: self.log_level }),
    {
        LoggingConfig { log_level: self.log_level }
    }
}

} // verus!
