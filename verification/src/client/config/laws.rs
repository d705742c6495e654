//! What the sources of a configuration do to each other.
use vstd::prelude::*;

use crate::congestion::Congestion;

use super::cli::{
    CliConfig, CliEndpointConfig, CliLoggingConfig, CliTransportConfig, CliTunConfig,
};
use super::json::JsonConfig;
use super::{
    default_alpn, load, load_from_json, ConfigBuilder, EndpointConfig, LoggingConfig, ServiceConfig,
    TlsMode, TransportConfig, TunConfig,
};

verus! {

/// Whatever a JSON document sets replaces what was there, field by field; what it leaves
/// out stays.
pub proof fn law_document_goes_over(b: ConfigBuilder, json: JsonConfig, r: ConfigBuilder)
    requires
        call_ensures(ConfigBuilder::merge_json, (b, json), r),
    ensures
        ({
            &&& json.secret is Some ==> r.secret == json.secret
            &&& json.secret is None ==> r.secret == b.secret
            &&& json.server is Some ==> r.server == json.server
            &&& json.server is None ==> r.server == b.server
            &&& json.auth_option is Some ==> r.auth_option == json.auth_option
            &&& json.auth_option is None ==> r.auth_option == b.auth_option
        }),
        json.endpoint is None ==> r.endpoint == b.endpoint,
        json.endpoint matches Some(o) ==> {
            &&& o.http is Some ==> r.endpoint.http == o.http
            &&& o.http is None ==> r.endpoint.http == b.endpoint.http
            &&& o.socks is Some ==> r.endpoint.socks == o.socks
            &&& o.socks is None ==> r.endpoint.socks == b.endpoint.socks
            &&& o.tun is None ==> r.endpoint.tun == b.endpoint.tun
            &&& b.endpoint.tun is None ==> r.endpoint.tun == o.tun
            &&& b.endpoint.tun matches Some(x) ==> (o.tun matches Some(y) ==> {
                &&& r.endpoint.tun matches Some(z)
                &&& y.tun_fd is Some ==> z.tun_fd == y.tun_fd
                &&& y.tun_fd is None ==> z.tun_fd == x.tun_fd
                &&& y.tun_ipv4 is Some ==> z.tun_ipv4 == y.tun_ipv4
                &&& y.tun_ipv4 is None ==> z.tun_ipv4 == x.tun_ipv4
                &&& y.tun_ipv6 is Some ==> z.tun_ipv6 == y.tun_ipv6
                &&& y.tun_ipv6 is None ==> z.tun_ipv6 == x.tun_ipv6
                &&& y.tun_mtu is Some ==> z.tun_mtu == y.tun_mtu
                &&& y.tun_mtu is None ==> z.tun_mtu == x.tun_mtu
                &&& y.fake_dns is Some ==> z.fake_dns == y.fake_dns
                &&& y.fake_dns is None ==> z.fake_dns == x.fake_dns
                &&& y.disable_udp_443 is Some ==> z.disable_udp_443 == y.disable_udp_443
                &&& y.disable_udp_443 is None ==> z.disable_udp_443 == x.disable_udp_443
            })
        },
        json.transport is None ==> r.transport == b.transport,
        json.transport matches Some(o) ==> {
            &&& o.bind is Some ==> r.transport.bind == o.bind
            &&& o.bind is None ==> r.transport.bind == b.transport.bind
            &&& o.server_name is Some ==> r.transport.server_name == o.server_name
            &&& o.server_name is None ==> r.transport.server_name == b.transport.server_name
            &&& o.tls_mode is Some ==> r.transport.tls_mode == o.tls_mode
            &&& o.tls_mode is None ==> r.transport.tls_mode == b.transport.tls_mode
            &&& o.ca_cert is Some ==> r.transport.ca_cert == o.ca_cert
            &&& o.ca_cert is None ==> r.transport.ca_cert == b.transport.ca_cert
            &&& o.client_cert is Some ==> r.transport.client_cert == o.client_cert
            &&& o.client_cert is None ==> r.transport.client_cert == b.transport.client_cert
            &&& o.client_key is Some ==> r.transport.client_key == o.client_key
            &&& o.client_key is None ==> r.transport.client_key == b.transport.client_key
            &&& o.zero_rtt is Some ==> r.transport.zero_rtt == o.zero_rtt
            &&& o.zero_rtt is None ==> r.transport.zero_rtt == b.transport.zero_rtt
            &&& o.alpn_protocols is Some ==> r.transport.alpn_protocols == o.alpn_protocols
            &&& o.alpn_protocols is None
                ==> r.transport.alpn_protocols == b.transport.alpn_protocols
            &&& o.congestion is Some ==> r.transport.congestion == o.congestion
            &&& o.congestion is None ==> r.transport.congestion == b.transport.congestion
            &&& o.cwnd_init is Some ==> r.transport.cwnd_init == o.cwnd_init
            &&& o.cwnd_init is None ==> r.transport.cwnd_init == b.transport.cwnd_init
            &&& o.idle_timeout is Some ==> r.transport.idle_timeout == o.idle_timeout
            &&& o.idle_timeout is None ==> r.transport.idle_timeout == b.transport.idle_timeout
            &&& o.keep_alive is Some ==> r.transport.keep_alive == o.keep_alive
            &&& o.keep_alive is None ==> r.transport.keep_alive == b.transport.keep_alive
            &&& o.max_streams is Some ==> r.transport.max_streams == o.max_streams
            &&& o.max_streams is None ==> r.transport.max_streams == b.transport.max_streams
        },
        json.logging is None ==> r.logging == b.logging,
        json.logging matches Some(o) ==> {
            &&& o.log_level is Some ==> r.logging.log_level == o.log_level
            &&& o.log_level is None ==> r.logging.log_level == b.logging.log_level
        },
{
}

/// Whatever the command line sets replaces what was there, field by field; what it leaves
/// out stays.
pub proof fn law_command_line_goes_over(b: ConfigBuilder, cli: CliConfig, r: ConfigBuilder)
    requires
        call_ensures(ConfigBuilder::merge_cli, (b, cli), r),
    ensures
        ({
            &&& cli.secret is Some ==> r.secret == cli.secret
            &&& cli.secret is None ==> r.secret == b.secret
            &&& cli.server is Some ==> r.server == cli.server
            &&& cli.server is None ==> r.server == b.server
            &&& cli.auth_option is Some ==> r.auth_option == cli.auth_option
            &&& cli.auth_option is None ==> r.auth_option == b.auth_option
            &&& cli.endpoint.http is Some ==> r.endpoint.http == cli.endpoint.http
            &&& cli.endpoint.http is None ==> r.endpoint.http == b.endpoint.http
            &&& cli.endpoint.socks is Some ==> r.endpoint.socks == cli.endpoint.socks
            &&& cli.endpoint.socks is None ==> r.endpoint.socks == b.endpoint.socks
            &&& cli.endpoint.tun is None ==> r.endpoint.tun == b.endpoint.tun
            &&& b.endpoint.tun is None ==> r.endpoint.tun == cli.endpoint.tun
            &&& b.endpoint.tun matches Some(x) ==> (cli.endpoint.tun matches Some(y) ==> {
                &&& r.endpoint.tun matches Some(z)
                &&& y.tun_fd is Some ==> z.tun_fd == y.tun_fd
                &&& y.tun_fd is None ==> z.tun_fd == x.tun_fd
                &&& y.tun_ipv4 is Some ==> z.tun_ipv4 == y.tun_ipv4
                &&& y.tun_ipv4 is None ==> z.tun_ipv4 == x.tun_ipv4
                &&& y.tun_ipv6 is Some ==> z.tun_ipv6 == y.tun_ipv6
                &&& y.tun_ipv6 is None ==> z.tun_ipv6 == x.tun_ipv6
                &&& y.tun_mtu is Some ==> z.tun_mtu == y.tun_mtu
                &&& y.tun_mtu is None ==> z.tun_mtu == x.tun_mtu
                &&& y.fake_dns is Some ==> z.fake_dns == y.fake_dns
                &&& y.fake_dns is None ==> z.fake_dns == x.fake_dns
                &&& y.disable_udp_443 is Some ==> z.disable_udp_443 == y.disable_udp_443
                &&& y.disable_udp_443 is None ==> z.disable_udp_443 == x.disable_udp_443
            })
            &&& cli.transport.bind is Some ==> r.transport.bind == cli.transport.bind
            &&& cli.transport.bind is None ==> r.transport.bind == b.transport.bind
            &&& cli.transport.server_name is Some
                ==> r.transport.server_name == cli.transport.server_name
            &&& cli.transport.server_name is None
                ==> r.transport.server_name == b.transport.server_name
            &&& cli.transport.tls_mode is Some ==> r.transport.tls_mode == cli.transport.tls_mode
            &&& cli.transport.tls_mode is None ==> r.transport.tls_mode == b.transport.tls_mode
            &&& cli.transport.ca_cert is Some ==> r.transport.ca_cert == cli.transport.ca_cert
            &&& cli.transport.ca_cert is None ==> r.transport.ca_cert == b.transport.ca_cert
            &&& cli.transport.client_cert is Some
                ==> r.transport.client_cert == cli.transport.client_cert
            &&& cli.transport.client_cert is None
                ==> r.transport.client_cert == b.transport.client_cert
            &&& cli.transport.client_key is Some
                ==> r.transport.client_key == cli.transport.client_key
            &&& cli.transport.client_key is None
                ==> r.transport.client_key == b.transport.client_key
            &&& cli.transport.zero_rtt is Some ==> r.transport.zero_rtt == cli.transport.zero_rtt
            &&& cli.transport.zero_rtt is None ==> r.transport.zero_rtt == b.transport.zero_rtt
            &&& cli.transport.alpn_protocols is Some
                ==> r.transport.alpn_protocols == cli.transport.alpn_protocols
            &&& cli.transport.alpn_protocols is None
                ==> r.transport.alpn_protocols == b.transport.alpn_protocols
            &&& cli.transport.congestion is Some
                ==> r.transport.congestion == cli.transport.congestion
            &&& cli.transport.congestion is None
                ==> r.transport.congestion == b.transport.congestion
            &&& cli.transport.cwnd_init is Some ==> r.transport.cwnd_init == cli.transport.cwnd_init
            &&& cli.transport.cwnd_init is None ==> r.transport.cwnd_init == b.transport.cwnd_init
            &&& cli.transport.idle_timeout is Some
                ==> r.transport.idle_timeout == cli.transport.idle_timeout
            &&& cli.transport.idle_timeout is None
                ==> r.transport.idle_timeout == b.transport.idle_timeout
            &&& cli.transport.keep_alive is Some
                ==> r.transport.keep_alive == cli.transport.keep_alive
            &&& cli.transport.keep_alive is None
                ==> r.transport.keep_alive == b.transport.keep_alive
            &&& cli.transport.max_streams is Some
                ==> r.transport.max_streams == cli.transport.max_streams
            &&& cli.transport.max_streams is None
                ==> r.transport.max_streams == b.transport.max_streams
            &&& cli.logging.log_level is Some ==> r.logging.log_level == cli.logging.log_level
            &&& cli.logging.log_level is None ==> r.logging.log_level == b.logging.log_level
        }),
{
}

/// A configuration is complete where the secret and the server are set, and then it is what was
/// put together; the first of the two that is missing is named.
pub proof fn law_complete_configuration_is_built(b: ConfigBuilder, r: Result<ServiceConfig, String>)
    requires
        call_ensures(ConfigBuilder::build, (b,), r),
    ensures
        r is Ok <==> b.secret is Some && b.server is Some,
        r matches Ok(c) ==> {
            &&& b.secret == Some(c.secret)
            &&& b.server == Some(c.server)
            &&& c.auth_option == b.auth_option
            &&& c.endpoint == b.endpoint
            &&& c.transport == b.transport
            &&& c.logging == b.logging
        },
        b.secret is None ==> (r matches Err(m) && m@ == "missing required field: secret"@),
        b.secret is Some && b.server is None ==> (r matches Err(m) && m@
            == "missing required field: server"@),
{
}

/// Before any source is read, the required fields are missing and the rest has its
/// defaults.
pub proof fn law_defaults_come_first(r: ConfigBuilder)
    requires
        call_ensures(ConfigBuilder::new, (), r),
    ensures
        r.secret is None,
        r.server is None,
        r.auth_option is None,
        r.endpoint.http is None,
        r.endpoint.socks is None,
        r.endpoint.tun is None,
        r.transport.bind is None,
        r.transport.server_name is None,
        r.transport.tls_mode == Some(TlsMode::Tls),
        r.transport.ca_cert is None,
        r.transport.client_cert is None,
        r.transport.client_key is None,
        r.transport.zero_rtt == Some(false),
        (r.transport.alpn_protocols matches Some(v) && v@.len() == 1 && v@[0]@ == seq![
            0x68u8,
            0x33u8,
        ]),
        r.transport.congestion == Some(Congestion::Bbr),
        r.transport.cwnd_init is None,
        r.transport.idle_timeout == Some(30000u64),
        r.transport.keep_alive == Some(8000u64),
        r.transport.max_streams == Some(100u64),
        (r.logging.log_level matches Some(s) && s@ == "INFO"@),
{
}

/// In the configuration that the client runs with, each value is the one of the command line,
/// or else the one of the JSON document, or else the default.
pub proof fn law_sources_are_ranked(
    json: Option<JsonConfig>,
    cli: CliConfig,
    r: Result<ServiceConfig, String>,
)
    requires
        call_ensures(load, (json, cli), r),
    ensures
        r is Ok <==> (cli.secret is Some || (json matches Some(j) && j.secret is Some)) && (
        cli.server is Some || (json matches Some(j) && j.server is Some)),
        r matches Ok(c) ==> {
            &&& cli.secret is Some ==> cli.secret == Some(c.secret)
            &&& cli.secret is None ==> (json matches Some(j) && j.secret == Some(c.secret))
            &&& cli.server is Some ==> cli.server == Some(c.server)
            &&& cli.server is None ==> (json matches Some(j) && j.server == Some(c.server))
            &&& cli.auth_option is Some ==> c.auth_option == cli.auth_option
            &&& cli.auth_option is None ==> (json matches Some(j)
                ==> c.auth_option == j.auth_option)
            &&& cli.auth_option is None && json is None ==> c.auth_option is None
            &&& cli.endpoint.http is Some ==> c.endpoint.http == cli.endpoint.http
            &&& cli.endpoint.http is None ==> (json matches Some(j) ==> (j.endpoint matches Some(o)
                ==> (o.http is Some ==> c.endpoint.http == o.http)))
            &&& cli.endpoint.http is None && (json matches Some(j) ==> (j.endpoint matches Some(o)
                ==> o.http is None)) ==> c.endpoint.http is None
            &&& cli.endpoint.socks is Some ==> c.endpoint.socks == cli.endpoint.socks
            &&& cli.endpoint.socks is None ==> (json matches Some(j) ==> (j.endpoint matches Some(o)
                ==> (o.socks is Some ==> c.endpoint.socks == o.socks)))
            &&& cli.endpoint.socks is None && (json matches Some(j) ==> (j.endpoint matches Some(o)
                ==> o.socks is None)) ==> c.endpoint.socks is None
            &&& cli.endpoint.tun is None && (json matches Some(j) ==> (j.endpoint matches Some(o)
                ==> o.tun is None)) ==> c.endpoint.tun is None
            &&& cli.endpoint.tun matches Some(x) ==> {
                &&& c.endpoint.tun matches Some(z)
                &&& x.tun_fd is Some ==> z.tun_fd == x.tun_fd
                &&& x.tun_ipv4 is Some ==> z.tun_ipv4 == x.tun_ipv4
                &&& x.tun_ipv6 is Some ==> z.tun_ipv6 == x.tun_ipv6
                &&& x.tun_mtu is Some ==> z.tun_mtu == x.tun_mtu
                &&& x.fake_dns is Some ==> z.fake_dns == x.fake_dns
                &&& x.disable_udp_443 is Some ==> z.disable_udp_443 == x.disable_udp_443
            }
            &&& json matches Some(j) ==> (j.endpoint matches Some(o) ==> (o.tun matches Some(y)
                ==> {
                &&& c.endpoint.tun matches Some(z)
                &&& (cli.endpoint.tun matches Some(x) ==> x.tun_fd is None) ==> z.tun_fd == y.tun_fd
                &&& (cli.endpoint.tun matches Some(x) ==> x.tun_ipv4 is None)
                    ==> z.tun_ipv4 == y.tun_ipv4
                &&& (cli.endpoint.tun matches Some(x) ==> x.tun_ipv6 is None)
                    ==> z.tun_ipv6 == y.tun_ipv6
                &&& (cli.endpoint.tun matches Some(x) ==> x.tun_mtu is None)
                    ==> z.tun_mtu == y.tun_mtu
                &&& (cli.endpoint.tun matches Some(x) ==> x.fake_dns is None)
                    ==> z.fake_dns == y.fake_dns
                &&& (cli.endpoint.tun matches Some(x) ==> x.disable_udp_443 is None)
                    ==> z.disable_udp_443 == y.disable_udp_443
            }))
            &&& cli.transport.bind is Some ==> c.transport.bind == cli.transport.bind
            &&& cli.transport.bind is None ==> (json matches Some(j)
                ==> (j.transport matches Some(o) ==> (o.bind is Some
                ==> c.transport.bind == o.bind)))
            &&& cli.transport.bind is None && (json matches Some(j) ==> (j.transport matches Some(o)
                ==> o.bind is None)) ==> c.transport.bind is None
            &&& cli.transport.server_name is Some
                ==> c.transport.server_name == cli.transport.server_name
            &&& cli.transport.server_name is None ==> (json matches Some(j)
                ==> (j.transport matches Some(o) ==> (o.server_name is Some
                ==> c.transport.server_name == o.server_name)))
            &&& cli.transport.server_name is None && (json matches Some(j)
                ==> (j.transport matches Some(o) ==> o.server_name is None))
                ==> c.transport.server_name is None
            &&& cli.transport.tls_mode is Some ==> c.transport.tls_mode == cli.transport.tls_mode
            &&& cli.transport.tls_mode is None ==> (json matches Some(j)
                ==> (j.transport matches Some(o) ==> (o.tls_mode is Some
                ==> c.transport.tls_mode == o.tls_mode)))
            &&& cli.transport.tls_mode is None && (json matches Some(j)
                ==> (j.transport matches Some(o) ==> o.tls_mode is None))
                ==> c.transport.tls_mode == Some(TlsMode::Tls)
            &&& cli.transport.ca_cert is Some ==> c.transport.ca_cert == cli.transport.ca_cert
            &&& cli.transport.ca_cert is None ==> (json matches Some(j)
                ==> (j.transport matches Some(o) ==> (o.ca_cert is Some
                ==> c.transport.ca_cert == o.ca_cert)))
            &&& cli.transport.ca_cert is None && (json matches Some(j)
                ==> (j.transport matches Some(o) ==> o.ca_cert is None))
                ==> c.transport.ca_cert is None
            &&& cli.transport.client_cert is Some
                ==> c.transport.client_cert == cli.transport.client_cert
            &&& cli.transport.client_cert is None ==> (json matches Some(j)
                ==> (j.transport matches Some(o) ==> (o.client_cert is Some
                ==> c.transport.client_cert == o.client_cert)))
            &&& cli.transport.client_cert is None && (json matches Some(j)
                ==> (j.transport matches Some(o) ==> o.client_cert is None))
                ==> c.transport.client_cert is None
            &&& cli.transport.client_key is Some
                ==> c.transport.client_key == cli.transport.client_key
            &&& cli.transport.client_key is None ==> (json matches Some(j)
                ==> (j.transport matches Some(o) ==> (o.client_key is Some
                ==> c.transport.client_key == o.client_key)))
            &&& cli.transport.client_key is None && (json matches Some(j)
                ==> (j.transport matches Some(o) ==> o.client_key is None))
                ==> c.transport.client_key is None
            &&& cli.transport.zero_rtt is Some ==> c.transport.zero_rtt == cli.transport.zero_rtt
            &&& cli.transport.zero_rtt is None ==> (json matches Some(j)
                ==> (j.transport matches Some(o) ==> (o.zero_rtt is Some
                ==> c.transport.zero_rtt == o.zero_rtt)))
            &&& cli.transport.zero_rtt is None && (json matches Some(j)
                ==> (j.transport matches Some(o) ==> o.zero_rtt is None))
                ==> c.transport.zero_rtt == Some(false)
            &&& cli.transport.alpn_protocols is Some
                ==> c.transport.alpn_protocols == cli.transport.alpn_protocols
            &&& cli.transport.alpn_protocols is None ==> (json matches Some(j)
                ==> (j.transport matches Some(o) ==> (o.alpn_protocols is Some
                ==> c.transport.alpn_protocols == o.alpn_protocols)))
            &&& cli.transport.alpn_protocols is None && (json matches Some(j)
                ==> (j.transport matches Some(o) ==> o.alpn_protocols is None))
                ==> (c.transport.alpn_protocols matches Some(v) && v@.len() == 1 && v@[0]@
                    == seq![0x68u8, 0x33u8])
            &&& cli.transport.congestion is Some
                ==> c.transport.congestion == cli.transport.congestion
            &&& cli.transport.congestion is None ==> (json matches Some(j)
                ==> (j.transport matches Some(o) ==> (o.congestion is Some
                ==> c.transport.congestion == o.congestion)))
            &&& cli.transport.congestion is None && (json matches Some(j)
                ==> (j.transport matches Some(o) ==> o.congestion is None))
                ==> c.transport.congestion == Some(Congestion::Bbr)
            &&& cli.transport.cwnd_init is Some ==> c.transport.cwnd_init == cli.transport.cwnd_init
            &&& cli.transport.cwnd_init is None ==> (json matches Some(j)
                ==> (j.transport matches Some(o) ==> (o.cwnd_init is Some
                ==> c.transport.cwnd_init == o.cwnd_init)))
            &&& cli.transport.cwnd_init is None && (json matches Some(j)
                ==> (j.transport matches Some(o) ==> o.cwnd_init is None))
                ==> c.transport.cwnd_init is None
            &&& cli.transport.idle_timeout is Some
                ==> c.transport.idle_timeout == cli.transport.idle_timeout
            &&& cli.transport.idle_timeout is None ==> (json matches Some(j)
                ==> (j.transport matches Some(o) ==> (o.idle_timeout is Some
                ==> c.transport.idle_timeout == o.idle_timeout)))
            &&& cli.transport.idle_timeout is None && (json matches Some(j)
                ==> (j.transport matches Some(o) ==> o.idle_timeout is None))
                ==> c.transport.idle_timeout == Some(30000u64)
            &&& cli.transport.keep_alive is Some
                ==> c.transport.keep_alive == cli.transport.keep_alive
            &&& cli.transport.keep_alive is None ==> (json matches Some(j)
                ==> (j.transport matches Some(o) ==> (o.keep_alive is Some
                ==> c.transport.keep_alive == o.keep_alive)))
            &&& cli.transport.keep_alive is None && (json matches Some(j)
                ==> (j.transport matches Some(o) ==> o.keep_alive is None))
                ==> c.transport.keep_alive == Some(8000u64)
            &&& cli.transport.max_streams is Some
                ==> c.transport.max_streams == cli.transport.max_streams
            &&& cli.transport.max_streams is None ==> (json matches Some(j)
                ==> (j.transport matches Some(o) ==> (o.max_streams is Some
                ==> c.transport.max_streams == o.max_streams)))
            &&& cli.transport.max_streams is None && (json matches Some(j)
                ==> (j.transport matches Some(o) ==> o.max_streams is None))
                ==> c.transport.max_streams == Some(100u64)
            &&& cli.logging.log_level is Some ==> c.logging.log_level == cli.logging.log_level
            &&& cli.logging.log_level is None ==> (json matches Some(j)
                ==> (j.logging matches Some(o) ==> (o.log_level is Some
                ==> c.logging.log_level == o.log_level)))
            &&& cli.logging.log_level is None && (json matches Some(j)
                ==> (j.logging matches Some(o) ==> o.log_level is None))
                ==> (c.logging.log_level matches Some(s) && s@ == "INFO"@)
        },
{
}

/// A JSON document alone makes the configuration that it makes under a command line that
/// sets nothing.
pub proof fn law_document_alone(json: JsonConfig, r: Result<ServiceConfig, String>)
    requires
        call_ensures(load_from_json, (json,), r),
    ensures
        r is Ok <==> json.secret is Some && json.server is Some,
        r matches Ok(c) ==> {
            &&& json.secret == Some(c.secret)
            &&& json.server == Some(c.server)
            &&& json.endpoint matches Some(o) ==> (o.http is Some ==> c.endpoint.http == o.http)
            &&& (json.endpoint matches Some(o) ==> o.http is None) ==> c.endpoint.http is None
            &&& json.endpoint matches Some(o) ==> (o.socks is Some ==> c.endpoint.socks == o.socks)
            &&& (json.endpoint matches Some(o) ==> o.socks is None) ==> c.endpoint.socks is None
            &&& json.endpoint matches Some(o) ==> c.endpoint.tun == o.tun
            &&& json.endpoint is None ==> c.endpoint.tun is None
            &&& json.transport matches Some(o) ==> (o.bind is Some ==> c.transport.bind == o.bind)
            &&& (json.transport matches Some(o) ==> o.bind is None) ==> c.transport.bind is None
            &&& json.transport matches Some(o) ==> (o.server_name is Some
                ==> c.transport.server_name == o.server_name)
            &&& (json.transport matches Some(o) ==> o.server_name is None)
                ==> c.transport.server_name is None
            &&& json.transport matches Some(o) ==> (o.tls_mode is Some
                ==> c.transport.tls_mode == o.tls_mode)
            &&& (json.transport matches Some(o) ==> o.tls_mode is None)
                ==> c.transport.tls_mode == Some(TlsMode::Tls)
            &&& json.transport matches Some(o) ==> (o.ca_cert is Some
                ==> c.transport.ca_cert == o.ca_cert)
            &&& (json.transport matches Some(o) ==> o.ca_cert is None)
                ==> c.transport.ca_cert is None
            &&& json.transport matches Some(o) ==> (o.client_cert is Some
                ==> c.transport.client_cert == o.client_cert)
            &&& (json.transport matches Some(o) ==> o.client_cert is None)
                ==> c.transport.client_cert is None
            &&& json.transport matches Some(o) ==> (o.client_key is Some
                ==> c.transport.client_key == o.client_key)
            &&& (json.transport matches Some(o) ==> o.client_key is None)
                ==> c.transport.client_key is None
            &&& json.transport matches Some(o) ==> (o.zero_rtt is Some
                ==> c.transport.zero_rtt == o.zero_rtt)
            &&& (json.transport matches Some(o) ==> o.zero_rtt is None)
                ==> c.transport.zero_rtt == Some(false)
            &&& json.transport matches Some(o) ==> (o.alpn_protocols is Some
                ==> c.transport.alpn_protocols == o.alpn_protocols)
            &&& (json.transport matches Some(o) ==> o.alpn_protocols is None)
                ==> (c.transport.alpn_protocols matches Some(v) && v@.len() == 1 && v@[0]@
                    == seq![0x68u8, 0x33u8])
            &&& json.transport matches Some(o) ==> (o.congestion is Some
                ==> c.transport.congestion == o.congestion)
            &&& (json.transport matches Some(o) ==> o.congestion is None)
                ==> c.transport.congestion == Some(Congestion::Bbr)
            &&& json.transport matches Some(o) ==> (o.cwnd_init is Some
                ==> c.transport.cwnd_init == o.cwnd_init)
            &&& (json.transport matches Some(o) ==> o.cwnd_init is None)
                ==> c.transport.cwnd_init is None
            &&& json.transport matches Some(o) ==> (o.idle_timeout is Some
                ==> c.transport.idle_timeout == o.idle_timeout)
            &&& (json.transport matches Some(o) ==> o.idle_timeout is None)
                ==> c.transport.idle_timeout == Some(30000u64)
            &&& json.transport matches Some(o) ==> (o.keep_alive is Some
                ==> c.transport.keep_alive == o.keep_alive)
            &&& (json.transport matches Some(o) ==> o.keep_alive is None)
                ==> c.transport.keep_alive == Some(8000u64)
            &&& json.transport matches Some(o) ==> (o.max_streams is Some
                ==> c.transport.max_streams == o.max_streams)
            &&& (json.transport matches Some(o) ==> o.max_streams is None)
                ==> c.transport.max_streams == Some(100u64)
            &&& json.logging matches Some(o) ==> (o.log_level is Some
                ==> c.logging.log_level == o.log_level)
            &&& (json.logging matches Some(o) ==> o.log_level is None)
                ==> (c.logging.log_level matches Some(s) && s@ == "INFO"@)
            &&& c.auth_option == json.auth_option
        },
        json.secret is None ==> (r matches Err(m) && m@ == "missing required field: secret"@),
        json.secret is Some && json.server is None ==> (r matches Err(m) && m@
            == "missing required field: server"@),
{
}

/// The transport that the command line asks for is the one that is layered.
pub proof fn law_transport_is_taken_over(cli: CliTransportConfig, r: TransportConfig)
    requires
        call_ensures(CliTransportConfig::into_transport_config, (cli,), r),
    ensures
        r.bind == cli.bind,
        r.server_name == cli.server_name,
        r.tls_mode == cli.tls_mode,
        r.ca_cert == cli.ca_cert,
        r.client_cert == cli.client_cert,
        r.client_key == cli.client_key,
        r.zero_rtt == cli.zero_rtt,
        r.alpn_protocols == cli.alpn_protocols,
        r.congestion == cli.congestion,
        r.cwnd_init == cli.cwnd_init,
        r.idle_timeout == cli.idle_timeout,
        r.keep_alive == cli.keep_alive,
        r.max_streams == cli.max_streams,
{
}

/// The logging that the command line asks for is the one that is layered.
pub proof fn law_logging_is_taken_over(cli: CliLoggingConfig, r: LoggingConfig)
    requires
        call_ensures(CliLoggingConfig::into_logging_config, (cli,), r),
    ensures
        r.log_level == cli.log_level,
{
}

/// The TUN device that the command line asks for is the one that is layered.
pub proof fn law_tun_is_taken_over(cli: CliTunConfig, r: TunConfig)
    requires
        call_ensures(CliTunConfig::into_tun_config, (cli,), r),
    ensures
        r.tun_fd == cli.tun_fd,
        r.tun_ipv4 == cli.tun_ipv4,
        r.tun_ipv6 == cli.tun_ipv6,
        r.tun_mtu == cli.tun_mtu,
        r.fake_dns == cli.fake_dns,
        r.disable_udp_443 == cli.disable_udp_443,
{
}

/// The endpoints that the command line asks for are the ones that are layered.
pub proof fn law_endpoints_are_taken_over(cli: CliEndpointConfig, r: EndpointConfig)
    requires
        call_ensures(CliEndpointConfig::into_endpoint_config, (cli,), r),
    ensures
        r.http == cli.http,
        r.socks == cli.socks,
        cli.tun is None <==> r.tun is None,
        cli.tun matches Some(x) ==> {
            &&& r.tun matches Some(z)
            &&& z.tun_fd == x.tun_fd
            &&& z.tun_ipv4 == x.tun_ipv4
            &&& z.tun_ipv6 == x.tun_ipv6
            &&& z.tun_mtu == x.tun_mtu
            &&& z.fake_dns == x.fake_dns
            &&& z.disable_udp_443 == x.disable_udp_443
        },
{
}

/// A TUN device without choices has an MTU of 1500, a pool of its own, and port 443 open.
pub proof fn law_tun_device_defaults(r: TunConfig)
    requires
        call_ensures(<TunConfig as Default>::default, (), r),
    ensures
        r.tun_fd is None,
        r.tun_ipv4 is None,
        r.tun_ipv6 is None,
        r.tun_mtu == Some(1500u16),
        r.fake_dns matches Some(s) && s@ == "198.18.0.0/16"@,
        r.disable_udp_443 == Some(false),
{
}

/// HTTP/3 is the one protocol that is offered by default.
pub proof fn law_http3_is_offered(v: Vec<Vec<u8>>)
    requires
        call_ensures(default_alpn, (), v),
    ensures
        v@.len() == 1,
        v@[0]@.len() == 2,
        v@[0]@[0] == 'h' as int,
        v@[0]@[1] == '3' as int,
{
}

/// The default builder is the new one, part by part.
pub proof fn law_default_parts_are_the_builders(
    b: ConfigBuilder,
    new: ConfigBuilder,
    t: TransportConfig,
    l: LoggingConfig,
    mode: TlsMode,
)
    requires
        call_ensures(<ConfigBuilder as Default>::default, (), b),
        call_ensures(ConfigBuilder::new, (), new),
        call_ensures(<TransportConfig as Default>::default, (), t),
        call_ensures(<LoggingConfig as Default>::default, (), l),
        call_ensures(<TlsMode as Default>::default, (), mode),
    ensures
        b.secret is None,
        new.secret is None,
        b.transport.tls_mode == Some(mode),
        t.tls_mode == new.transport.tls_mode,
        b.transport.tls_mode == new.transport.tls_mode,
        t.zero_rtt == new.transport.zero_rtt,
        b.transport.zero_rtt == new.transport.zero_rtt,
        t.congestion == new.transport.congestion,
        b.transport.congestion == new.transport.congestion,
        t.cwnd_init == new.transport.cwnd_init,
        b.transport.cwnd_init == new.transport.cwnd_init,
        t.idle_timeout == new.transport.idle_timeout,
        b.transport.idle_timeout == new.transport.idle_timeout,
        t.keep_alive == new.transport.keep_alive,
        b.transport.keep_alive == new.transport.keep_alive,
        t.max_streams == new.transport.max_streams,
        b.transport.max_streams == new.transport.max_streams,
        l.log_level matches Some(x) && new.logging.log_level matches Some(y) && x@ == y@,
        b.logging.log_level matches Some(x) && new.logging.log_level matches Some(y) && x@ == y@,
{
}

} // verus!
