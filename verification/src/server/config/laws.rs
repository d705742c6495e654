//! What the sources of a configuration do to each other.
use vstd::prelude::*;

use crate::congestion::Congestion;

use super::cli::{CliConfig, CliLoggingConfig, CliTransportConfig};
use super::json::JsonConfig;
use super::{
    load, load_from_json, ConfigBuilder, ConnectionConfig, LoggingConfig, ServiceConfig, TlsMode,
    TransportConfig,
};

verus! {

/// Whatever a JSON document sets replaces what was there, field by field; what it leaves
/// out stays.
pub proof fn law_document_goes_over(b: ConfigBuilder, json: JsonConfig, r: ConfigBuilder)
    requires
        call_ensures(ConfigBuilder::merge_json, (b, json), r),
    ensures
        ({
            &&& json.secret is Some ==> r.secret == json.secret
            &&& json.secret is None ==> r.secret == b.secret
            &&& json.listen is Some ==> r.listen == json.listen
            &&& json.listen is None ==> r.listen == b.listen
        }),
        json.transport is None ==> r.transport == b.transport,
        json.transport matches Some(o) ==> {
            &&& o.tls_mode is Some ==> r.transport.tls_mode == o.tls_mode
            &&& o.tls_mode is None ==> r.transport.tls_mode == b.transport.tls_mode
            &&& o.ca_cert is Some ==> r.transport.ca_cert == o.ca_cert
            &&& o.ca_cert is None ==> r.transport.ca_cert == b.transport.ca_cert
            &&& o.tls_cert is Some ==> r.transport.tls_cert == o.tls_cert
            &&& o.tls_cert is None ==> r.transport.tls_cert == b.transport.tls_cert
            &&& o.tls_key is Some ==> r.transport.tls_key == o.tls_key
            &&& o.tls_key is None ==> r.transport.tls_key == b.transport.tls_key
            &&& o.zero_rtt is Some ==> r.transport.zero_rtt == o.zero_rtt
            &&& o.zero_rtt is None ==> r.transport.zero_rtt == b.transport.zero_rtt
            &&& o.alpn_protocols is Some ==> r.transport.alpn_protocols == o.alpn_protocols
            &&& o.alpn_protocols is None
                ==> r.transport.alpn_protocols == b.transport.alpn_protocols
            &&& o.congestion is Some ==> r.transport.congestion == o.congestion
            &&& o.congestion is None ==> r.transport.congestion == b.transport.congestion
            &&& o.cwnd_init is Some ==> r.transport.cwnd_init == o.cwnd_init
            &&& o.cwnd_init is None ==> r.transport.cwnd_init == b.transport.cwnd_init
            &&& o.idle_timeout is Some ==> r.transport.idle_timeout == o.idle_timeout
            &&& o.idle_timeout is None ==> r.transport.idle_timeout == b.transport.idle_timeout
            &&& o.keep_alive is Some ==> r.transport.keep_alive == o.keep_alive
            &&& o.keep_alive is None ==> r.transport.keep_alive == b.transport.keep_alive
            &&& o.max_streams is Some ==> r.transport.max_streams == o.max_streams
            &&& o.max_streams is None ==> r.transport.max_streams == b.transport.max_streams
        },
        json.connection is None ==> r.connection == b.connection,
        json.connection matches Some(o) ==> {
            &&& o.max_connections is Some ==> r.connection.max_connections == o.max_connections
            &&& o.max_connections is None
                ==> r.connection.max_connections == b.connection.max_connections
            &&& o.auth_timeout_secs is Some
                ==> r.connection.auth_timeout_secs == o.auth_timeout_secs
            &&& o.auth_timeout_secs is None
                ==> r.connection.auth_timeout_secs == b.connection.auth_timeout_secs
            &&& o.max_concurrent_streams is Some
                ==> r.connection.max_concurrent_streams == o.max_concurrent_streams
            &&& o.max_concurrent_streams is None
                ==> r.connection.max_concurrent_streams == b.connection.max_concurrent_streams
            &&& o.max_concurrent_datagrams is Some
                ==> r.connection.max_concurrent_datagrams == o.max_concurrent_datagrams
            &&& o.max_concurrent_datagrams is None
                ==> r.connection.max_concurrent_datagrams == b.connection.max_concurrent_datagrams
        },
        json.logging is None ==> r.logging == b.logging,
        json.logging matches Some(o) ==> {
            &&& o.log_level is Some ==> r.logging.log_level == o.log_level
            &&& o.log_level is None ==> r.logging.log_level == b.logging.log_level
        },
{
}

/// Whatever the command line sets replaces what was there, field by field; what it leaves
/// out stays.
pub proof fn law_command_line_goes_over(b: ConfigBuilder, cli: CliConfig, r: ConfigBuilder)
    requires
        call_ensures(ConfigBuilder::merge_cli, (b, cli), r),
    ensures
        ({
            &&& cli.secret is Some ==> r.secret == cli.secret
            &&& cli.secret is None ==> r.secret == b.secret
            &&& cli.listen is Some ==> r.listen == cli.listen
            &&& cli.listen is None ==> r.listen == b.listen
            &&& cli.transport.tls_mode is Some ==> r.transport.tls_mode == cli.transport.tls_mode
            &&& cli.transport.tls_mode is None ==> r.transport.tls_mode == b.transport.tls_mode
            &&& cli.transport.ca_cert is Some ==> r.transport.ca_cert == cli.transport.ca_cert
            &&& cli.transport.ca_cert is None ==> r.transport.ca_cert == b.transport.ca_cert
            &&& cli.transport.tls_cert is Some ==> r.transport.tls_cert == cli.transport.tls_cert
            &&& cli.transport.tls_cert is None ==> r.transport.tls_cert == b.transport.tls_cert
            &&& cli.transport.tls_key is Some ==> r.transport.tls_key == cli.transport.tls_key
            &&& cli.transport.tls_key is None ==> r.transport.tls_key == b.transport.tls_key
            &&& cli.transport.zero_rtt is Some ==> r.transport.zero_rtt == cli.transport.zero_rtt
            &&& cli.transport.zero_rtt is None ==> r.transport.zero_rtt == b.transport.zero_rtt
            &&& cli.transport.alpn_protocols is Some
                ==> r.transport.alpn_protocols == cli.transport.alpn_protocols
            &&& cli.transport.alpn_protocols is None
                ==> r.transport.alpn_protocols == b.transport.alpn_protocols
            &&& cli.transport.congestion is Some
                ==> r.transport.congestion == cli.transport.congestion
            &&& cli.transport.congestion is None
                ==> r.transport.congestion == b.transport.congestion
            &&& cli.transport.cwnd_init is Some ==> r.transport.cwnd_init == cli.transport.cwnd_init
            &&& cli.transport.cwnd_init is None ==> r.transport.cwnd_init == b.transport.cwnd_init
            &&& cli.transport.idle_timeout is Some
                ==> r.transport.idle_timeout == cli.transport.idle_timeout
            &&& cli.transport.idle_timeout is None
                ==> r.transport.idle_timeout == b.transport.idle_timeout
            &&& cli.transport.keep_alive is Some
                ==> r.transport.keep_alive == cli.transport.keep_alive
            &&& cli.transport.keep_alive is None
                ==> r.transport.keep_alive == b.transport.keep_alive
            &&& cli.transport.max_streams is Some
                ==> r.transport.max_streams == cli.transport.max_streams
            &&& cli.transport.max_streams is None
                ==> r.transport.max_streams == b.transport.max_streams
            &&& cli.logging.log_level is Some ==> r.logging.log_level == cli.logging.log_level
            &&& cli.logging.log_level is None ==> r.logging.log_level == b.logging.log_level
        }),
        r.connection == b.connection,
{
}

/// A configuration is complete where the secret and the address to listen on are set, and
/// then it is what was put together; the first of the two that is missing is named.
pub proof fn law_complete_configuration_is_built(b: ConfigBuilder, r: Result<ServiceConfig, String>)
    requires
        call_ensures(ConfigBuilder::build, (b,), r),
    ensures
        r is Ok <==> b.secret is Some && b.listen is Some,
        r matches Ok(c) ==> {
            &&& b.secret == Some(c.secret)
            &&& b.listen == Some(c.listen)
            &&& c.transport == b.transport
            &&& c.connection == b.connection
            &&& c.logging == b.logging
        },
        b.secret is None ==> (r matches Err(m) && m@ == "missing required field: secret"@),
        b.secret is Some && b.listen is None ==> (r matches Err(m) && m@
            == "missing required field: listen"@),
{
}

/// Before any source is read, the required fields are missing and the rest has its
/// defaults.
pub proof fn law_defaults_come_first(r: ConfigBuilder)
    requires
        call_ensures(ConfigBuilder::new, (), r),
    ensures
        r.secret is None,
        r.listen is None,
        r.transport.tls_mode == Some(TlsMode::Tls),
        r.transport.ca_cert is None,
        r.transport.tls_cert is None,
        r.transport.tls_key is None,
        r.transport.zero_rtt == Some(false),
        (r.transport.alpn_protocols matches Some(v) && v@.len() == 1 && v@[0]@ == seq![
            0x68u8,
            0x33u8,
        ]),
        r.transport.congestion == Some(Congestion::Bbr),
        r.transport.cwnd_init is None,
        r.transport.idle_timeout == Some(30000u64),
        r.transport.keep_alive == Some(8000u64),
        r.transport.max_streams == Some(1000u64),
        r.connection.max_connections == Some(10000usize),
        r.connection.auth_timeout_secs == Some(10u64),
        r.connection.max_concurrent_streams == Some(4096usize),
        r.connection.max_concurrent_datagrams == Some(4096usize),
        (r.logging.log_level matches Some(s) && s@ == "INFO"@),
{
}

/// In the configuration that the server runs with, each value is the one of the command line,
/// or else the one of the JSON document, or else the default.
pub proof fn law_sources_are_ranked(
    json: Option<JsonConfig>,
    cli: CliConfig,
    r: Result<ServiceConfig, String>,
)
    requires
        call_ensures(load, (json, cli), r),
    ensures
        r is Ok <==> (cli.secret is Some || (json matches Some(j) && j.secret is Some)) && (
        cli.listen is Some || (json matches Some(j) && j.listen is Some)),
        r matches Ok(c) ==> {
            &&& cli.secret is Some ==> cli.secret == Some(c.secret)
            &&& cli.secret is None ==> (json matches Some(j) && j.secret == Some(c.secret))
            &&& cli.listen is Some ==> cli.listen == Some(c.listen)
            &&& cli.listen is None ==> (json matches Some(j) && j.listen == Some(c.listen))
            &&& cli.transport.tls_mode is Some ==> c.transport.tls_mode == cli.transport.tls_mode
            &&& cli.transport.tls_mode is None ==> (json matches Some(j)
                ==> (j.transport matches Some(o) ==> (o.tls_mode is Some
                ==> c.transport.tls_mode == o.tls_mode)))
            &&& cli.transport.tls_mode is None && (json matches Some(j)
                ==> (j.transport matches Some(o) ==> o.tls_mode is None))
                ==> c.transport.tls_mode == Some(TlsMode::Tls)
            &&& cli.transport.ca_cert is Some ==> c.transport.ca_cert == cli.transport.ca_cert
            &&& cli.transport.ca_cert is None ==> (json matches Some(j)
                ==> (j.transport matches Some(o) ==> (o.ca_cert is Some
                ==> c.transport.ca_cert == o.ca_cert)))
            &&& cli.transport.ca_cert is None && (json matches Some(j)
                ==> (j.transport matches Some(o) ==> o.ca_cert is None))
                ==> c.transport.ca_cert is None
            &&& cli.transport.tls_cert is Some ==> c.transport.tls_cert == cli.transport.tls_cert
            &&& cli.transport.tls_cert is None ==> (json matches Some(j)
                ==> (j.transport matches Some(o) ==> (o.tls_cert is Some
                ==> c.transport.tls_cert == o.tls_cert)))
            &&& cli.transport.tls_cert is None && (json matches Some(j)
                ==> (j.transport matches Some(o) ==> o.tls_cert is None))
                ==> c.transport.tls_cert is None
            &&& cli.transport.tls_key is Some ==> c.transport.tls_key == cli.transport.tls_key
            &&& cli.transport.tls_key is None ==> (json matches Some(j)
                ==> (j.transport matches Some(o) ==> (o.tls_key is Some
                ==> c.transport.tls_key == o.tls_key)))
            &&& cli.transport.tls_key is None && (json matches Some(j)
                ==> (j.transport matches Some(o) ==> o.tls_key is None))
                ==> c.transport.tls_key is None
            &&& cli.transport.zero_rtt is Some ==> c.transport.zero_rtt == cli.transport.zero_rtt
            &&& cli.transport.zero_rtt is None ==> (json matches Some(j)
                ==> (j.transport matches Some(o) ==> (o.zero_rtt is Some
                ==> c.transport.zero_rtt == o.zero_rtt)))
            &&& cli.transport.zero_rtt is None && (json matches Some(j)
                ==> (j.transport matches Some(o) ==> o.zero_rtt is None))
                ==> c.transport.zero_rtt == Some(false)
            &&& cli.transport.alpn_protocols is Some
                ==> c.transport.alpn_protocols == cli.transport.alpn_protocols
            &&& cli.transport.alpn_protocols is None ==> (json matches Some(j)
                ==> (j.transport matches Some(o) ==> (o.alpn_protocols is Some
                ==> c.transport.alpn_protocols == o.alpn_protocols)))
            &&& cli.transport.alpn_protocols is None && (json matches Some(j)
                ==> (j.transport matches Some(o) ==> o.alpn_protocols is None))
                ==> (c.transport.alpn_protocols matches Some(v) && v@.len() == 1 && v@[0]@
                    == seq![0x68u8, 0x33u8])
            &&& cli.transport.congestion is Some
                ==> c.transport.congestion == cli.transport.congestion
            &&& cli.transport.congestion is None ==> (json matches Some(j)
                ==> (j.transport matches Some(o) ==> (o.congestion is Some
                ==> c.transport.congestion == o.congestion)))
            &&& cli.transport.congestion is None && (json matches Some(j)
                ==> (j.transport matches Some(o) ==> o.congestion is None))
                ==> c.transport.congestion == Some(Congestion::Bbr)
            &&& cli.transport.cwnd_init is Some ==> c.transport.cwnd_init == cli.transport.cwnd_init
            &&& cli.transport.cwnd_init is None ==> (json matches Some(j)
                ==> (j.transport matches Some(o) ==> (o.cwnd_init is Some
                ==> c.transport.cwnd_init == o.cwnd_init)))
            &&& cli.transport.cwnd_init is None && (json matches Some(j)
                ==> (j.transport matches Some(o) ==> o.cwnd_init is None))
                ==> c.transport.cwnd_init is None
            &&& cli.transport.idle_timeout is Some
                ==> c.transport.idle_timeout == cli.transport.idle_timeout
            &&& cli.transport.idle_timeout is None ==> (json matches Some(j)
                ==> (j.transport matches Some(o) ==> (o.idle_timeout is Some
                ==> c.transport.idle_timeout == o.idle_timeout)))
            &&& cli.transport.idle_timeout is None && (json matches Some(j)
                ==> (j.transport matches Some(o) ==> o.idle_timeout is None))
                ==> c.transport.idle_timeout == Some(30000u64)
            &&& cli.transport.keep_alive is Some
                ==> c.transport.keep_alive == cli.transport.keep_alive
            &&& cli.transport.keep_alive is None ==> (json matches Some(j)
                ==> (j.transport matches Some(o) ==> (o.keep_alive is Some
                ==> c.transport.keep_alive == o.keep_alive)))
            &&& cli.transport.keep_alive is None && (json matches Some(j)
                ==> (j.transport matches Some(o) ==> o.keep_alive is None))
                ==> c.transport.keep_alive == Some(8000u64)
            &&& cli.transport.max_streams is Some
                ==> c.transport.max_streams == cli.transport.max_streams
            &&& cli.transport.max_streams is None ==> (json matches Some(j)
                ==> (j.transport matches Some(o) ==> (o.max_streams is Some
                ==> c.transport.max_streams == o.max_streams)))
            &&& cli.transport.max_streams is None && (json matches Some(j)
                ==> (j.transport matches Some(o) ==> o.max_streams is None))
                ==> c.transport.max_streams == Some(1000u64)
            &&& json matches Some(j) ==> (j.connection matches Some(o)
                ==> (o.max_connections is Some
                ==> c.connection.max_connections == o.max_connections))
            &&& (json matches Some(j) ==> (j.connection matches Some(o)
                ==> o.max_connections is None)) ==> c.connection.max_connections == Some(10000usize)
            &&& json matches Some(j) ==> (j.connection matches Some(o)
                ==> (o.auth_timeout_secs is Some
                ==> c.connection.auth_timeout_secs == o.auth_timeout_secs))
            &&& (json matches Some(j) ==> (j.connection matches Some(o)
                ==> o.auth_timeout_secs is None)) ==> c.connection.auth_timeout_secs == Some(10u64)
            &&& json matches Some(j) ==> (j.connection matches Some(o)
                ==> (o.max_concurrent_streams is Some
                ==> c.connection.max_concurrent_streams == o.max_concurrent_streams))
            &&& (json matches Some(j) ==> (j.connection matches Some(o)
                ==> o.max_concurrent_streams is None))
                ==> c.connection.max_concurrent_streams == Some(4096usize)
            &&& json matches Some(j) ==> (j.connection matches Some(o)
                ==> (o.max_concurrent_datagrams is Some
                ==> c.connection.max_concurrent_datagrams == o.max_concurrent_datagrams))
            &&& (json matches Some(j) ==> (j.connection matches Some(o)
                ==> o.max_concurrent_datagrams is None))
                ==> c.connection.max_concurrent_datagrams == Some(4096usize)
            &&& cli.logging.log_level is Some ==> c.logging.log_level == cli.logging.log_level
            &&& cli.logging.log_level is None ==> (json matches Some(j)
                ==> (j.logging matches Some(o) ==> (o.log_level is Some
                ==> c.logging.log_level == o.log_level)))
            &&& cli.logging.log_level is None && (json matches Some(j)
                ==> (j.logging matches Some(o) ==> o.log_level is None))
                ==> (c.logging.log_level matches Some(s) && s@ == "INFO"@)
        },
{
}

/// A JSON document alone makes the configuration that it makes under a command line that
/// sets nothing.
pub proof fn law_document_alone(json: JsonConfig, r: Result<ServiceConfig, String>)
    requires
        call_ensures(load_from_json, (json,), r),
    ensures
        r is Ok <==> json.secret is Some && json.listen is Some,
        r matches Ok(c) ==> {
            &&& json.secret == Some(c.secret)
            &&& json.listen == Some(c.listen)
            &&& json.transport matches Some(o) ==> (o.tls_mode is Some
                ==> c.transport.tls_mode == o.tls_mode)
            &&& (json.transport matches Some(o) ==> o.tls_mode is None)
                ==> c.transport.tls_mode == Some(TlsMode::Tls)
            &&& json.transport matches Some(o) ==> (o.ca_cert is Some
                ==> c.transport.ca_cert == o.ca_cert)
            &&& (json.transport matches Some(o) ==> o.ca_cert is None)
                ==> c.transport.ca_cert is None
            &&& json.transport matches Some(o) ==> (o.tls_cert is Some
                ==> c.transport.tls_cert == o.tls_cert)
            &&& (json.transport matches Some(o) ==> o.tls_cert is None)
                ==> c.transport.tls_cert is None
            &&& json.transport matches Some(o) ==> (o.tls_key is Some
                ==> c.transport.tls_key == o.tls_key)
            &&& (json.transport matches Some(o) ==> o.tls_key is None)
                ==> c.transport.tls_key is None
            &&& json.transport matches Some(o) ==> (o.zero_rtt is Some
                ==> c.transport.zero_rtt == o.zero_rtt)
            &&& (json.transport matches Some(o) ==> o.zero_rtt is None)
                ==> c.transport.zero_rtt == Some(false)
            &&& json.transport matches Some(o) ==> (o.alpn_protocols is Some
                ==> c.transport.alpn_protocols == o.alpn_protocols)
            &&& (json.transport matches Some(o) ==> o.alpn_protocols is None)
                ==> (c.transport.alpn_protocols matches Some(v) && v@.len() == 1 && v@[0]@
                    == seq![0x68u8, 0x33u8])
            &&& json.transport matches Some(o) ==> (o.congestion is Some
                ==> c.transport.congestion == o.congestion)
            &&& (json.transport matches Some(o) ==> o.congestion is None)
                ==> c.transport.congestion == Some(Congestion::Bbr)
            &&& json.transport matches Some(o) ==> (o.cwnd_init is Some
                ==> c.transport.cwnd_init == o.cwnd_init)
            &&& (json.transport matches Some(o) ==> o.cwnd_init is None)
                ==> c.transport.cwnd_init is None
            &&& json.transport matches Some(o) ==> (o.idle_timeout is Some
                ==> c.transport.idle_timeout == o.idle_timeout)
            &&& (json.transport matches Some(o) ==> o.idle_timeout is None)
                ==> c.transport.idle_timeout == Some(30000u64)
            &&& json.transport matches Some(o) ==> (o.keep_alive is Some
                ==> c.transport.keep_alive == o.keep_alive)
            &&& (json.transport matches Some(o) ==> o.keep_alive is None)
                ==> c.transport.keep_alive == Some(8000u64)
            &&& json.transport matches Some(o) ==> (o.max_streams is Some
                ==> c.transport.max_streams == o.max_streams)
            &&& (json.transport matches Some(o) ==> o.max_streams is None)
                ==> c.transport.max_streams == Some(1000u64)
            &&& json.connection matches Some(o) ==> (o.max_connections is Some
                ==> c.connection.max_connections == o.max_connections)
            &&& (json.connection matches Some(o) ==> o.max_connections is None)
                ==> c.connection.max_connections == Some(10000usize)
            &&& json.connection matches Some(o) ==> (o.auth_timeout_secs is Some
                ==> c.connection.auth_timeout_secs == o.auth_timeout_secs)
            &&& (json.connection matches Some(o) ==> o.auth_timeout_secs is None)
                ==> c.connection.auth_timeout_secs == Some(10u64)
            &&& json.connection matches Some(o) ==> (o.max_concurrent_streams is Some
                ==> c.connection.max_concurrent_streams == o.max_concurrent_streams)
            &&& (json.connection matches Some(o) ==> o.max_concurrent_streams is None)
                ==> c.connection.max_concurrent_streams == Some(4096usize)
            &&& json.connection matches Some(o) ==> (o.max_concurrent_datagrams is Some
                ==> c.connection.max_concurrent_datagrams == o.max_concurrent_datagrams)
            &&& (json.connection matches Some(o) ==> o.max_concurrent_datagrams is None)
                ==> c.connection.max_concurrent_datagrams == Some(4096usize)
            &&& json.logging matches Some(o) ==> (o.log_level is Some
                ==> c.logging.log_level == o.log_level)
            &&& (json.logging matches Some(o) ==> o.log_level is None)
                ==> (c.logging.log_level matches Some(s) && s@ == "INFO"@)
        },
        json.secret is None ==> (r matches Err(m) && m@ == "missing required field: secret"@),
        json.secret is Some && json.listen is None ==> (r matches Err(m) && m@
            == "missing required field: listen"@),
{
}

/// The transport that the command line asks for is the one that is layered.
pub proof fn law_transport_is_taken_over(cli: CliTransportConfig, r: TransportConfig)
    requires
        call_ensures(CliTransportConfig::into_transport_config, (cli,), r),
    ensures
        r.tls_mode == cli.tls_mode,
        r.ca_cert == cli.ca_cert,
        r.tls_cert == cli.tls_cert,
        r.tls_key == cli.tls_key,
        r.zero_rtt == cli.zero_rtt,
        r.alpn_protocols == cli.alpn_protocols,
        r.congestion == cli.congestion,
        r.cwnd_init == cli.cwnd_init,
        r.idle_timeout == cli.idle_timeout,
        r.keep_alive == cli.keep_alive,
        r.max_streams == cli.max_streams,
{
}

/// The logging that the command line asks for is the one that is layered.
pub proof fn law_logging_is_taken_over(cli: CliLoggingConfig, r: LoggingConfig)
    requires
        call_ensures(CliLoggingConfig::into_logging_config, (cli,), r),
    ensures
        r.log_level == cli.log_level,
{
}

/// What a transport is asked for is what was set, or else what the defaults set.
pub proof fn law_transport_getters_fall_back(
    t: &TransportConfig,
    d: TransportConfig,
    tls_mode: TlsMode,
    zero_rtt: bool,
    congestion: Congestion,
    idle_timeout: u64,
    keep_alive: u64,
    max_streams: u64,
)
    requires
        call_ensures(<TransportConfig as Default>::default, (), d),
        call_ensures(TransportConfig::tls_mode, (t,), tls_mode),
        call_ensures(TransportConfig::zero_rtt, (t,), zero_rtt),
        call_ensures(TransportConfig::congestion, (t,), congestion),
        call_ensures(TransportConfig::idle_timeout, (t,), idle_timeout),
        call_ensures(TransportConfig::keep_alive, (t,), keep_alive),
        call_ensures(TransportConfig::max_streams, (t,), max_streams),
    ensures
        t.tls_mode is Some ==> t.tls_mode == Some(tls_mode),
        t.tls_mode is None ==> d.tls_mode == Some(tls_mode),
        t.zero_rtt is Some ==> t.zero_rtt == Some(zero_rtt),
        t.zero_rtt is None ==> d.zero_rtt == Some(zero_rtt),
        t.congestion is Some ==> t.congestion == Some(congestion),
        t.congestion is None ==> d.congestion == Some(congestion),
        t.idle_timeout is Some ==> t.idle_timeout == Some(idle_timeout),
        t.idle_timeout is None ==> d.idle_timeout == Some(idle_timeout),
        t.keep_alive is Some ==> t.keep_alive == Some(keep_alive),
        t.keep_alive is None ==> d.keep_alive == Some(keep_alive),
        t.max_streams is Some ==> t.max_streams == Some(max_streams),
        t.max_streams is None ==> d.max_streams == Some(max_streams),
{
}

/// What a limit on connections is asked for is what was set, or else what the defaults
/// set; the timeout has two names.
pub proof fn law_connection_getters_fall_back(
    c: &ConnectionConfig,
    d: ConnectionConfig,
    max_connections: usize,
    auth_timeout_secs: u64,
    max_concurrent_streams: usize,
    max_concurrent_datagrams: usize,
    handshake_timeout_secs: u64,
)
    requires
        call_ensures(<ConnectionConfig as Default>::default, (), d),
        call_ensures(ConnectionConfig::max_connections, (c,), max_connections),
        call_ensures(ConnectionConfig::auth_timeout_secs, (c,), auth_timeout_secs),
        call_ensures(ConnectionConfig::max_concurrent_streams, (c,), max_concurrent_streams),
        call_ensures(ConnectionConfig::max_concurrent_datagrams, (c,), max_concurrent_datagrams),
        call_ensures(ConnectionConfig::handshake_timeout_secs, (c,), handshake_timeout_secs),
    ensures
        c.max_connections is Some ==> c.max_connections == Some(max_connections),
        c.max_connections is None ==> d.max_connections == Some(max_connections),
        c.auth_timeout_secs is Some ==> c.auth_timeout_secs == Some(auth_timeout_secs),
        c.auth_timeout_secs is None ==> d.auth_timeout_secs == Some(auth_timeout_secs),
        c.max_concurrent_streams is Some
            ==> c.max_concurrent_streams == Some(max_concurrent_streams),
        c.max_concurrent_streams is None
            ==> d.max_concurrent_streams == Some(max_concurrent_streams),
        c.max_concurrent_datagrams is Some
            ==> c.max_concurrent_datagrams == Some(max_concurrent_datagrams),
        c.max_concurrent_datagrams is None
            ==> d.max_concurrent_datagrams == Some(max_concurrent_datagrams),
        handshake_timeout_secs == auth_timeout_secs,
{
}

/// What a log is asked for is the level that was set, or else the default.
pub proof fn law_logging_getter_falls_back(l: &LoggingConfig, s: &str)
    requires
        call_ensures(LoggingConfig::log_level, (l,), s),
    ensures
        l.log_level matches Some(level) ==> s@ == level@,
        l.log_level is None ==> s@ == "INFO"@,
{
}

/// The default builder is the new one, part by part.
pub proof fn law_default_parts_are_the_builders(
    b: ConfigBuilder,
    new: ConfigBuilder,
    t: TransportConfig,
    l: LoggingConfig,
    mode: TlsMode,
)
    requires
        call_ensures(<ConfigBuilder as Default>::default, (), b),
        call_ensures(ConfigBuilder::new, (), new),
        call_ensures(<TransportConfig as Default>::default, (), t),
        call_ensures(<LoggingConfig as Default>::default, (), l),
        call_ensures(<TlsMode as Default>::default, (), mode),
    ensures
        b.secret is None,
        new.secret is None,
        b.transport.tls_mode == Some(mode),
        t.tls_mode == new.transport.tls_mode,
        b.transport.tls_mode == new.transport.tls_mode,
        t.zero_rtt == new.transport.zero_rtt,
        b.transport.zero_rtt == new.transport.zero_rtt,
        t.congestion == new.transport.congestion,
        b.transport.congestion == new.transport.congestion,
        t.cwnd_init == new.transport.cwnd_init,
        b.transport.cwnd_init == new.transport.cwnd_init,
        t.idle_timeout == new.transport.idle_timeout,
        b.transport.idle_timeout == new.transport.idle_timeout,
        t.keep_alive == new.transport.keep_alive,
        b.transport.keep_alive == new.transport.keep_alive,
        t.max_streams == new.transport.max_streams,
        b.transport.max_streams == new.transport.max_streams,
        l.log_level matches Some(x) && new.logging.log_level matches Some(y) && x@ == y@,
        b.logging.log_level matches Some(x) && new.logging.log_level matches Some(y) && x@ == y@,
{
}

} // verus!
