//! The server as a service: which transport it uses, and how it goes down.
use std::path::PathBuf;
use vstd::prelude::*;

use crate::congestion::Congestion;
use crate::time::{Duration, NANOS_PER_MILLI};

use super::config::{TlsMode, TransportConfig};

verus! {

/// What the QUIC server is made with.
pub struct QuicServerConfig {
    pub enable_zero_rtt: bool,
    pub alpn_protocols: Vec<Vec<u8>>,
    pub tls_cert_key_paths: Option<(PathBuf, PathBuf)>,
    pub root_ca_path: Option<PathBuf>,
    pub enable_self_signed: bool,
    pub max_idle_timeout: Duration,
    pub keep_alive_period: Duration,
    pub max_streams: u64,
    /// The algorithm, and the window that it starts with.
    pub congestion: (Congestion, Option<u64>),
}

/// What was set, or else this.
pub open spec fn or_else<T>(set: Option<T>, default: T) -> T {
    match set {
        Some(v) => v,
        None => default,
    }
}

/// The field that is missing for a mode, in the order in which they are asked
/// for: a certificate and its key, and for mutual TLS the authority's certificate
/// too.
pub open spec fn missing_for_tls(transport: TransportConfig) -> Option<Seq<char>> {
    match or_else(transport.tls_mode, TlsMode::Tls) {
        TlsMode::Tls => if transport.tls_cert is None {
            Some("transport.tls_cert"@)
        } else if transport.tls_key is None {
            Some("transport.tls_key"@)
        } else {
            None
        },
        TlsMode::MTls => if transport.tls_cert is None {
            Some("transport.tls_cert for mTLS"@)
        } else if transport.tls_key is None {
            Some("transport.tls_key for mTLS"@)
        } else if transport.ca_cert is None {
            Some("transport.ca_cert for mTLS"@)
        } else {
            None
        },
        TlsMode::Insecure => None,
    }
}

fn required(field: &str) -> (m: String)
    ensures
        m@ == "'"@ + field@ + "' is required but was not provided"@,
{
    let mut message = "'".to_owned();
    message.append(field);
    message.append("' is required but was not provided");
    message
}

/// What the QUIC server is made with, or the message of what is missing.
pub fn quic_server_from_config(transport: TransportConfig) -> (r: Result<QuicServerConfig, String>)
    ensures
        match missing_for_tls(transport) {
            Some(field) => r matches Err(m) && m@ == "'"@ + field
                + "' is required but was not provided"@,
            None => r matches Ok(q) && {
                let mode = or_else(transport.tls_mode, TlsMode::Tls);
                &&& q.enable_zero_rtt == or_else(transport.zero_rtt, false)
                &&& match transport.alpn_protocols {
                    Some(v) => q.alpn_protocols == v,
                    None => crate::client::config::is_default_alpn(Some(q.alpn_protocols)),
                }
                &&& q.tls_cert_key_paths == if mode is Insecure {
                    None
                } else {
                    Some((transport.tls_cert->0, transport.tls_key->0))
                }
                &&& q.root_ca_path == if mode is MTls {
                    transport.ca_cert
                } else {
                    None
                }
                &&& q.enable_self_signed == (mode is Insecure)
                &&& q.max_idle_timeout.nanos == or_else(transport.idle_timeout, 30000u64)
                    * NANOS_PER_MILLI
                &&& q.keep_alive_period.nanos == or_else(transport.keep_alive, 8000u64)
                    * NANOS_PER_MILLI
                &&& q.max_streams == or_else(transport.max_streams, 1000u64)
                &&& q.congestion == (
                    or_else(transport.congestion, Congestion::Bbr),
                    transport.cwnd_init,
                )
            },
        },
{
    let mode = transport.tls_mode();
    let enable_zero_rtt: bool = transport.zero_rtt();
    let max_idle_timeout = Duration::from_millis(transport.idle_timeout());
    let keep_alive_period = Duration::from_millis(transport.keep_alive());
    let max_streams: u64 = transport.max_streams();
    let congestion = (transport.congestion(), transport.cwnd_init);
    let mut tls_cert_key_paths: Option<(PathBuf, PathBuf)> = None;
    let mut root_ca_path: Option<PathBuf> = None;
    let mut enable_self_signed: bool = false;
    match mode {
        TlsMode::Tls => {
            let cert = match transport.tls_cert {
                Some(cert) => cert,
                None => return Err(required("transport.tls_cert")),
            };
            let key = match transport.tls_key {
                Some(key) => key,
                None => return Err(required("transport.tls_key")),
            };
            tls_cert_key_paths = Some((cert, key));
        },
        TlsMode::MTls => {
            let cert = match transport.tls_cert {
                Some(cert) => cert,
                None => return Err(required("transport.tls_cert for mTLS")),
            };
            let key = match transport.tls_key {
                Some(key) => key,
                None => return Err(required("transport.tls_key for mTLS")),
            };
            let ca = match transport.ca_cert {
                Some(ca) => ca,
                None => return Err(required("transport.ca_cert for mTLS")),
            };
            tls_cert_key_paths = Some((cert, key));
            root_ca_path = Some(ca);
        },
        TlsMode::Insecure => {
            enable_self_signed = true;
        },
    }
    let alpn_protocols = match transport.alpn_protocols {
        Some(v) => v,
        None => crate::client::config::default_alpn(),
    };
    Ok(
        QuicServerConfig {
            enable_zero_rtt,
            alpn_protocols,
            tls_cert_key_paths,
            root_ca_path,
            enable_self_signed,
            max_idle_timeout,
            keep_alive_period,
            max_streams,
            congestion,
        },
    )
}

/// How often a server that goes down looks whether streams are left, in
/// milliseconds.
pub const DRAIN_INTERVAL_MS: u64 = 50;

/// Where a server that goes down stands.
#[derive(Clone, Copy, Debug, PartialEq, Eq, Structural)]
pub enum DrainStep {
    /// No stream is left.
    Drained,
    /// The time is up, and so many streams are left.
    TimedOut(u64),
    /// Look again after the interval.
    Wait,
}

/// Where a server that goes down stands: it is done once every stream that was
/// opened has been closed, and gives up at the deadline.
pub fn drain(opened: u64, closed: u64, now: Duration, deadline: Duration) -> (r: DrainStep)
    ensures
        r == if opened <= closed {
            DrainStep::Drained
        } else if now.nanos >= deadline.nanos {
            DrainStep::TimedOut((opened - closed) as u64)
        } else {
            DrainStep::Wait
        },
{
    let active: u64 = opened.saturating_sub(closed);
    if active == 0 {
        return DrainStep::Drained;
    }
    if now.nanos >= deadline.nanos {
        return DrainStep::TimedOut(active);
    }
    DrainStep::Wait
}

/// A server needs a certificate and its key unless it is insecure, and for mutual TLS the
/// authority's certificate too; it is made where it has what it needs, and TLS is what
/// it does unless told otherwise.
pub proof fn law_server_is_made_with_what_it_needs(
    t: TransportConfig,
    r: Result<QuicServerConfig, String>,
)
    requires
        call_ensures(quic_server_from_config, (t,), r),
    ensures
        r is Ok <==> match t.tls_mode {
            Some(TlsMode::Insecure) => true,
            Some(TlsMode::MTls) => t.tls_cert is Some && t.tls_key is Some && t.ca_cert is Some,
            _ => t.tls_cert is Some && t.tls_key is Some,
        },
        r matches Ok(q) ==> {
            &&& q.enable_self_signed <==> t.tls_mode == Some(TlsMode::Insecure)
            &&& q.tls_cert_key_paths is None <==> t.tls_mode == Some(TlsMode::Insecure)
            &&& q.tls_cert_key_paths matches Some((cert, key)) ==> t.tls_cert == Some(cert)
                && t.tls_key == Some(key)
            &&& q.root_ca_path is Some <==> t.tls_mode == Some(TlsMode::MTls)
            &&& q.root_ca_path is Some ==> q.root_ca_path == t.ca_cert
        },
{
}

/// What is set for a server is what it is made with.
pub proof fn law_server_takes_what_is_set(
    t: TransportConfig,
    r: Result<QuicServerConfig, String>,
)
    requires
        call_ensures(quic_server_from_config, (t,), r),
    ensures
        r matches Ok(q) ==> {
            &&& t.zero_rtt matches Some(v) ==> q.enable_zero_rtt == v
            &&& t.idle_timeout matches Some(v) ==> q.max_idle_timeout.nanos == v * 1_000_000
            &&& t.keep_alive matches Some(v) ==> q.keep_alive_period.nanos == v * 1_000_000
            &&& t.max_streams matches Some(v) ==> q.max_streams == v
            &&& t.congestion matches Some(v) ==> q.congestion.0 == v
            &&& q.congestion.1 == t.cwnd_init
            &&& t.alpn_protocols matches Some(v) ==> q.alpn_protocols == v
            &&& t.zero_rtt is None ==> !q.enable_zero_rtt
            &&& t.idle_timeout is None ==> q.max_idle_timeout.nanos == 30_000_000_000
            &&& t.keep_alive is None ==> q.keep_alive_period.nanos == 8_000_000_000
            &&& t.max_streams is None ==> q.max_streams == 1000
            &&& t.congestion is None ==> q.congestion.0 == Congestion::Bbr
        },
{
}

/// A server that goes down is done once no stream is left, whatever the time, waits while
/// there is time, and then gives up on exactly those that are left.
pub proof fn law_drain_waits_for_streams(
    opened: u64,
    closed: u64,
    now: Duration,
    deadline: Duration,
    r: DrainStep,
)
    requires
        call_ensures(drain, (opened, closed, now, deadline), r),
    ensures
        r is Drained <==> opened <= closed,
        r is Wait <==> opened > closed && now.nanos < deadline.nanos,
        r matches DrainStep::TimedOut(n) ==> n + closed == opened && now.nanos >= deadline.nanos,
{
}

/// A server that lacks something is told what it is, the certificate first, then the key,
/// then the authority's certificate.
pub proof fn law_missing_file_is_named(t: TransportConfig, m: String)
    requires
        call_ensures(quic_server_from_config, (t,), Err::<QuicServerConfig, String>(m)),
    ensures
        m@ == "'"@ + (if t.tls_mode == Some(TlsMode::MTls) {
            if t.tls_cert is None {
                "transport.tls_cert for mTLS"@
            } else if t.tls_key is None {
                "transport.tls_key for mTLS"@
            } else {
                "transport.ca_cert for mTLS"@
            }
        } else if t.tls_cert is None {
            "transport.tls_cert"@
        } else {
            "transport.tls_key"@
        }) + "' is required but was not provided"@,
{
}

} // verus!
