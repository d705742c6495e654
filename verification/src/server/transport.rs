//! The server's QUIC transport: its parameters.
use std::path::PathBuf;
use vstd::prelude::*;

use crate::time::Duration;
use crate::transport::{LimitSetting, Limits};

verus! {

/// The parameters of the server's transport.
pub struct Builder {
    pub listen: String,
    pub tls_key: PathBuf,
    pub tls_cert: PathBuf,
    pub initial_congestion_window: Option<u32>,
    pub limits: Limits,
}

impl Builder {
    /// Where to listen, and the server's certificate and key.
    pub fn new(listen: String, tls_cert: PathBuf, tls_key: PathBuf) -> (r: Builder)
        ensures
            r == (Builder {
                listen,
                tls_key,
                tls_cert,
                initial_congestion_window: None,
                limits: Limits::unset(),
            }),
    {
        Builder { listen, tls_key, tls_cert, initial_congestion_window: None, limits: Limits::new() }
    }

    /// Replaces the server's certificate.
    pub fn with_tls_cert(self, value: PathBuf) -> (r: Builder)
        ensures
            r == (Builder { tls_cert: value, ..self }),
    {
        Builder { tls_cert: value, ..self }
    }

    /// Replaces the server's key.
    pub fn with_tls_key(self, value: PathBuf) -> (r: Builder)
        ensures
            r == (Builder { tls_key: value, ..self }),
    {
        Builder { tls_key: value, ..self }
    }

    /// Sets the congestion window that a connection starts with.
    pub fn with_initial_congestion_window(self, value: u32) -> (r: Builder)
        ensures
            r == (Builder { initial_congestion_window: Some(value), ..self }),
    {
        Builder { initial_congestion_window: Some(value), ..self }
    }

    /// Sets how long a handshake may take.
    pub fn with_max_handshake_duration(self, value: Duration) -> (r: Builder)
        ensures
            r == (Builder { limits: Limits { max_handshake_duration: Some(value), ..self.limits }, ..self }),
    {
        Builder { limits: Limits { max_handshake_duration: Some(value), ..self.limits }, ..self }
    }

    /// Sets how long a connection may be idle.
    pub fn with_max_idle_timeout(self, value: Duration) -> (r: Builder)
        ensures
            r == (Builder { limits: Limits { max_idle_timeout: Some(value), ..self.limits }, ..self }),
    {
        Builder { limits: Limits { max_idle_timeout: Some(value), ..self.limits }, ..self }
    }

    /// Sets how often an idle connection is kept alive.
    pub fn with_max_keep_alive_period(self, value: Duration) -> (r: Builder)
        ensures
            r == (Builder { limits: Limits { max_keep_alive_period: Some(value), ..self.limits }, ..self }),
    {
        Builder { limits: Limits { max_keep_alive_period: Some(value), ..self.limits }, ..self }
    }

    /// Sets how many streams may be open at once.
    pub fn with_max_open_bidirectional_streams(self, value: u64) -> (r: Builder)
        ensures
            r == (Builder { limits: Limits { max_open_bidirectional_streams: Some(value), ..self.limits }, ..self }),
    {
        Builder { limits: Limits { max_open_bidirectional_streams: Some(value), ..self.limits }, ..self }
    }

    /// Sets how much data may be on its way on a stream that this side opened.
    pub fn with_bidirectional_local_data_window(self, value: u64) -> (r: Builder)
        ensures
            r == (Builder { limits: Limits { bidirectional_local_data_window: Some(value), ..self.limits }, ..self }),
    {
        Builder { limits: Limits { bidirectional_local_data_window: Some(value), ..self.limits }, ..self }
    }

    /// Sets how much data may be on its way on a stream that the other side opened.
    pub fn with_bidirectional_remote_data_window(self, value: u64) -> (r: Builder)
        ensures
            r == (Builder { limits: Limits { bidirectional_remote_data_window: Some(value), ..self.limits }, ..self }),
    {
        Builder { limits: Limits { bidirectional_remote_data_window: Some(value), ..self.limits }, ..self }
    }

    /// What the transport is told, in order.
    pub fn limit_settings(&self) -> (v: Vec<LimitSetting>)
        ensures
            v@ == self.limits.in_order(),
    {
        self.limits.settings()
    }
}

/// Each parameter is set by its own setter, and every other one is left as it was.
pub proof fn law_setters_set_their_own(
    b: Builder,
    tls_cert: (PathBuf, Builder),
    tls_key: (PathBuf, Builder),
    initial_congestion_window: (u32, Builder),
    max_handshake_duration: (Duration, Builder),
    max_idle_timeout: (Duration, Builder),
    max_keep_alive_period: (Duration, Builder),
    max_open_bidirectional_streams: (u64, Builder),
    bidirectional_local_data_window: (u64, Builder),
    bidirectional_remote_data_window: (u64, Builder),
)
    requires
        call_ensures(Builder::with_tls_cert, (b, tls_cert.0), tls_cert.1),
        call_ensures(Builder::with_tls_key, (b, tls_key.0), tls_key.1),
        call_ensures(Builder::with_initial_congestion_window, (b, initial_congestion_window.0), initial_congestion_window.1),
        call_ensures(Builder::with_max_handshake_duration, (b, max_handshake_duration.0), max_handshake_duration.1),
        call_ensures(Builder::with_max_idle_timeout, (b, max_idle_timeout.0), max_idle_timeout.1),
        call_ensures(Builder::with_max_keep_alive_period, (b, max_keep_alive_period.0), max_keep_alive_period.1),
        call_ensures(Builder::with_max_open_bidirectional_streams, (b, max_open_bidirectional_streams.0), max_open_bidirectional_streams.1),
        call_ensures(Builder::with_bidirectional_local_data_window, (b, bidirectional_local_data_window.0), bidirectional_local_data_window.1),
        call_ensures(Builder::with_bidirectional_remote_data_window, (b, bidirectional_remote_data_window.0), bidirectional_remote_data_window.1),
    ensures
        ({
            let r = tls_cert.1;
            &&& r.listen == b.listen
            &&& r.tls_key == b.tls_key
            &&& r.tls_cert == tls_cert.0
            &&& r.initial_congestion_window == b.initial_congestion_window
            &&& r.limits.max_handshake_duration == b.limits.max_handshake_duration
            &&& r.limits.max_idle_timeout == b.limits.max_idle_timeout
            &&& r.limits.max_keep_alive_period == b.limits.max_keep_alive_period
            &&& r.limits.max_open_bidirectional_streams == b.limits.max_open_bidirectional_streams
            &&& r.limits.bidirectional_local_data_window == b.limits.bidirectional_local_data_window
            &&& r.limits.bidirectional_remote_data_window == b.limits.bidirectional_remote_data_window
        }),
        ({
            let r = tls_key.1;
            &&& r.listen == b.listen
            &&& r.tls_key == tls_key.0
            &&& r.tls_cert == b.tls_cert
            &&& r.initial_congestion_window == b.initial_congestion_window
            &&& r.limits.max_handshake_duration == b.limits.max_handshake_duration
            &&& r.limits.max_idle_timeout == b.limits.max_idle_timeout
            &&& r.limits.max_keep_alive_period == b.limits.max_keep_alive_period
            &&& r.limits.max_open_bidirectional_streams == b.limits.max_open_bidirectional_streams
            &&& r.limits.bidirectional_local_data_window == b.limits.bidirectional_local_data_window
            &&& r.limits.bidirectional_remote_data_window == b.limits.bidirectional_remote_data_window
        }),
        ({
            let r = initial_congestion_window.1;
            &&& r.listen == b.listen
            &&& r.tls_key == b.tls_key
            &&& r.tls_cert == b.tls_cert
            &&& r.initial_congestion_window == Some(initial_congestion_window.0)
            &&& r.limits.max_handshake_duration == b.limits.max_handshake_duration
            &&& r.limits.max_idle_timeout == b.limits.max_idle_timeout
            &&& r.limits.max_keep_alive_period == b.limits.max_keep_alive_period
            &&& r.limits.max_open_bidirectional_streams == b.limits.max_open_bidirectional_streams
            &&& r.limits.bidirectional_local_data_window == b.limits.bidirectional_local_data_window
            &&& r.limits.bidirectional_remote_data_window == b.limits.bidirectional_remote_data_window
        }),
        ({
            let r = max_handshake_duration.1;
            &&& r.listen == b.listen
            &&& r.tls_key == b.tls_key
            &&& r.tls_cert == b.tls_cert
            &&& r.initial_congestion_window == b.initial_congestion_window
            &&& r.limits.max_handshake_duration == Some(max_handshake_duration.0)
            &&& r.limits.max_idle_timeout == b.limits.max_idle_timeout
            &&& r.limits.max_keep_alive_period == b.limits.max_keep_alive_period
            &&& r.limits.max_open_bidirectional_streams == b.limits.max_open_bidirectional_streams
            &&& r.limits.bidirectional_local_data_window == b.limits.bidirectional_local_data_window
            &&& r.limits.bidirectional_remote_data_window == b.limits.bidirectional_remote_data_window
        }),
        ({
            let r = max_idle_timeout.1;
            &&& r.listen == b.listen
            &&& r.tls_key == b.tls_key
            &&& r.tls_cert == b.tls_cert
            &&& r.initial_congestion_window == b.initial_congestion_window
            &&& r.limits.max_handshake_duration == b.limits.max_handshake_duration
            &&& r.limits.max_idle_timeout == Some(max_idle_timeout.0)
            &&& r.limits.max_keep_alive_period == b.limits.max_keep_alive_period
            &&& r.limits.max_open_bidirectional_streams == b.limits.max_open_bidirectional_streams
            &&& r.limits.bidirectional_local_data_window == b.limits.bidirectional_local_data_window
            &&& r.limits.bidirectional_remote_data_window == b.limits.bidirectional_remote_data_window
        }),
        ({
            let r = max_keep_alive_period.1;
            &&& r.listen == b.listen
            &&& r.tls_key == b.tls_key
            &&& r.tls_cert == b.tls_cert
            &&& r.initial_congestion_window == b.initial_congestion_window
            &&& r.limits.max_handshake_duration == b.limits.max_handshake_duration
            &&& r.limits.max_idle_timeout == b.limits.max_idle_timeout
            &&& r.limits.max_keep_alive_period == Some(max_keep_alive_period.0)
            &&& r.limits.max_open_bidirectional_streams == b.limits.max_open_bidirectional_streams
            &&& r.limits.bidirectional_local_data_window == b.limits.bidirectional_local_data_window
            &&& r.limits.bidirectional_remote_data_window == b.limits.bidirectional_remote_data_window
        }),
        ({
            let r = max_open_bidirectional_streams.1;
            &&& r.listen == b.listen
            &&& r.tls_key == b.tls_key
            &&& r.tls_cert == b.tls_cert
            &&& r.initial_congestion_window == b.initial_congestion_window
            &&& r.limits.max_handshake_duration == b.limits.max_handshake_duration
            &&& r.limits.max_idle_timeout == b.limits.max_idle_timeout
            &&& r.limits.max_keep_alive_period == b.limits.max_keep_alive_period
            &&& r.limits.max_open_bidirectional_streams == Some(max_open_bidirectional_streams.0)
            &&& r.limits.bidirectional_local_data_window == b.limits.bidirectional_local_data_window
            &&& r.limits.bidirectional_remote_data_window == b.limits.bidirectional_remote_data_window
        }),
        ({
            let r = bidirectional_local_data_window.1;
            &&& r.listen == b.listen
            &&& r.tls_key == b.tls_key
            &&& r.tls_cert == b.tls_cert
            &&& r.initial_congestion_window == b.initial_congestion_window
            &&& r.limits.max_handshake_duration == b.limits.max_handshake_duration
            &&& r.limits.max_idle_timeout == b.limits.max_idle_timeout
            &&& r.limits.max_keep_alive_period == b.limits.max_keep_alive_period
            &&& r.limits.max_open_bidirectional_streams == b.limits.max_open_bidirectional_streams
            &&& r.limits.bidirectional_local_data_window == Some(bidirectional_local_data_window.0)
            &&& r.limits.bidirectional_remote_data_window == b.limits.bidirectional_remote_data_window
        }),
        ({
            let r = bidirectional_remote_data_window.1;
            &&& r.listen == b.listen
            &&& r.tls_key == b.tls_key
            &&& r.tls_cert == b.tls_cert
            &&& r.initial_congestion_window == b.initial_congestion_window
            &&& r.limits.max_handshake_duration == b.limits.max_handshake_duration
            &&& r.limits.max_idle_timeout == b.limits.max_idle_timeout
            &&& r.limits.max_keep_alive_period == b.limits.max_keep_alive_period
            &&& r.limits.max_open_bidirectional_streams == b.limits.max_open_bidirectional_streams
            &&& r.limits.bidirectional_local_data_window == b.limits.bidirectional_local_data_window
            &&& r.limits.bidirectional_remote_data_window == Some(bidirectional_remote_data_window.0)
        }),
{
}

/// A new transport has nothing set but what it cannot do without.
pub proof fn law_new_transport_is_bare(listen: String, tls_cert: PathBuf, tls_key: PathBuf, r: Builder)
    requires
        call_ensures(Builder::new, (listen, tls_cert, tls_key), r),
    ensures
        r.listen == listen,
        r.tls_key == tls_key,
        r.tls_cert == tls_cert,
        r.initial_congestion_window is None,
        r.limits.max_handshake_duration is None,
        r.limits.max_idle_timeout is None,
        r.limits.max_keep_alive_period is None,
        r.limits.max_open_bidirectional_streams is None,
        r.limits.bidirectional_local_data_window is None,
        r.limits.bidirectional_remote_data_window is None,
{
}

/// What the transport is told are its limits.
pub proof fn law_limits_reach_the_transport(
    b: &Builder,
    v: Vec<LimitSetting>,
    expected: Vec<LimitSetting>,
)
    requires
        call_ensures(Builder::limit_settings, (b,), v),
        call_ensures(Limits::settings, (&b.limits,), expected),
    ensures
        v@ == expected@,
{
}

} // verus!
