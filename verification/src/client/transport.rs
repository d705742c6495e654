//! The client's QUIC transport: its parameters, and how it keeps streams coming.
use std::path::PathBuf;
use vstd::prelude::*;

use crate::address::SocketAddr;
use crate::error::{Error, ErrorKind};
use crate::text::{before_last_colon, split_host};
use crate::time::Duration;
use crate::transport::{LimitSetting, Limits};

verus! {

/// The parameters of the client's transport.
pub struct Builder {
    pub bind: Option<String>,
    pub server_name: Option<String>,
    pub server_address: String,
    pub tls_cert: Option<PathBuf>,
    pub initial_congestion_window: Option<u32>,
    pub limits: Limits,
}

impl Builder {
    /// Nothing but the server's address.
    pub fn new(server_address: String) -> (r: Builder)
        ensures
            r == (Builder {
                bind: None,
                server_name: None,
                server_address,
                tls_cert: None,
                initial_congestion_window: None,
                limits: Limits::unset(),
            }),
    {
        Builder {
            bind: None,
            server_name: None,
            server_address,
            tls_cert: None,
            initial_congestion_window: None,
            limits: Limits::new(),
        }
    }

    /// Sets the name that the server has to prove.
    pub fn with_server_name(self, value: String) -> (r: Builder)
        ensures
            r == (Builder { server_name: Some(value), ..self }),
    {
        Builder { server_name: Some(value), ..self }
    }

    /// Sets the local address.
    pub fn with_bind(self, value: String) -> (r: Builder)
        ensures
            r == (Builder { bind: Some(value), ..self }),
    {
        Builder { bind: Some(value), ..self }
    }

    /// Sets the certificate that the server is held against.
    pub fn with_tls_cert(self, value: PathBuf) -> (r: Builder)
        ensures
            r == (Builder { tls_cert: Some(value), ..self }),
    {
        Builder { tls_cert: Some(value), ..self }
    }

    /// Sets the congestion window that a connection starts with.
    pub fn with_initial_congestion_window(self, value: u32) -> (r: Builder)
        ensures
            r == (Builder { initial_congestion_window: Some(value), ..self }),
    {
        Builder { initial_congestion_window: Some(value), ..self }
    }

    /// Sets how long a handshake may take.
    pub fn with_max_handshake_duration(self, value: Duration) -> (r: Builder)
        ensures
            r == (Builder { limits: Limits { max_handshake_duration: Some(value), ..self.limits }, ..self }),
    {
        Builder { limits: Limits { max_handshake_duration: Some(value), ..self.limits }, ..self }
    }

    /// Sets how long a connection may be idle.
    pub fn with_max_idle_timeout(self, value: Duration) -> (r: Builder)
        ensures
            r == (Builder { limits: Limits { max_idle_timeout: Some(value), ..self.limits }, ..self }),
    {
        Builder { limits: Limits { max_idle_timeout: Some(value), ..self.limits }, ..self }
    }

    /// Sets how often an idle connection is kept alive.
    pub fn with_max_keep_alive_period(self, value: Duration) -> (r: Builder)
        ensures
            r == (Builder { limits: Limits { max_keep_alive_period: Some(value), ..self.limits }, ..self }),
    {
        Builder { limits: Limits { max_keep_alive_period: Some(value), ..self.limits }, ..self }
    }

    /// Sets how many streams may be open at once.
    pub fn with_max_open_bidirectional_streams(self, value: u64) -> (r: Builder)
        ensures
            r == (Builder { limits: Limits { max_open_bidirectional_streams: Some(value), ..self.limits }, ..self }),
    {
        Builder { limits: Limits { max_open_bidirectional_streams: Some(value), ..self.limits }, ..self }
    }

    /// Sets how much data may be on its way on a stream that this side opened.
    pub fn with_bidirectional_local_data_window(self, value: u64) -> (r: Builder)
        ensures
            r == (Builder { limits: Limits { bidirectional_local_data_window: Some(value), ..self.limits }, ..self }),
    {
        Builder { limits: Limits { bidirectional_local_data_window: Some(value), ..self.limits }, ..self }
    }

    /// Sets how much data may be on its way on a stream that the other side opened.
    pub fn with_bidirectional_remote_data_window(self, value: u64) -> (r: Builder)
        ensures
            r == (Builder { limits: Limits { bidirectional_remote_data_window: Some(value), ..self.limits }, ..self }),
    {
        Builder { limits: Limits { bidirectional_remote_data_window: Some(value), ..self.limits }, ..self }
    }

    /// The name that the server has to prove: the one that was set, or else the
    /// server's address without the port.
    pub fn server_name(&self) -> (r: Result<String, Error>)
        ensures
            match self.server_name {
                Some(name) => r matches Ok(s) && s@ == name@,
                None => match before_last_colon(self.server_address@) {
                    Some(host) => r matches Ok(s) && s@ == host,
                    None => r matches Err(e) && e.reads(
                        ErrorKind::Other,
                        "invalid server address "@ + self.server_address@,
                    ),
                },
            },
    {
        match &self.server_name {
            Some(name) => Ok(name.clone()),
            None => match split_host(self.server_address.as_str()) {
                Some(host) => Ok(host),
                None => {
                    let mut message = "invalid server address ".to_owned();
                    message.append(self.server_address.as_str());
                    Err(Error::with_message(ErrorKind::Other, message))
                },
            },
        }
    }

    /// The address of the server: the first that its name resolves to.
    pub fn server_address(&self, resolved: Option<SocketAddr>) -> (r: Result<SocketAddr, Error>)
        ensures
            match resolved {
                Some(a) => r == Ok::<SocketAddr, Error>(a),
                None => r matches Err(e) && e.reads(
                    ErrorKind::Other,
                    "unable to resolve address '"@ + self.server_address@ + "'"@,
                ),
            },
    {
        match resolved {
            Some(addr) => Ok(addr),
            None => {
                let mut message = "unable to resolve address '".to_owned();
                message.append(self.server_address.as_str());
                message.append("'");
                Err(Error::with_message(ErrorKind::Other, message))
            },
        }
    }

    /// The local address to bind: the one that was set, or else any of the
    /// server's family.
    pub fn local_address(&self, server: &SocketAddr) -> (s: String)
        ensures
            s@ == match self.bind {
                Some(b) => b@,
                None => if server is V4 {
                    "0.0.0.0:0"@
                } else {
                    "[::]:0"@
                },
            },
    {
        match &self.bind {
            Some(value) => value.clone(),
            None => match server {
                SocketAddr::V4(_) => "0.0.0.0:0".to_owned(),
                SocketAddr::V6(_) => "[::]:0".to_owned(),
            },
        }
    }

    /// What the transport is told, in order.
    pub fn limit_settings(&self) -> (v: Vec<LimitSetting>)
        ensures
            v@ == self.limits.in_order(),
    {
        self.limits.settings()
    }
}

/// What happened to the supply of streams.
#[derive(Clone, Copy, Debug, PartialEq, Eq, Structural)]
pub enum SupplyEvent {
    /// Connecting succeeded, or did not.
    Connected(bool),
    /// The connection is kept alive, or cannot be.
    KeptAlive(bool),
    /// A stream was opened, or was not.
    Opened(bool),
    /// Somebody took the stream, or nobody will any more.
    Taken(bool),
}

/// What the supply does next.
#[derive(Clone, Copy, Debug, PartialEq, Eq, Structural)]
pub enum SupplyStep {
    /// Connect, anew if need be.
    Connect,
    /// Have the connection kept alive.
    KeepAlive,
    /// Open a stream on the connection.
    Open,
    /// Hand the stream over.
    HandOver,
    /// Nobody wants streams any more.
    Stop,
}

/// Takes one event of the supply of streams: a failure of the connection leads to
/// a new one, and only that nobody wants streams ends it.
pub fn supply(event: SupplyEvent) -> (r: SupplyStep)
    ensures
        r == match event {
            SupplyEvent::Connected(true) => SupplyStep::KeepAlive,
            SupplyEvent::KeptAlive(true) => SupplyStep::Open,
            SupplyEvent::Opened(true) => SupplyStep::HandOver,
            SupplyEvent::Taken(true) => SupplyStep::Open,
            SupplyEvent::Taken(false) => SupplyStep::Stop,
            _ => SupplyStep::Connect,
        },
{
    match event {
        SupplyEvent::Connected(true) => SupplyStep::KeepAlive,
        SupplyEvent::Connected(false) => SupplyStep::Connect,
        SupplyEvent::KeptAlive(true) => SupplyStep::Open,
        SupplyEvent::KeptAlive(false) => SupplyStep::Connect,
        SupplyEvent::Opened(true) => SupplyStep::HandOver,
        SupplyEvent::Opened(false) => SupplyStep::Connect,
        SupplyEvent::Taken(true) => SupplyStep::Open,
        SupplyEvent::Taken(false) => SupplyStep::Stop,
    }
}

/// The supply goes on as long as somebody takes its streams: it connects until it is
/// connected, has the connection kept alive, opens a stream, hands it over and opens the
/// next. Any failure leads to a new connection.
pub proof fn law_supply_goes_on(event: SupplyEvent, r: SupplyStep)
    requires
        call_ensures(supply, (event,), r),
    ensures
        r == SupplyStep::Stop <==> event == SupplyEvent::Taken(false),
        r == SupplyStep::Connect <==> event == SupplyEvent::Connected(false) || event
            == SupplyEvent::KeptAlive(false) || event == SupplyEvent::Opened(false),
        r == SupplyStep::KeepAlive <==> event == SupplyEvent::Connected(true),
        r == SupplyStep::HandOver <==> event == SupplyEvent::Opened(true),
        r == SupplyStep::Open <==> event == SupplyEvent::KeptAlive(true) || event
            == SupplyEvent::Taken(true),
{
}

/// The name that the server has to prove is the one that was set, or else the host of its
/// address.
pub proof fn law_server_name_is_its_host(
    builder: &Builder,
    r: Result<String, Error>,
    address: &str,
    host: Option<String>,
)
    requires
        call_ensures(Builder::server_name, (builder,), r),
        address@ == builder.server_address@,
        call_ensures(split_host, (address,), host),
    ensures
        builder.server_name matches Some(name) ==> (r matches Ok(s) && s@ == name@),
        builder.server_name is None ==> (host matches Some(h) ==> (r matches Ok(s) && s@ == h@)),
        builder.server_name is None && host is None ==> (r matches Err(e) && e.kind
            == ErrorKind::Other && e.message@ == "invalid server address "@
            + builder.server_address@),
{
}

/// The server is at the address that its name resolves to.
pub proof fn law_resolved_address_is_used(
    builder: &Builder,
    resolved: Option<SocketAddr>,
    r: Result<SocketAddr, Error>,
)
    requires
        call_ensures(Builder::server_address, (builder, resolved), r),
    ensures
        r is Ok <==> resolved is Some,
        r matches Ok(a) ==> resolved == Some(a),
        r matches Err(e) ==> e.kind == ErrorKind::Other && e.message@
            == "unable to resolve address '"@ + builder.server_address@ + "'"@,
{
}

/// The local address is the one that was set, or else any of the server's family.
pub proof fn law_local_address_fits_the_server(builder: &Builder, server: &SocketAddr, s: String)
    requires
        call_ensures(Builder::local_address, (builder, server), s),
    ensures
        builder.bind matches Some(b) ==> s@ == b@,
        builder.bind is None && server is V4 ==> s@ == seq![
            '0',
            '.',
            '0',
            '.',
            '0',
            '.',
            '0',
            ':',
            '0',
        ],
        builder.bind is None && server is V6 ==> s@ == seq!['[', ':', ':', ']', ':', '0'],
{
    reveal_strlit("0.0.0.0:0");
    reveal_strlit("[::]:0");
}

/// Each parameter is set by its own setter, and every other one is left as it was.
pub proof fn law_setters_set_their_own(
    b: Builder,
    bind: (String, Builder),
    server_name: (String, Builder),
    tls_cert: (PathBuf, Builder),
    initial_congestion_window: (u32, Builder),
    max_handshake_duration: (Duration, Builder),
    max_idle_timeout: (Duration, Builder),
    max_keep_alive_period: (Duration, Builder),
    max_open_bidirectional_streams: (u64, Builder),
    bidirectional_local_data_window: (u64, Builder),
    bidirectional_remote_data_window: (u64, Builder),
)
    requires
        call_ensures(Builder::with_bind, (b, bind.0), bind.1),
        call_ensures(Builder::with_server_name, (b, server_name.0), server_name.1),
        call_ensures(Builder::with_tls_cert, (b, tls_cert.0), tls_cert.1),
        call_ensures(Builder::with_initial_congestion_window, (b, initial_congestion_window.0), initial_congestion_window.1),
        call_ensures(Builder::with_max_handshake_duration, (b, max_handshake_duration.0), max_handshake_duration.1),
        call_ensures(Builder::with_max_idle_timeout, (b, max_idle_timeout.0), max_idle_timeout.1),
        call_ensures(Builder::with_max_keep_alive_period, (b, max_keep_alive_period.0), max_keep_alive_period.1),
        call_ensures(Builder::with_max_open_bidirectional_streams, (b, max_open_bidirectional_streams.0), max_open_bidirectional_streams.1),
        call_ensures(Builder::with_bidirectional_local_data_window, (b, bidirectional_local_data_window.0), bidirectional_local_data_window.1),
        call_ensures(Builder::with_bidirectional_remote_data_window, (b, bidirectional_remote_data_window.0), bidirectional_remote_data_window.1),
    ensures
        ({
            let r = bind.1;
            &&& r.bind == Some(bind.0)
            &&& r.server_name == b.server_name
            &&& r.server_address == b.server_address
            &&& r.tls_cert == b.tls_cert
            &&& r.initial_congestion_window == b.initial_congestion_window
            &&& r.limits.max_handshake_duration == b.limits.max_handshake_duration
            &&& r.limits.max_idle_timeout == b.limits.max_idle_timeout
            &&& r.limits.max_keep_alive_period == b.limits.max_keep_alive_period
            &&& r.limits.max_open_bidirectional_streams == b.limits.max_open_bidirectional_streams
            &&& r.limits.bidirectional_local_data_window == b.limits.bidirectional_local_data_window
            &&& r.limits.bidirectional_remote_data_window == b.limits.bidirectional_remote_data_window
        }),
        ({
            let r = server_name.1;
            &&& r.bind == b.bind
            &&& r.server_name == Some(server_name.0)
            &&& r.server_address == b.server_address
            &&& r.tls_cert == b.tls_cert
            &&& r.initial_congestion_window == b.initial_congestion_window
            &&& r.limits.max_handshake_duration == b.limits.max_handshake_duration
            &&& r.limits.max_idle_timeout == b.limits.max_idle_timeout
            &&& r.limits.max_keep_alive_period == b.limits.max_keep_alive_period
            &&& r.limits.max_open_bidirectional_streams == b.limits.max_open_bidirectional_streams
            &&& r.limits.bidirectional_local_data_window == b.limits.bidirectional_local_data_window
            &&& r.limits.bidirectional_remote_data_window == b.limits.bidirectional_remote_data_window
        }),
        ({
            let r = tls_cert.1;
            &&& r.bind == b.bind
            &&& r.server_name == b.server_name
            &&& r.server_address == b.server_address
            &&& r.tls_cert == Some(tls_cert.0)
            &&& r.initial_congestion_window == b.initial_congestion_window
            &&& r.limits.max_handshake_duration == b.limits.max_handshake_duration
            &&& r.limits.max_idle_timeout == b.limits.max_idle_timeout
            &&& r.limits.max_keep_alive_period == b.limits.max_keep_alive_period
            &&& r.limits.max_open_bidirectional_streams == b.limits.max_open_bidirectional_streams
            &&& r.limits.bidirectional_local_data_window == b.limits.bidirectional_local_data_window
            &&& r.limits.bidirectional_remote_data_window == b.limits.bidirectional_remote_data_window
        }),
        ({
            let r = initial_congestion_window.1;
            &&& r.bind == b.bind
            &&& r.server_name == b.server_name
            &&& r.server_address == b.server_address
            &&& r.tls_cert == b.tls_cert
            &&& r.initial_congestion_window == Some(initial_congestion_window.0)
            &&& r.limits.max_handshake_duration == b.limits.max_handshake_duration
            &&& r.limits.max_idle_timeout == b.limits.max_idle_timeout
            &&& r.limits.max_keep_alive_period == b.limits.max_keep_alive_period
            &&& r.limits.max_open_bidirectional_streams == b.limits.max_open_bidirectional_streams
            &&& r.limits.bidirectional_local_data_window == b.limits.bidirectional_local_data_window
            &&& r.limits.bidirectional_remote_data_window == b.limits.bidirectional_remote_data_window
        }),
        ({
            let r = max_handshake_duration.1;
            &&& r.bind == b.bind
            &&& r.server_name == b.server_name
            &&& r.server_address == b.server_address
            &&& r.tls_cert == b.tls_cert
            &&& r.initial_congestion_window == b.initial_congestion_window
            &&& r.limits.max_handshake_duration == Some(max_handshake_duration.0)
            &&& r.limits.max_idle_timeout == b.limits.max_idle_timeout
            &&& r.limits.max_keep_alive_period == b.limits.max_keep_alive_period
            &&& r.limits.max_open_bidirectional_streams == b.limits.max_open_bidirectional_streams
            &&& r.limits.bidirectional_local_data_window == b.limits.bidirectional_local_data_window
            &&& r.limits.bidirectional_remote_data_window == b.limits.bidirectional_remote_data_window
        }),
        ({
            let r = max_idle_timeout.1;
            &&& r.bind == b.bind
            &&& r.server_name == b.server_name
            &&& r.server_address == b.server_address
            &&& r.tls_cert == b.tls_cert
            &&& r.initial_congestion_window == b.initial_congestion_window
            &&& r.limits.max_handshake_duration == b.limits.max_handshake_duration
            &&& r.limits.max_idle_timeout == Some(max_idle_timeout.0)
            &&& r.limits.max_keep_alive_period == b.limits.max_keep_alive_period
            &&& r.limits.max_open_bidirectional_streams == b.limits.max_open_bidirectional_streams
            &&& r.limits.bidirectional_local_data_window == b.limits.bidirectional_local_data_window
            &&& r.limits.bidirectional_remote_data_window == b.limits.bidirectional_remote_data_window
        }),
        ({
            let r = max_keep_alive_period.1;
            &&& r.bind == b.bind
            &&& r.server_name == b.server_name
            &&& r.server_address == b.server_address
            &&& r.tls_cert == b.tls_cert
            &&& r.initial_congestion_window == b.initial_congestion_window
            &&& r.limits.max_handshake_duration == b.limits.max_handshake_duration
            &&& r.limits.max_idle_timeout == b.limits.max_idle_timeout
            &&& r.limits.max_keep_alive_period == Some(max_keep_alive_period.0)
            &&& r.limits.max_open_bidirectional_streams == b.limits.max_open_bidirectional_streams
            &&& r.limits.bidirectional_local_data_window == b.limits.bidirectional_local_data_window
            &&& r.limits.bidirectional_remote_data_window == b.limits.bidirectional_remote_data_window
        }),
        ({
            let r = max_open_bidirectional_streams.1;
            &&& r.bind == b.bind
            &&& r.server_name == b.server_name
            &&& r.server_address == b.server_address
            &&& r.tls_cert == b.tls_cert
            &&& r.initial_congestion_window == b.initial_congestion_window
            &&& r.limits.max_handshake_duration == b.limits.max_handshake_duration
            &&& r.limits.max_idle_timeout == b.limits.max_idle_timeout
            &&& r.limits.max_keep_alive_period == b.limits.max_keep_alive_period
            &&& r.limits.max_open_bidirectional_streams == Some(max_open_bidirectional_streams.0)
            &&& r.limits.bidirectional_local_data_window == b.limits.bidirectional_local_data_window
            &&& r.limits.bidirectional_remote_data_window == b.limits.bidirectional_remote_data_window
        }),
        ({
            let r = bidirectional_local_data_window.1;
            &&& r.bind == b.bind
            &&& r.server_name == b.server_name
            &&& r.server_address == b.server_address
            &&& r.tls_cert == b.tls_cert
            &&& r.initial_congestion_window == b.initial_congestion_window
            &&& r.limits.max_handshake_duration == b.limits.max_handshake_duration
            &&& r.limits.max_idle_timeout == b.limits.max_idle_timeout
            &&& r.limits.max_keep_alive_period == b.limits.max_keep_alive_period
            &&& r.limits.max_open_bidirectional_streams == b.limits.max_open_bidirectional_streams
            &&& r.limits.bidirectional_local_data_window == Some(bidirectional_local_data_window.0)
            &&& r.limits.bidirectional_remote_data_window == b.limits.bidirectional_remote_data_window
        }),
        ({
            let r = bidirectional_remote_data_window.1;
            &&& r.bind == b.bind
            &&& r.server_name == b.server_name
            &&& r.server_address == b.server_address
            &&& r.tls_cert == b.tls_cert
            &&& r.initial_congestion_window == b.initial_congestion_window
            &&& r.limits.max_handshake_duration == b.limits.max_handshake_duration
            &&& r.limits.max_idle_timeout == b.limits.max_idle_timeout
            &&& r.limits.max_keep_alive_period == b.limits.max_keep_alive_period
            &&& r.limits.max_open_bidirectional_streams == b.limits.max_open_bidirectional_streams
            &&& r.limits.bidirectional_local_data_window == b.limits.bidirectional_local_data_window
            &&& r.limits.bidirectional_remote_data_window == Some(bidirectional_remote_data_window.0)
        }),
{
}

/// A new transport has nothing set but what it cannot do without.
pub proof fn law_new_transport_is_bare(server_address: String, r: Builder)
    requires
        call_ensures(Builder::new, (server_address,), r),
    ensures
        r.bind is None,
        r.server_name is None,
        r.server_address == server_address,
        r.tls_cert is None,
        r.initial_congestion_window is None,
        r.limits.max_handshake_duration is None,
        r.limits.max_idle_timeout is None,
        r.limits.max_keep_alive_period is None,
        r.limits.max_open_bidirectional_streams is None,
        r.limits.bidirectional_local_data_window is None,
        r.limits.bidirectional_remote_data_window is None,
{
}

/// What the transport is told are its limits.
pub proof fn law_limits_reach_the_transport(
    b: &Builder,
    v: Vec<LimitSetting>,
    expected: Vec<LimitSetting>,
)
    requires
        call_ensures(Builder::limit_settings, (b,), v),
        call_ensures(Limits::settings, (&b.limits,), expected),
    ensures
        v@ == expected@,
{
}

} // verus!
