//! How many streams one connection carries before the next one takes over.
use vstd::prelude::*;

use crate::address::SocketAddr;
use crate::error::{Error, ErrorKind};
use crate::text::{before_last_colon, split_host};
use crate::time::Duration;
use crate::transport::{LimitSetting, Limits};

verus! {

/// How many streams a connection may carry: in all, where that is not zero, and
/// between two ticks of a clock.
#[derive(Clone, Copy, Debug, PartialEq, Eq, Structural)]
pub struct MultiplexLimit {
    pub max_multiplex: u64,
    pub max_per_interval: u64,
}

/// What one connection has carried. The first count is one ahead.
#[derive(Clone, Copy, Debug, PartialEq, Eq, Structural)]
pub struct Multiplex {
    pub multiplex: u64,
    pub interval_multiplex: u64,
}

/// What happened on a connection.
#[derive(Clone, Copy, Debug, PartialEq, Eq, Structural)]
pub enum MultiplexEvent {
    /// The clock ticked.
    Tick,
    /// No stream could be opened.
    OpenFailed,
    /// A stream was opened and taken.
    StreamTaken,
    /// A stream was opened, and nobody will take it.
    NobodyTakes,
}

/// What follows.
#[derive(Clone, Copy, Debug, PartialEq, Eq, Structural)]
pub enum MultiplexStep {
    /// The connection goes on.
    Stay,
    /// The next connection takes over.
    Switch,
    /// No streams are wanted any more.
    Stop,
}

/// Whether an event of a connection asks for `r` and leaves `after`. A connection that
/// is over leaves nothing that counts.
pub open spec fn multiplex_follows(
    before: Multiplex,
    limit: MultiplexLimit,
    event: MultiplexEvent,
    r: MultiplexStep,
    after: Multiplex,
) -> bool {
    match event {
        MultiplexEvent::Tick => {
            &&& r == MultiplexStep::Stay
            &&& after == (Multiplex { interval_multiplex: 0, ..before })
        },
        MultiplexEvent::OpenFailed => r == MultiplexStep::Switch,
        MultiplexEvent::NobodyTakes => r == MultiplexStep::Stop,
        MultiplexEvent::StreamTaken => if before.exhausted(limit) {
            r == MultiplexStep::Switch
        } else {
            &&& r == MultiplexStep::Stay
            &&& after.interval_multiplex == before.interval_multiplex + 1
            &&& after.multiplex == before.multiplex + if limit.max_multiplex == 0 {
                0int
            } else {
                1
            }
        },
    }
}

impl Multiplex {
    /// A connection that goes on is below the limit between ticks.
    pub open spec fn wf(&self, limit: MultiplexLimit) -> bool {
        self.interval_multiplex == 0 || self.interval_multiplex < limit.max_per_interval
    }

    /// Whether one stream more reaches a limit.
    pub open spec fn exhausted(&self, limit: MultiplexLimit) -> bool {
        ||| self.interval_multiplex + 1 >= limit.max_per_interval
        ||| limit.max_multiplex != 0 && self.multiplex >= limit.max_multiplex
    }

    /// A connection that has carried nothing yet.
    pub fn new() -> (r: Multiplex)
        ensures
            r.multiplex == 1,
            r.interval_multiplex == 0,
            forall|limit: MultiplexLimit| r.wf(limit),
    {
        Multiplex { multiplex: 1, interval_multiplex: 0 }
    }

    /// Takes one event of a connection.
    pub fn stream(&mut self, limit: &MultiplexLimit, event: MultiplexEvent) -> (r: MultiplexStep)
        requires
            old(self).wf(*limit),
        ensures
            multiplex_follows(*old(self), *limit, event, r, *final(self)),
            r is Stay ==> final(self).wf(*limit),
    {
        match event {
            MultiplexEvent::Tick => {
                self.interval_multiplex = 0;
                MultiplexStep::Stay
            },
            MultiplexEvent::OpenFailed => MultiplexStep::Switch,
            MultiplexEvent::NobodyTakes => MultiplexStep::Stop,
            MultiplexEvent::StreamTaken => {
                self.interval_multiplex = self.interval_multiplex + 1;
                if self.interval_multiplex >= limit.max_per_interval {
                    return MultiplexStep::Switch;
                }
                if limit.max_multiplex != 0 {
                    if self.multiplex >= limit.max_multiplex {
                        return MultiplexStep::Switch;
                    }
                    self.multiplex = self.multiplex + 1;
                }
                MultiplexStep::Stay
            },
        }
    }
}

/// A connection from its beginning to its end, or up to now: `counts` is what it has
/// carried before each event, and at last. It goes on after every event but perhaps
/// the last.
pub open spec fn is_multiplex_run(
    limit: MultiplexLimit,
    counts: Seq<Multiplex>,
    events: Seq<MultiplexEvent>,
    steps: Seq<MultiplexStep>,
) -> bool {
    &&& events.len() == steps.len()
    &&& counts.len() == events.len() + 1
    &&& counts[0].multiplex == 1
    &&& counts[0].interval_multiplex == 0
    &&& forall|i: int|
        0 <= i < events.len() ==> multiplex_follows(
            counts[i],
            limit,
            #[trigger] events[i],
            steps[i],
            counts[i + 1],
        )
    &&& forall|i: int| 0 <= i < steps.len() - 1 ==> #[trigger] steps[i] is Stay
}

/// How many streams the first `n` events carried.
pub open spec fn carried(events: Seq<MultiplexEvent>, n: nat) -> nat
    decreases n,
{
    if n == 0 {
        0
    } else {
        carried(events, (n - 1) as nat) + if events[n - 1] is StreamTaken {
            1nat
        } else {
            0
        }
    }
}

/// How many of them came after the last tick.
pub open spec fn carried_since_tick(events: Seq<MultiplexEvent>, n: nat) -> nat
    decreases n,
{
    if n == 0 || events[n - 1] is Tick {
        0
    } else {
        carried_since_tick(events, (n - 1) as nat) + if events[n - 1] is StreamTaken {
            1nat
        } else {
            0
        }
    }
}

proof fn lemma_counts(
    limit: MultiplexLimit,
    counts: Seq<Multiplex>,
    events: Seq<MultiplexEvent>,
    steps: Seq<MultiplexStep>,
    n: nat,
)
    requires
        is_multiplex_run(limit, counts, events, steps),
        n < events.len() || n == 0,
    ensures
        counts[n as int].interval_multiplex == carried_since_tick(events, n),
        counts[n as int].interval_multiplex == 0 || counts[n as int].interval_multiplex
            < limit.max_per_interval,
        limit.max_multiplex > 0 ==> counts[n as int].multiplex == carried(events, n) + 1
            && counts[n as int].multiplex <= limit.max_multiplex,
    decreases n,
{
    if n > 0 {
        lemma_counts(limit, counts, events, steps, (n - 1) as nat);
        assert(multiplex_follows(
            counts[n - 1],
            limit,
            events[n - 1],
            steps[n - 1],
            counts[n as int],
        ));
        assert(steps[n - 1] is Stay);
    }
}

/// No connection carries more streams than its limit says: neither in all, where that
/// is limited, nor between two ticks, where the first stream is always carried.
pub proof fn law_streams_stay_within_the_limit(
    limit: MultiplexLimit,
    counts: Seq<Multiplex>,
    events: Seq<MultiplexEvent>,
    steps: Seq<MultiplexStep>,
)
    requires
        is_multiplex_run(limit, counts, events, steps),
    ensures
        limit.max_multiplex > 0 ==> carried(events, events.len()) <= limit.max_multiplex,
        carried_since_tick(events, events.len()) <= 1 || carried_since_tick(events, events.len())
            <= limit.max_per_interval,
{
    if events.len() > 0 {
        lemma_counts(limit, counts, events, steps, (events.len() - 1) as nat);
    }
}

/// The parameters of a transport whose connections take turns.
pub struct Config {
    pub bind: SocketAddr,
    pub server_name: String,
    pub server_address: SocketAddr,
    pub tls_cert: Option<String>,
    pub initial_congestion_window: Option<u32>,
    pub max_multiplex: u64,
    pub limits: Limits,
}

/// What the command line says of such a transport.
pub struct QuicArgs {
    pub bind: Option<SocketAddr>,
    pub server_name: Option<String>,
    pub server_address: String,
    pub tls_cert: Option<String>,
    pub initial_congestion_window: u32,
    pub max_multiplex: u64,
    pub max_handshake_duration: u64,
    pub max_idle_timeout: u64,
    pub max_keep_alive_period: u64,
    pub max_open_bidirectional_streams: u64,
    pub bidirectional_local_data_window: u64,
    pub bidirectional_remote_data_window: u64,
}

/// Any local address of the same family.
pub open spec fn is_unspecified_like(a: SocketAddr, server: SocketAddr) -> bool {
    match server {
        SocketAddr::V4(_) => a matches SocketAddr::V4(x) && x.ip@ == seq![0u8, 0, 0, 0] && x.port
            == 0,
        SocketAddr::V6(_) => a matches SocketAddr::V6(x) && x.ip@ == Seq::new(16, |i: int| 0u8)
            && x.port == 0 && x.flowinfo == 0 && x.scope_id == 0,
    }
}

impl Config {
    /// Where to bind, and whom to connect to.
    pub fn new(bind: SocketAddr, name: String, address: SocketAddr) -> (r: Config)
        ensures
            r == (Config {
                bind,
                server_name: name,
                server_address: address,
                tls_cert: None,
                initial_congestion_window: None,
                max_multiplex: 0,
                limits: Limits::unset(),
            }),
    {
        Config {
            bind,
            server_name: name,
            server_address: address,
            tls_cert: None,
            initial_congestion_window: None,
            max_multiplex: 0,
            limits: Limits::new(),
        }
    }

    /// The parameters for a server's address, of which `resolved` is the first
    /// that its name resolves to: the name without the port is the one to be
    /// proved, and the local address is any of the same family.
    pub fn with_address(address: &str, resolved: Option<SocketAddr>) -> (r: Result<Config, Error>)
        ensures
            match (before_last_colon(address@), resolved) {
                (None, _) => r matches Err(e) && e.reads(
                    ErrorKind::Other,
                    "invalid remote address"@,
                ),
                (Some(name), None) => r matches Err(e) && e.reads(
                    ErrorKind::Other,
                    "unable to resolve address "@ + name,
                ),
                (Some(name), Some(server)) => r matches Ok(c) && {
                    &&& is_unspecified_like(c.bind, server)
                    &&& c.server_name@ == name
                    &&& c.server_address == server
                    &&& c.tls_cert is None
                    &&& c.initial_congestion_window is None
                    &&& c.max_multiplex == 0
                    &&& c.limits == Limits::unset()
                },
            },
    {
        let name = match split_host(address) {
            Some(name) => name,
            None => return Err(Error::new(ErrorKind::Other, "invalid remote address")),
        };
        let server = match resolved {
            Some(server) => server,
            None => {
                let mut message = "unable to resolve address ".to_owned();
                message.append(name.as_str());
                return Err(Error::with_message(ErrorKind::Other, message));
            },
        };
        let ip = match server {
            SocketAddr::V4(a) => crate::address::IpAddr::V4(a.ip),
            SocketAddr::V6(a) => crate::address::IpAddr::V6(a.ip),
        };
        Ok(Config::new(crate::socks::bind_addr_for(ip), name, server))
    }

    /// Sets the name that the server has to prove.
    pub fn with_server_name(self, value: String) -> (r: Config)
        ensures
            r == (Config { server_name: value, ..self }),
    {
        Config { server_name: value, ..self }
    }

    /// Sets the local address.
    pub fn with_bind(self, value: SocketAddr) -> (r: Config)
        ensures
            r == (Config { bind: value, ..self }),
    {
        Config { bind: value, ..self }
    }

    /// Sets the certificate that the server is held against.
    pub fn with_tls_cert(self, value: String) -> (r: Config)
        ensures
            r == (Config { tls_cert: Some(value), ..self }),
    {
        Config { tls_cert: Some(value), ..self }
    }

    /// Sets the congestion window that a connection starts with.
    pub fn with_initial_congestion_window(self, value: u32) -> (r: Config)
        ensures
            r == (Config { initial_congestion_window: Some(value), ..self }),
    {
        Config { initial_congestion_window: Some(value), ..self }
    }

    /// Sets how long a handshake may take.
    pub fn with_max_handshake_duration(self, value: Duration) -> (r: Config)
        ensures
            r == (Config { limits: Limits { max_handshake_duration: Some(value), ..self.limits }, ..self }),
    {
        Config { limits: Limits { max_handshake_duration: Some(value), ..self.limits }, ..self }
    }

    /// Sets how long a connection may be idle.
    pub fn with_max_idle_timeout(self, value: Duration) -> (r: Config)
        ensures
            r == (Config { limits: Limits { max_idle_timeout: Some(value), ..self.limits }, ..self }),
    {
        Config { limits: Limits { max_idle_timeout: Some(value), ..self.limits }, ..self }
    }

    /// Sets how often an idle connection is kept alive.
    pub fn with_max_keep_alive_period(self, value: Duration) -> (r: Config)
        ensures
            r == (Config { limits: Limits { max_keep_alive_period: Some(value), ..self.limits }, ..self }),
    {
        Config { limits: Limits { max_keep_alive_period: Some(value), ..self.limits }, ..self }
    }

    /// Sets how many streams may be open at once.
    pub fn with_max_open_bidirectional_streams(self, value: u64) -> (r: Config)
        ensures
            r == (Config { limits: Limits { max_open_bidirectional_streams: Some(value), ..self.limits }, ..self }),
    {
        Config { limits: Limits { max_open_bidirectional_streams: Some(value), ..self.limits }, ..self }
    }

    /// Sets how much data may be on its way on a stream that this side opened.
    pub fn with_bidirectional_local_data_window(self, value: u64) -> (r: Config)
        ensures
            r == (Config { limits: Limits { bidirectional_local_data_window: Some(value), ..self.limits }, ..self }),
    {
        Config { limits: Limits { bidirectional_local_data_window: Some(value), ..self.limits }, ..self }
    }

    /// Sets how much data may be on its way on a stream that the other side opened.
    pub fn with_bidirectional_remote_data_window(self, value: u64) -> (r: Config)
        ensures
            r == (Config { limits: Limits { bidirectional_remote_data_window: Some(value), ..self.limits }, ..self }),
    {
        Config { limits: Limits { bidirectional_remote_data_window: Some(value), ..self.limits }, ..self }
    }

    /// The parameters that the command line asks for. Times are milliseconds.
    pub fn from_args(args: QuicArgs, resolved: Option<SocketAddr>) -> (r: Result<Config, Error>)
        ensures
            match (before_last_colon(args.server_address@), resolved) {
                (None, _) => r matches Err(e) && e.reads(
                    ErrorKind::Other,
                    "invalid remote address"@,
                ),
                (Some(name), None) => r matches Err(e) && e.reads(
                    ErrorKind::Other,
                    "unable to resolve address "@ + name,
                ),
                (Some(name), Some(server)) => r matches Ok(c) && {
                    &&& match args.bind {
                        Some(b) => c.bind == b,
                        None => is_unspecified_like(c.bind, server),
                    }
                    &&& c.server_name@ == match args.server_name {
                        Some(n) => n@,
                        None => name,
                    }
                    &&& c.server_address == server
                    &&& c.tls_cert == args.tls_cert
                    &&& c.initial_congestion_window == Some(args.initial_congestion_window)
                    &&& c.max_multiplex == args.max_multiplex
                    &&& c.limits.max_handshake_duration matches Some(d) && d.nanos
                        == args.max_handshake_duration * crate::time::NANOS_PER_MILLI
                    &&& c.limits.max_idle_timeout matches Some(d) && d.nanos
                        == args.max_idle_timeout * crate::time::NANOS_PER_MILLI
                    &&& c.limits.max_keep_alive_period matches Some(d) && d.nanos
                        == args.max_keep_alive_period * crate::time::NANOS_PER_MILLI
                    &&& c.limits.max_open_bidirectional_streams == Some(
                        args.max_open_bidirectional_streams,
                    )
                    &&& c.limits.bidirectional_local_data_window == Some(
                        args.bidirectional_local_data_window,
                    )
                    &&& c.limits.bidirectional_remote_data_window == Some(
                        args.bidirectional_remote_data_window,
                    )
                },
            },
    {
        let mut config = match Config::with_address(args.server_address.as_str(), resolved) {
            Ok(config) => config,
            Err(e) => return Err(e),
        };
        if let Some(bind) = args.bind {
            config = config.with_bind(bind);
        }
        if let Some(name) = args.server_name {
            config = config.with_server_name(name);
        }
        if let Some(cert) = args.tls_cert {
            config = config.with_tls_cert(cert);
        }
        config = config.with_initial_congestion_window(
            args.initial_congestion_window,
        ).with_max_handshake_duration(
            Duration::from_millis(args.max_handshake_duration),
        ).with_max_idle_timeout(
            Duration::from_millis(args.max_idle_timeout),
        ).with_max_keep_alive_period(
            Duration::from_millis(args.max_keep_alive_period),
        ).with_max_open_bidirectional_streams(
            args.max_open_bidirectional_streams,
        ).with_bidirectional_local_data_window(
            args.bidirectional_local_data_window,
        ).with_bidirectional_remote_data_window(args.bidirectional_remote_data_window);
        config.max_multiplex = args.max_multiplex;
        Ok(config)
    }

    /// What the transport is told, in order.
    pub fn limit_settings(&self) -> (v: Vec<LimitSetting>)
        ensures
            v@ == self.limits.in_order(),
    {
        self.limits.settings()
    }
}

/// A connection goes on after a tick, which starts the count between ticks over, and after
/// a stream that stays below both limits, which counts; it is replaced where no stream
/// could be opened or a limit is reached, and is the last one where nobody takes streams.
pub proof fn law_connection_is_replaced_at_its_limit(
    count: &mut Multiplex,
    limit: &MultiplexLimit,
    event: MultiplexEvent,
    r: MultiplexStep,
)
    requires
        old(count).wf(*limit),
        call_ensures(Multiplex::stream, (count, limit, event), r),
    ensures
        r == MultiplexStep::Stop <==> event == MultiplexEvent::NobodyTakes,
        event == MultiplexEvent::OpenFailed ==> r == MultiplexStep::Switch,
        event == MultiplexEvent::Tick ==> {
            &&& r == MultiplexStep::Stay
            &&& final(count).interval_multiplex == 0
            &&& final(count).multiplex == old(count).multiplex
        },
        event == MultiplexEvent::StreamTaken ==> {
            &&& r == MultiplexStep::Switch <==> old(count).interval_multiplex + 1
                >= limit.max_per_interval || (limit.max_multiplex > 0 && old(count).multiplex
                >= limit.max_multiplex)
            &&& r == MultiplexStep::Stay ==> final(count).interval_multiplex == old(
                count).interval_multiplex + 1
            &&& r == MultiplexStep::Stay && limit.max_multiplex > 0 ==> final(count).multiplex
                == old(count).multiplex + 1
        },
{
}

/// A connection is not replaced before its time: one that was, although its streams could
/// be opened, has carried as many as its limit says, in all or since the last tick.
pub proof fn law_connection_carries_what_it_may(
    limit: MultiplexLimit,
    counts: Seq<Multiplex>,
    events: Seq<MultiplexEvent>,
    steps: Seq<MultiplexStep>,
)
    requires
        is_multiplex_run(limit, counts, events, steps),
        events.len() > 0,
        steps.last() is Switch,
        !(events.last() is OpenFailed),
    ensures
        events.last() is StreamTaken,
        carried_since_tick(events, events.len()) >= limit.max_per_interval || (limit.max_multiplex
            > 0 && carried(events, events.len()) == limit.max_multiplex),
{
    let n = (events.len() - 1) as nat;
    lemma_counts(limit, counts, events, steps, n);
    assert(multiplex_follows(
        counts[n as int],
        limit,
        events[n as int],
        steps[n as int],
        counts[n as int + 1],
    ));
}

/// A new connection has carried nothing.
pub proof fn law_new_connection_is_idle(r: Multiplex)
    requires
        call_ensures(Multiplex::new, (), r),
    ensures
        r.multiplex == 1,
        r.interval_multiplex == 0,
{
}

/// Each parameter is set by its own setter, and every other one is left as it was.
pub proof fn law_setters_set_their_own(
    b: Config,
    bind: (SocketAddr, Config),
    server_name: (String, Config),
    tls_cert: (String, Config),
    initial_congestion_window: (u32, Config),
    max_handshake_duration: (Duration, Config),
    max_idle_timeout: (Duration, Config),
    max_keep_alive_period: (Duration, Config),
    max_open_bidirectional_streams: (u64, Config),
    bidirectional_local_data_window: (u64, Config),
    bidirectional_remote_data_window: (u64, Config),
)
    requires
        call_ensures(Config::with_bind, (b, bind.0), bind.1),
        call_ensures(Config::with_server_name, (b, server_name.0), server_name.1),
        call_ensures(Config::with_tls_cert, (b, tls_cert.0), tls_cert.1),
        call_ensures(Config::with_initial_congestion_window, (b, initial_congestion_window.0), initial_congestion_window.1),
        call_ensures(Config::with_max_handshake_duration, (b, max_handshake_duration.0), max_handshake_duration.1),
        call_ensures(Config::with_max_idle_timeout, (b, max_idle_timeout.0), max_idle_timeout.1),
        call_ensures(Config::with_max_keep_alive_period, (b, max_keep_alive_period.0), max_keep_alive_period.1),
        call_ensures(Config::with_max_open_bidirectional_streams, (b, max_open_bidirectional_streams.0), max_open_bidirectional_streams.1),
        call_ensures(Config::with_bidirectional_local_data_window, (b, bidirectional_local_data_window.0), bidirectional_local_data_window.1),
        call_ensures(Config::with_bidirectional_remote_data_window, (b, bidirectional_remote_data_window.0), bidirectional_remote_data_window.1),
    ensures
        ({
            let r = bind.1;
            &&& r.bind == bind.0
            &&& r.server_name == b.server_name
            &&& r.server_address == b.server_address
            &&& r.tls_cert == b.tls_cert
            &&& r.initial_congestion_window == b.initial_congestion_window
            &&& r.max_multiplex == b.max_multiplex
            &&& r.limits.max_handshake_duration == b.limits.max_handshake_duration
            &&& r.limits.max_idle_timeout == b.limits.max_idle_timeout
            &&& r.limits.max_keep_alive_period == b.limits.max_keep_alive_period
            &&& r.limits.max_open_bidirectional_streams == b.limits.max_open_bidirectional_streams
            &&& r.limits.bidirectional_local_data_window == b.limits.bidirectional_local_data_window
            &&& r.limits.bidirectional_remote_data_window == b.limits.bidirectional_remote_data_window
        }),
        ({
            let r = server_name.1;
            &&& r.bind == b.bind
            &&& r.server_name == server_name.0
            &&& r.server_address == b.server_address
            &&& r.tls_cert == b.tls_cert
            &&& r.initial_congestion_window == b.initial_congestion_window
            &&& r.max_multiplex == b.max_multiplex
            &&& r.limits.max_handshake_duration == b.limits.max_handshake_duration
            &&& r.limits.max_idle_timeout == b.limits.max_idle_timeout
            &&& r.limits.max_keep_alive_period == b.limits.max_keep_alive_period
            &&& r.limits.max_open_bidirectional_streams == b.limits.max_open_bidirectional_streams
            &&& r.limits.bidirectional_local_data_window == b.limits.bidirectional_local_data_window
            &&& r.limits.bidirectional_remote_data_window == b.limits.bidirectional_remote_data_window
        }),
        ({
            let r = tls_cert.1;
            &&& r.bind == b.bind
            &&& r.server_name == b.server_name
            &&& r.server_address == b.server_address
            &&& r.tls_cert == Some(tls_cert.0)
            &&& r.initial_congestion_window == b.initial_congestion_window
            &&& r.max_multiplex == b.max_multiplex
            &&& r.limits.max_handshake_duration == b.limits.max_handshake_duration
            &&& r.limits.max_idle_timeout == b.limits.max_idle_timeout
            &&& r.limits.max_keep_alive_period == b.limits.max_keep_alive_period
            &&& r.limits.max_open_bidirectional_streams == b.limits.max_open_bidirectional_streams
            &&& r.limits.bidirectional_local_data_window == b.limits.bidirectional_local_data_window
            &&& r.limits.bidirectional_remote_data_window == b.limits.bidirectional_remote_data_window
        }),
        ({
            let r = initial_congestion_window.1;
            &&& r.bind == b.bind
            &&& r.server_name == b.server_name
            &&& r.server_address == b.server_address
            &&& r.tls_cert == b.tls_cert
            &&& r.initial_congestion_window == Some(initial_congestion_window.0)
            &&& r.max_multiplex == b.max_multiplex
            &&& r.limits.max_handshake_duration == b.limits.max_handshake_duration
            &&& r.limits.max_idle_timeout == b.limits.max_idle_timeout
            &&& r.limits.max_keep_alive_period == b.limits.max_keep_alive_period
            &&& r.limits.max_open_bidirectional_streams == b.limits.max_open_bidirectional_streams
            &&& r.limits.bidirectional_local_data_window == b.limits.bidirectional_local_data_window
            &&& r.limits.bidirectional_remote_data_window == b.limits.bidirectional_remote_data_window
        }),
        ({
            let r = max_handshake_duration.1;
            &&& r.bind == b.bind
            &&& r.server_name == b.server_name
            &&& r.server_address == b.server_address
            &&& r.tls_cert == b.tls_cert
            &&& r.initial_congestion_window == b.initial_congestion_window
            &&& r.max_multiplex == b.max_multiplex
            &&& r.limits.max_handshake_duration == Some(max_handshake_duration.0)
            &&& r.limits.max_idle_timeout == b.limits.max_idle_timeout
            &&& r.limits.max_keep_alive_period == b.limits.max_keep_alive_period
            &&& r.limits.max_open_bidirectional_streams == b.limits.max_open_bidirectional_streams
            &&& r.limits.bidirectional_local_data_window == b.limits.bidirectional_local_data_window
            &&& r.limits.bidirectional_remote_data_window == b.limits.bidirectional_remote_data_window
        }),
        ({
            let r = max_idle_timeout.1;
            &&& r.bind == b.bind
            &&& r.server_name == b.server_name
            &&& r.server_address == b.server_address
            &&& r.tls_cert == b.tls_cert
            &&& r.initial_congestion_window == b.initial_congestion_window
            &&& r.max_multiplex == b.max_multiplex
            &&& r.limits.max_handshake_duration == b.limits.max_handshake_duration
            &&& r.limits.max_idle_timeout == Some(max_idle_timeout.0)
            &&& r.limits.max_keep_alive_period == b.limits.max_keep_alive_period
            &&& r.limits.max_open_bidirectional_streams == b.limits.max_open_bidirectional_streams
            &&& r.limits.bidirectional_local_data_window == b.limits.bidirectional_local_data_window
            &&& r.limits.bidirectional_remote_data_window == b.limits.bidirectional_remote_data_window
        }),
        ({
            let r = max_keep_alive_period.1;
            &&& r.bind == b.bind
            &&& r.server_name == b.server_name
            &&& r.server_address == b.server_address
            &&& r.tls_cert == b.tls_cert
            &&& r.initial_congestion_window == b.initial_congestion_window
            &&& r.max_multiplex == b.max_multiplex
            &&& r.limits.max_handshake_duration == b.limits.max_handshake_duration
            &&& r.limits.max_idle_timeout == b.limits.max_idle_timeout
            &&& r.limits.max_keep_alive_period == Some(max_keep_alive_period.0)
            &&& r.limits.max_open_bidirectional_streams == b.limits.max_open_bidirectional_streams
            &&& r.limits.bidirectional_local_data_window == b.limits.bidirectional_local_data_window
            &&& r.limits.bidirectional_remote_data_window == b.limits.bidirectional_remote_data_window
        }),
        ({
            let r = max_open_bidirectional_streams.1;
            &&& r.bind == b.bind
            &&& r.server_name == b.server_name
            &&& r.server_address == b.server_address
            &&& r.tls_cert == b.tls_cert
            &&& r.initial_congestion_window == b.initial_congestion_window
            &&& r.max_multiplex == b.max_multiplex
            &&& r.limits.max_handshake_duration == b.limits.max_handshake_duration
            &&& r.limits.max_idle_timeout == b.limits.max_idle_timeout
            &&& r.limits.max_keep_alive_period == b.limits.max_keep_alive_period
            &&& r.limits.max_open_bidirectional_streams == Some(max_open_bidirectional_streams.0)
            &&& r.limits.bidirectional_local_data_window == b.limits.bidirectional_local_data_window
            &&& r.limits.bidirectional_remote_data_window == b.limits.bidirectional_remote_data_window
        }),
        ({
            let r = bidirectional_local_data_window.1;
            &&& r.bind == b.bind
            &&& r.server_name == b.server_name
            &&& r.server_address == b.server_address
            &&& r.tls_cert == b.tls_cert
            &&& r.initial_congestion_window == b.initial_congestion_window
            &&& r.max_multiplex == b.max_multiplex
            &&& r.limits.max_handshake_duration == b.limits.max_handshake_duration
            &&& r.limits.max_idle_timeout == b.limits.max_idle_timeout
            &&& r.limits.max_keep_alive_period == b.limits.max_keep_alive_period
            &&& r.limits.max_open_bidirectional_streams == b.limits.max_open_bidirectional_streams
            &&& r.limits.bidirectional_local_data_window == Some(bidirectional_local_data_window.0)
            &&& r.limits.bidirectional_remote_data_window == b.limits.bidirectional_remote_data_window
        }),
        ({
            let r = bidirectional_remote_data_window.1;
            &&& r.bind == b.bind
            &&& r.server_name == b.server_name
            &&& r.server_address == b.server_address
            &&& r.tls_cert == b.tls_cert
            &&& r.initial_congestion_window == b.initial_congestion_window
            &&& r.max_multiplex == b.max_multiplex
            &&& r.limits.max_handshake_duration == b.limits.max_handshake_duration
            &&& r.limits.max_idle_timeout == b.limits.max_idle_timeout
            &&& r.limits.max_keep_alive_period == b.limits.max_keep_alive_period
            &&& r.limits.max_open_bidirectional_streams == b.limits.max_open_bidirectional_streams
            &&& r.limits.bidirectional_local_data_window == b.limits.bidirectional_local_data_window
            &&& r.limits.bidirectional_remote_data_window == Some(bidirectional_remote_data_window.0)
        }),
{
}

/// A transport for an address proves the host in it, connects to what that resolves to,
/// and is bound to any address of the same family; it has no limits. Without a port, and
/// without a resolved address, there is none.
pub proof fn law_address_makes_a_transport(
    address: &str,
    resolved: Option<SocketAddr>,
    r: Result<Config, Error>,
    host: Option<String>,
)
    requires
        call_ensures(Config::with_address, (address, resolved), r),
        call_ensures(split_host, (address,), host),
    ensures
        r is Ok <==> host is Some && resolved is Some,
        r matches Err(e) ==> e.kind == ErrorKind::Other && e.message@ == match host {
            None => "invalid remote address"@,
            Some(h) => "unable to resolve address "@ + h@,
        },
        r matches Ok(c) ==> {
            &&& host matches Some(h) && c.server_name@ == h@
            &&& resolved == Some(c.server_address)
            &&& c.bind is V4 <==> c.server_address is V4
            &&& c.bind matches SocketAddr::V4(a) ==> a.port == 0 && forall|i: int|
                0 <= i < 4 ==> #[trigger] a.ip@[i] == 0
            &&& c.bind matches SocketAddr::V6(a) ==> a.port == 0 && a.flowinfo == 0 && a.scope_id
                == 0 && forall|i: int| 0 <= i < 16 ==> #[trigger] a.ip@[i] == 0
            &&& c.tls_cert is None
            &&& c.initial_congestion_window is None
            &&& c.max_multiplex == 0
            &&& c.limits.max_handshake_duration is None
            &&& c.limits.max_idle_timeout is None
            &&& c.limits.max_keep_alive_period is None
            &&& c.limits.max_open_bidirectional_streams is None
            &&& c.limits.bidirectional_local_data_window is None
            &&& c.limits.bidirectional_remote_data_window is None
        },
{
}

/// What the command line says of a transport is what it is made with; times are
/// milliseconds. What it leaves out follows the address.
pub proof fn law_arguments_make_a_transport(
    args: QuicArgs,
    resolved: Option<SocketAddr>,
    r: Result<Config, Error>,
    address: &str,
    bare: Result<Config, Error>,
)
    requires
        call_ensures(Config::from_args, (args, resolved), r),
        address@ == args.server_address@,
        call_ensures(Config::with_address, (address, resolved), bare),
    ensures
        r is Ok <==> bare is Ok,
        r matches Ok(c) ==> {
            &&& bare matches Ok(b)
            &&& args.bind matches Some(a) ==> c.bind == a
            &&& args.bind is None ==> c.bind@ == b.bind@
            &&& args.server_name matches Some(n) ==> c.server_name@ == n@
            &&& args.server_name is None ==> c.server_name@ == b.server_name@
            &&& c.server_address == b.server_address
            &&& c.tls_cert == args.tls_cert
            &&& c.initial_congestion_window == Some(args.initial_congestion_window)
            &&& c.max_multiplex == args.max_multiplex
            &&& c.limits.max_handshake_duration matches Some(d) && d.nanos
                == args.max_handshake_duration * 1_000_000
            &&& c.limits.max_idle_timeout matches Some(d) && d.nanos == args.max_idle_timeout
                * 1_000_000
            &&& c.limits.max_keep_alive_period matches Some(d) && d.nanos
                == args.max_keep_alive_period * 1_000_000
            &&& c.limits.max_open_bidirectional_streams == Some(args.max_open_bidirectional_streams)
            &&& c.limits.bidirectional_local_data_window == Some(
                args.bidirectional_local_data_window,
            )
            &&& c.limits.bidirectional_remote_data_window == Some(
                args.bidirectional_remote_data_window,
            )
        },
        r matches Err(e) ==> (bare matches Err(f) && e.kind == f.kind && e.message@ == f.message@),
{
}

} // verus!
