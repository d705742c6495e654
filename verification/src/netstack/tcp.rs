//! TCP: which worker a packet goes to, when a connection is opened, and the
//! rhythm of a worker.
use smoltcp::socket::tcp::Socket;
use vstd::prelude::*;

use crate::address::{socket_octets, socket_port, SocketAddr, SocketView};
use crate::buf::be16;
use crate::error::{Error, ErrorKind};
use crate::time::Duration;

use super::stack::{
    ip_dst, ip_ok, ip_payload, ip_protocol, ip_src, IpPacket, IpProtocol, NetStackConfig, Packet,
};
use super::stream::{
    listen, set_congestion_control, set_keep_alive, set_nagle_enabled, set_timeout, socket_inbox,
    socket_listens_on, socket_new, socket_options, socket_outbox, socket_recv_capacity,
    socket_send_capacity, socket_state, ListenFailure, SocketOptions, TcpCongestion, TcpStream,
};
use super::udp::{socket_addr, wire_end};
use super::wire::{tcp_ack, tcp_check, tcp_dst_port, tcp_ok, tcp_src_port, tcp_syn};

verus! {

/// The two ends of a TCP segment.
pub struct FlowView {
    pub src: SocketView,
    pub dst: SocketView,
}

/// The ends of the TCP segment that an IP packet carries, if it carries one.
pub open spec fn parse_flow(s: Seq<u8>) -> Option<FlowView> {
    let segment = ip_payload(s);
    if ip_ok(s) && ip_protocol(s) is Tcp && tcp_ok(segment) {
        Some(
            FlowView {
                src: wire_end(ip_src(s), be16(segment[0], segment[1])),
                dst: wire_end(ip_dst(s), be16(segment[2], segment[3])),
            },
        )
    } else {
        None
    }
}

/// Whether a TCP segment opens a connection: it synchronizes and acknowledges
/// nothing.
pub open spec fn opens(segment: Seq<u8>) -> bool {
    segment[13] as int / 2 % 2 == 1 && segment[13] as int / 16 % 2 == 0
}

/// Whether the sockets are the ends of the flow.
pub open spec fn are_ends(src: SocketAddr, dst: SocketAddr, flow: FlowView) -> bool {
    &&& src@ == flow.src
    &&& dst@ == flow.dst
}

/// The ends of the TCP segment in a packet, the source first, and whether it
/// opens a connection.
fn flow_ends(frame: &[u8]) -> (r: Option<(SocketAddr, SocketAddr, bool)>)
    requires
        frame@.len() >= 1,
    ensures
        match r {
            Some((src, dst, syn)) => {
                &&& parse_flow(frame@) matches Some(flow) && are_ends(src, dst, flow)
                &&& syn == opens(ip_payload(frame@))
            },
            None => parse_flow(frame@) is None,
        },
{
    let ip = match IpPacket::new_checked(frame) {
        Ok(ip) => ip,
        Err(_) => return None,
    };
    match ip.protocol() {
        IpProtocol::Tcp => {},
        _ => return None,
    }
    let segment = ip.payload();
    if !tcp_check(segment) {
        return None;
    }
    let src = socket_addr(ip.src_addr(), tcp_src_port(segment));
    let dst = socket_addr(ip.dst_addr(), tcp_dst_port(segment));
    Some((src, dst, tcp_syn(segment) && !tcp_ack(segment)))
}

/// The ends of the connection that a packet opens, the source first, if it opens
/// one.
pub fn opens_connection(frame: &[u8]) -> (r: Option<(SocketAddr, SocketAddr)>)
    requires
        frame@.len() >= 1,
    ensures
        match r {
            Some((src, dst)) => (parse_flow(frame@) matches Some(flow) && are_ends(src, dst, flow))
                && opens(ip_payload(frame@)),
            None => parse_flow(frame@) is None || !opens(ip_payload(frame@)),
        },
{
    match flow_ends(frame) {
        Some((src, dst, true)) => Some((src, dst)),
        _ => None,
    }
}

/// An end as what it is ordered by: the octets, then the port.
pub open spec fn end_key(end: SocketView) -> Seq<int> {
    Seq::new(end.octets.len(), |i: int| end.octets[i] as int).push(end.port as int)
}

/// Whether `a` comes before `b`: it is smaller where they first differ.
pub open spec fn before(a: Seq<int>, b: Seq<int>) -> bool {
    exists|i: int| #[trigger] first_smaller(a, b, i)
}

/// Whether `a` and `b` first differ at `i`, and `a` is smaller there.
pub open spec fn first_smaller(a: Seq<int>, b: Seq<int>, i: int) -> bool {
    0 <= i < a.len() && i < b.len() && a[i] < b[i] && forall|j: int| 0 <= j < i ==> a[j] == b[j]
}

fn octets_of(a: &SocketAddr) -> (s: &[u8])
    ensures
        s@ == a@.octets,
{
    match a {
        SocketAddr::V4(a) => a.ip.octets.as_slice(),
        SocketAddr::V6(a) => a.ip.octets.as_slice(),
    }
}

/// Whether `a` comes before `b`, of the same family.
fn comes_before(a: &SocketAddr, b: &SocketAddr) -> (r: bool)
    requires
        a@.octets.len() == b@.octets.len(),
    ensures
        r == before(end_key(a@), end_key(b@)),
{
    let ghost ka = end_key(a@);
    let ghost kb = end_key(b@);
    let x = octets_of(a);
    let y = octets_of(b);
    let mut i: usize = 0;
    while i < x.len()
        invariant
            i <= x@.len(),
            x@.len() == y@.len(),
            x@ == a@.octets,
            y@ == b@.octets,
            ka == end_key(a@),
            kb == end_key(b@),
            forall|j: int| 0 <= j < i ==> x@[j] == y@[j],
        decreases x@.len() - i,
    {
        assert(ka[i as int] == x@[i as int]);
        assert(kb[i as int] == y@[i as int]);
        if x[i] != y[i] {
            let r: bool = x[i] < y[i];
            proof {
                if r {
                    assert(first_smaller(ka, kb, i as int));
                } else {
                    assert forall|k: int| !first_smaller(ka, kb, k) by {}
                }
            }
            return r;
        }
        i += 1;
    }
    let r: bool = a.port() < b.port();
    proof {
        let n = x@.len() as int;
        assert(ka[n] == a@.port && kb[n] == b@.port);
        if r {
            assert(first_smaller(ka, kb, n));
        } else {
            assert forall|k: int| !first_smaller(ka, kb, k) by {
                if 0 <= k < n {
                    assert(ka[k] == x@[k] && kb[k] == y@[k]);
                }
            }
        }
    }
    r
}

/// What tells a flow apart, whichever way a segment travels: both ends, the smaller
/// one first.
pub open spec fn key_of(flow: FlowView) -> (SocketView, SocketView) {
    if before(end_key(flow.dst), end_key(flow.src)) {
        (flow.dst, flow.src)
    } else {
        (flow.src, flow.dst)
    }
}

/// The ends of the TCP segment in a packet, the smaller one first, for its hash. What
/// carries no TCP has none.
pub fn flow_key(frame: &[u8]) -> (r: Option<(SocketAddr, SocketAddr)>)
    requires
        frame@.len() >= 1,
    ensures
        match r {
            Some((a, b)) => parse_flow(frame@) matches Some(flow) && (a@, b@) == key_of(flow),
            None => parse_flow(frame@) is None,
        },
{
    match flow_ends(frame) {
        None => None,
        Some((src, dst, _)) => {
            if comes_before(&dst, &src) {
                Some((dst, src))
            } else {
                Some((src, dst))
            }
        },
    }
}

/// The worker that a packet goes to, given the hash of its [`flow_key`]: the hash picks
/// one, and what has no key goes to the first. How ends are hashed is up to the
/// machine's hasher.
pub fn worker_index(hash: Option<u64>, workers: usize) -> (i: usize)
    requires
        workers > 0,
    ensures
        i == picked(hash, workers as int),
        i < workers,
{
    match hash {
        Some(hash) => (hash % workers as u64) as usize,
        None => 0,
    }
}

/// The worker that a hash picks.
pub open spec fn picked(hash: Option<u64>, workers: int) -> int {
    match hash {
        Some(hash) => hash as int % workers,
        None => 0,
    }
}

/// The worker that a packet goes to where ends are hashed like this.
pub open spec fn worker_of(
    frame: Seq<u8>,
    hasher: spec_fn((SocketView, SocketView)) -> u64,
    workers: int,
) -> int {
    picked(
        match parse_flow(frame) {
            Some(flow) => Some(hasher(key_of(flow))),
            None => None,
        },
        workers,
    )
}

proof fn lemma_before_is_total(a: Seq<int>, b: Seq<int>, i: int)
    requires
        a.len() == b.len(),
        0 <= i <= a.len(),
        forall|j: int| 0 <= j < i ==> a[j] == b[j],
        !before(a, b),
        !before(b, a),
    ensures
        a == b,
    decreases a.len() - i,
{
    if i < a.len() {
        assert(!first_smaller(a, b, i));
        assert(!first_smaller(b, a, i));
        lemma_before_is_total(a, b, i + 1);
    } else {
        assert(a =~= b);
    }
}

proof fn lemma_before_is_asymmetric(a: Seq<int>, b: Seq<int>)
    requires
        before(a, b),
    ensures
        !before(b, a),
{
    let i = choose|i: int| first_smaller(a, b, i);
    assert forall|j: int| !first_smaller(b, a, j) by {}
}

/// Both directions of a connection have the same key.
pub proof fn law_both_directions_have_one_key(t: FlowView)
    requires
        t.src.octets.len() == t.dst.octets.len(),
        t.src.flowinfo == t.dst.flowinfo,
        t.src.scope_id == t.dst.scope_id,
    ensures
        key_of(t) == key_of(FlowView { src: t.dst, dst: t.src }),
        key_of(t) == (t.src, t.dst) || key_of(t) == (t.dst, t.src),
{
    let x = end_key(t.src);
    let y = end_key(t.dst);
    if before(x, y) {
        lemma_before_is_asymmetric(x, y);
    } else if !before(y, x) {
        let n = t.src.octets.len() as int;
        lemma_before_is_total(x, y, 0);
        assert(x[n] == t.src.port && y[n] == t.dst.port);
        assert(t.src.octets =~= t.dst.octets) by {
            assert forall|i: int| 0 <= i < n implies t.src.octets[i] == t.dst.octets[i] by {
                assert(x[i] == t.src.octets[i] && y[i] == t.dst.octets[i]);
            }
        }
    }
}

/// Both directions of a connection go to the same worker, however ends are hashed.
pub proof fn law_both_directions_share_a_worker(
    there: Seq<u8>,
    back: Seq<u8>,
    hasher: spec_fn((SocketView, SocketView)) -> u64,
    workers: int,
)
    requires
        parse_flow(there) matches Some(t) && parse_flow(back) matches Some(b) && t.src == b.dst
            && t.dst == b.src,
    ensures
        worker_of(there, hasher, workers) == worker_of(back, hasher, workers),
{
    law_both_directions_have_one_key(parse_flow(there)->0);
}

impl NetStackConfig {
    /// Whether sockets can be made with these parameters.
    pub open spec fn sockets_ok(&self) -> bool {
        &&& 0 < self.tcp_recv_buffer_size <= 0x4000_0000
        &&& 0 < self.tcp_send_buffer_size <= isize::MAX / 2
        &&& self.tcp_recv_buffer_size <= isize::MAX / 2
        &&& self.tcp_keep_alive.nanos / 1000 <= u64::MAX
        &&& self.tcp_timeout.nanos / 1000 <= u64::MAX
    }
}

/// Whether this socket and this stream are a connection from `src` to `dst` that
/// has carried nothing yet.
pub open spec fn is_fresh(
    socket: Socket<'static>,
    stream: TcpStream,
    config: NetStackConfig,
    src: SocketAddr,
    dst: SocketAddr,
) -> bool {
    &&& socket_state(socket) is Listen
    &&& socket_listens_on(socket) == (socket_octets(dst), socket_port(dst))
    &&& socket_inbox(socket) == Seq::<u8>::empty()
    &&& socket_outbox(socket) == Seq::<u8>::empty()
    &&& socket_recv_capacity(socket) == config.tcp_recv_buffer_size
    &&& socket_send_capacity(socket) == config.tcp_send_buffer_size
    &&& socket_options(socket) == (SocketOptions {
        keep_alive: Some((config.tcp_keep_alive.nanos / 1000) as u64),
        timeout: Some((config.tcp_timeout.nanos / 1000) as u64),
        nagle: false,
        congestion: TcpCongestion::Cubic,
    })
    &&& stream.wf()
    &&& stream.received() == Seq::<u8>::empty()
    &&& stream.unsent() == Seq::<u8>::empty()
    &&& stream.recv_capacity() == config.tcp_recv_buffer_size
    &&& stream.send_capacity() == config.tcp_send_buffer_size
    &&& !stream.eof()
    &&& !stream.dropped()
    &&& stream.ends() == (src, dst)
}

/// A connection from `src` to `dst`: a socket that listens at `dst`, and the
/// stream that the application gets. A destination with port 0 is refused.
pub fn accept_new_connection(config: &NetStackConfig, src: SocketAddr, dst: SocketAddr) -> (r:
    Result<(Socket<'static>, TcpStream), Error>)
    requires
        config.sockets_ok(),
    ensures
        match r {
            Ok((socket, stream)) => socket_port(dst) != 0 && is_fresh(
                socket,
                stream,
                *config,
                src,
                dst,
            ),
            Err(e) => socket_port(dst) == 0 && e.reads(
                ErrorKind::Other,
                "unaddressable destination"@,
            ),
        },
{
    let mut socket = socket_new(config.tcp_recv_buffer_size, config.tcp_send_buffer_size);
    set_keep_alive(&mut socket, (config.tcp_keep_alive.nanos / 1000) as u64);
    set_timeout(&mut socket, (config.tcp_timeout.nanos / 1000) as u64);
    set_nagle_enabled(&mut socket, false);
    set_congestion_control(&mut socket, TcpCongestion::Cubic);
    match listen(&mut socket, &dst) {
        Ok(()) => {},
        Err(ListenFailure::InvalidState) => {
            return Err(Error::new(ErrorKind::Other, "invalid state"));
        },
        Err(ListenFailure::Unaddressable) => {
            return Err(Error::new(ErrorKind::Other, "unaddressable destination"));
        },
    }
    let stream = TcpStream::new(
        src,
        dst,
        config.tcp_recv_buffer_size,
        config.tcp_send_buffer_size,
    );
    Ok((socket, stream))
}

/// What a worker does with a packet before the interface gets it: a segment that
/// opens a connection makes one. Where that fails, the interface does not get the
/// packet.
pub fn process_inbound_frame(config: &NetStackConfig, frame: &[u8]) -> (r: Result<
    Option<(Socket<'static>, TcpStream)>,
    Error,
>)
    requires
        config.sockets_ok(),
        frame@.len() >= 1,
    ensures
        match parse_flow(frame@) {
            Some(flow) if opens(ip_payload(frame@)) => match r {
                Ok(Some((socket, stream))) => {
                    let (src, dst) = stream.ends();
                    flow.dst.port != 0 && are_ends(src, dst, flow) && is_fresh(
                        socket,
                        stream,
                        *config,
                        src,
                        dst,
                    )
                },
                Ok(None) => false,
                Err(e) => flow.dst.port == 0 && e.reads(
                    ErrorKind::Other,
                    "unaddressable destination"@,
                ),
            },
            _ => r matches Ok(None),
        },
{
    match opens_connection(frame) {
        Some((src, dst)) => match accept_new_connection(config, src, dst) {
            Ok(connection) => Ok(Some(connection)),
            Err(e) => Err(e),
        },
        None => Ok(None),
    }
}

/// Where a worker stands.
#[derive(Clone, Copy, Debug, PartialEq, Eq, Structural)]
pub enum Phase {
    /// It takes the packets that wait.
    Receive,
    /// It lets the interface work.
    Poll,
    /// It serves the sockets, one by one.
    Serve,
    /// It removes connections that are over.
    Prune,
    /// It lets the interface work once more.
    PollAgain,
    /// It looks whether packets wait.
    Backlog,
    /// It asks the interface when that has to work next.
    Delay,
    /// It waits.
    Idle,
    /// It has ended.
    Done,
}

/// A worker: it goes through rounds of work until a whole round has done nothing,
/// and then waits for something to do.
#[derive(Clone, Copy, Debug, PartialEq, Eq, Structural)]
pub struct TcpConnectionWorker {
    pub phase: Phase,
    /// Whether this round has done anything.
    pub progress: bool,
    /// Whether a socket has moved bytes in this round.
    pub moved: bool,
}

/// What happened to a worker.
pub enum WorkerEvent {
    /// It begins.
    Start,
    /// A packet for this worker.
    Inbound(Packet),
    /// No packet waits.
    NoneWaiting,
    /// The packet was processed.
    Processed,
    /// The interface has worked; whether there was anything to do.
    Polled(bool),
    /// A socket was served; how many bytes it read and wrote.
    Served(usize, usize),
    /// Every socket was served.
    AllServed,
    /// Connections that were over have been removed; whether there were any.
    Pruned(bool),
    /// Whether no packet waits.
    BacklogEmpty(bool),
    /// When the interface has to work next, if at all.
    NextPoll(Option<Duration>),
    /// The stack goes down.
    Shutdown,
    /// No packet will come any more.
    InboundClosed,
    /// A stream was read from or written to.
    Notified,
    /// The interface's timer ran out.
    TimerExpired,
}

/// What a worker does next.
pub enum WorkerAction {
    /// Take a packet, if one waits.
    Receive,
    /// Let other tasks have a turn, then take a packet, if one waits.
    YieldAndReceive,
    /// Process this packet.
    Process(Packet),
    /// Let the interface work.
    Poll,
    /// Serve the next socket.
    Serve,
    /// Remove connections that are over.
    Prune,
    /// Look whether a packet waits.
    CheckBacklog,
    /// Ask the interface when it has to work next.
    AskDelay,
    /// Wait for the stack to go down, a packet, a stream, or the timer, in this
    /// order.
    Wait(Option<Duration>),
    /// End, in good order.
    Exit,
}

/// How long an idle worker waits for the interface's timer: not at all where
/// there is none, or where it is due now, since the interface was just polled.
pub open spec fn idle_timer(delay: Option<Duration>) -> Option<Duration> {
    match delay {
        Some(d) if d.nanos > 0 => Some(d),
        _ => None,
    }
}

impl TcpConnectionWorker {
    /// A worker at the beginning of a round.
    pub open spec fn fresh() -> TcpConnectionWorker {
        TcpConnectionWorker { phase: Phase::Receive, progress: false, moved: false }
    }

    /// Whether this event can happen to this worker.
    pub open spec fn expects(self, event: WorkerEvent) -> bool {
        match self.phase {
            Phase::Receive => event is Start || event is Inbound || event is NoneWaiting || event
                is Processed,
            Phase::Poll => event is Polled,
            Phase::Serve => event is Served || event is AllServed,
            Phase::Prune => event is Pruned,
            Phase::PollAgain => event is Polled,
            Phase::Backlog => event is BacklogEmpty,
            Phase::Delay => event is NextPoll,
            Phase::Idle => event is Shutdown || event is Inbound || event is InboundClosed || event
                is Notified || event is TimerExpired,
            Phase::Done => false,
        }
    }

    /// Whether the round has done anything, this event counted.
    pub open spec fn progress_with(self, event: WorkerEvent) -> bool {
        self.progress || match event {
            WorkerEvent::Inbound(_) => true,
            WorkerEvent::Polled(any) => any,
            WorkerEvent::AllServed => self.moved,
            WorkerEvent::Pruned(any) => any,
            _ => false,
        }
    }

    /// The worker after the event.
    pub open spec fn after(self, event: WorkerEvent) -> TcpConnectionWorker {
        let progress = self.progress_with(event);
        match (self.phase, event) {
            (Phase::Receive, WorkerEvent::NoneWaiting) => TcpConnectionWorker {
                phase: Phase::Poll,
                ..self
            },
            (Phase::Receive, _) => TcpConnectionWorker { progress, ..self },
            (Phase::Poll, _) => TcpConnectionWorker { phase: Phase::Serve, progress, ..self },
            (Phase::Serve, WorkerEvent::Served(read, written)) => TcpConnectionWorker {
                moved: self.moved || read > 0 || written > 0,
                ..self
            },
            (Phase::Serve, _) => TcpConnectionWorker { phase: Phase::Prune, progress, ..self },
            (Phase::Prune, _) => TcpConnectionWorker { phase: Phase::PollAgain, progress, ..self },
            (Phase::PollAgain, _) => if !progress {
                TcpConnectionWorker { phase: Phase::Delay, ..self }
            } else if !self.moved {
                TcpConnectionWorker { phase: Phase::Backlog, progress, ..self }
            } else {
                Self::fresh()
            },
            (Phase::Backlog, _) => Self::fresh(),
            (Phase::Delay, _) => TcpConnectionWorker { phase: Phase::Idle, ..self },
            (Phase::Idle, WorkerEvent::Shutdown) => TcpConnectionWorker {
                phase: Phase::Done,
                ..self
            },
            (Phase::Idle, WorkerEvent::InboundClosed) => TcpConnectionWorker {
                phase: Phase::Done,
                ..self
            },
            (Phase::Idle, _) => Self::fresh(),
            (Phase::Done, _) => self,
        }
    }

    /// What the worker does about the event.
    pub open spec fn reply(self, event: WorkerEvent) -> WorkerAction {
        match (self.phase, event) {
            (_, WorkerEvent::Inbound(packet)) => WorkerAction::Process(packet),
            (Phase::Receive, WorkerEvent::NoneWaiting) => WorkerAction::Poll,
            (Phase::Receive, _) => WorkerAction::Receive,
            (Phase::Poll, _) => WorkerAction::Serve,
            (Phase::Serve, WorkerEvent::Served(_, _)) => WorkerAction::Serve,
            (Phase::Serve, _) => WorkerAction::Prune,
            (Phase::Prune, _) => WorkerAction::Poll,
            (Phase::PollAgain, _) => if !self.progress_with(event) {
                WorkerAction::AskDelay
            } else if !self.moved {
                WorkerAction::CheckBacklog
            } else {
                WorkerAction::Receive
            },
            (Phase::Backlog, WorkerEvent::BacklogEmpty(empty)) => if empty {
                WorkerAction::YieldAndReceive
            } else {
                WorkerAction::Receive
            },
            (Phase::Delay, WorkerEvent::NextPoll(delay)) => WorkerAction::Wait(idle_timer(delay)),
            (Phase::Idle, WorkerEvent::Notified) => WorkerAction::Receive,
            (Phase::Idle, WorkerEvent::TimerExpired) => WorkerAction::Receive,
            _ => WorkerAction::Exit,
        }
    }

    /// A worker that has not begun.
    pub fn new() -> (r: TcpConnectionWorker)
        ensures
            r == TcpConnectionWorker::fresh(),
    {
        TcpConnectionWorker { phase: Phase::Receive, progress: false, moved: false }
    }

    fn next_round(&mut self)
        ensures
            *final(self) == TcpConnectionWorker::fresh(),
    {
        self.phase = Phase::Receive;
        self.progress = false;
        self.moved = false;
    }

    /// Takes what happened, and says what to do about it.
    pub fn accept_loop(&mut self, event: WorkerEvent) -> (r: WorkerAction)
        requires
            old(self).expects(event),
        ensures
            *final(self) == old(self).after(event),
            r == old(self).reply(event),
    {
        match event {
            WorkerEvent::Start => WorkerAction::Receive,
            WorkerEvent::Processed => WorkerAction::Receive,
            WorkerEvent::Inbound(packet) => {
                if self.phase == Phase::Idle {
                    self.next_round();
                } else {
                    self.progress = true;
                }
                WorkerAction::Process(packet)
            },
            WorkerEvent::NoneWaiting => {
                self.phase = Phase::Poll;
                WorkerAction::Poll
            },
            WorkerEvent::Polled(any) => {
                if any {
                    self.progress = true;
                }
                if self.phase == Phase::Poll {
                    self.phase = Phase::Serve;
                    return WorkerAction::Serve;
                }
                if !self.progress {
                    self.phase = Phase::Delay;
                    return WorkerAction::AskDelay;
                }
                if !self.moved {
                    self.phase = Phase::Backlog;
                    return WorkerAction::CheckBacklog;
                }
                self.next_round();
                WorkerAction::Receive
            },
            WorkerEvent::Served(read, written) => {
                if read > 0 || written > 0 {
                    self.moved = true;
                }
                WorkerAction::Serve
            },
            WorkerEvent::AllServed => {
                if self.moved {
                    self.progress = true;
                }
                self.phase = Phase::Prune;
                WorkerAction::Prune
            },
            WorkerEvent::Pruned(any) => {
                if any {
                    self.progress = true;
                }
                self.phase = Phase::PollAgain;
                WorkerAction::Poll
            },
            WorkerEvent::BacklogEmpty(empty) => {
                self.next_round();
                if empty {
                    WorkerAction::YieldAndReceive
                } else {
                    WorkerAction::Receive
                }
            },
            WorkerEvent::NextPoll(delay) => {
                self.phase = Phase::Idle;
                match delay {
                    Some(d) => if d.nanos > 0 {
                        WorkerAction::Wait(Some(d))
                    } else {
                        WorkerAction::Wait(None)
                    },
                    None => WorkerAction::Wait(None),
                }
            },
            WorkerEvent::Shutdown => {
                self.phase = Phase::Done;
                WorkerAction::Exit
            },
            WorkerEvent::InboundClosed => {
                self.phase = Phase::Done;
                WorkerAction::Exit
            },
            WorkerEvent::Notified => {
                self.next_round();
                WorkerAction::Receive
            },
            WorkerEvent::TimerExpired => {
                self.next_round();
                WorkerAction::Receive
            },
        }
    }
}

/// The worker after a run of events.
pub open spec fn worker_after(w: TcpConnectionWorker, events: Seq<WorkerEvent>) -> TcpConnectionWorker
    decreases events.len(),
{
    if events.len() == 0 {
        w
    } else {
        worker_after(w.after(events[0]), events.skip(1))
    }
}

/// Whether a run of events can happen to a worker within one round, which ends
/// when the interface has worked for the second time.
pub open spec fn within_round(w: TcpConnectionWorker, events: Seq<WorkerEvent>) -> bool
    decreases events.len(),
{
    events.len() == 0 || {
        &&& w.expects(events[0])
        &&& !(w.phase is Backlog) && !(w.phase is Delay) && !(w.phase is Idle)
        &&& w.phase is PollAgain ==> events.len() == 1
        &&& within_round(w.after(events[0]), events.skip(1))
    }
}

/// Whether an event is work that was done: a packet, work of the interface, bytes
/// that a socket moved, or a connection that was removed.
pub open spec fn is_work(event: WorkerEvent) -> bool {
    match event {
        WorkerEvent::Inbound(_) => true,
        WorkerEvent::Polled(any) => any,
        WorkerEvent::Served(read, written) => read > 0 || written > 0,
        WorkerEvent::Pruned(any) => any,
        _ => false,
    }
}

proof fn lemma_quiet_round(w: TcpConnectionWorker, events: Seq<WorkerEvent>)
    requires
        events.len() > 0,
        within_round(w, events),
        worker_after(w, events).phase is Delay,
    ensures
        !w.progress,
        w.phase is Receive || w.phase is Poll || w.phase is Serve ==> !w.moved,
        forall|i: int| 0 <= i < events.len() ==> !#[trigger] is_work(events[i]),
    decreases events.len(),
{
    let rest = events.skip(1);
    let next = w.after(events[0]);
    assert(worker_after(w, events) == worker_after(next, rest));
    if rest.len() == 0 {
        assert(worker_after(next, rest) == next);
        assert(w.phase is PollAgain);
    } else {
        lemma_quiet_round(next, rest);
        assert forall|i: int| 0 <= i < events.len() implies !#[trigger] is_work(events[i]) by {
            if i > 0 {
                assert(rest[i - 1] == events[i]);
                assert(!is_work(rest[i - 1]));
            }
        }
    }
}

/// A worker gets ready to wait only after a round in which nothing was done.
pub proof fn law_worker_waits_only_when_idle(w: TcpConnectionWorker, events: Seq<WorkerEvent>)
    requires
        events.len() > 0,
        within_round(w, events),
        worker_after(w, events).phase is Delay,
    ensures
        forall|i: int| 0 <= i < events.len() ==> !#[trigger] is_work(events[i]),
{
    lemma_quiet_round(w, events);
}

/// Whether a worker stood like this while these events happened, and did this about
/// them, one by one.
pub open spec fn is_worker_run(
    workers: Seq<TcpConnectionWorker>,
    events: Seq<WorkerEvent>,
    actions: Seq<WorkerAction>,
) -> bool {
    &&& workers.len() == events.len() + 1
    &&& actions.len() == events.len()
    &&& forall|i: int| 0 <= i < events.len() ==> #[trigger] workers[i].expects(events[i])
    &&& forall|i: int|
        0 <= i < events.len() ==> #[trigger] workers[i + 1] == workers[i].after(events[i])
    &&& forall|i: int|
        0 <= i < events.len() ==> #[trigger] actions[i] == workers[i].reply(events[i])
}

/// The packets that came in, in order.
pub open spec fn inbound_packets(events: Seq<WorkerEvent>) -> Seq<Packet>
    decreases events.len(),
{
    if events.len() == 0 {
        Seq::empty()
    } else {
        match events.last() {
            WorkerEvent::Inbound(packet) => inbound_packets(events.drop_last()).push(packet),
            _ => inbound_packets(events.drop_last()),
        }
    }
}

/// The packets that were processed, in order.
pub open spec fn processed_packets(actions: Seq<WorkerAction>) -> Seq<Packet>
    decreases actions.len(),
{
    if actions.len() == 0 {
        Seq::empty()
    } else {
        match actions.last() {
            WorkerAction::Process(packet) => processed_packets(actions.drop_last()).push(packet),
            _ => processed_packets(actions.drop_last()),
        }
    }
}

/// A worker processes every packet that comes in, in order, wherever it stands, and no
/// other.
pub proof fn law_every_packet_is_processed(
    workers: Seq<TcpConnectionWorker>,
    events: Seq<WorkerEvent>,
    actions: Seq<WorkerAction>,
)
    requires
        is_worker_run(workers, events, actions),
    ensures
        inbound_packets(events) == processed_packets(actions),
    decreases events.len(),
{
    if events.len() > 0 {
        let n = events.len() - 1;
        let w = workers.drop_last();
        let e = events.drop_last();
        let a = actions.drop_last();
        assert forall|i: int| 0 <= i < n implies #[trigger] w[i].expects(e[i]) by {
            assert(workers[i].expects(events[i]));
        }
        assert forall|i: int| 0 <= i < n implies #[trigger] w[i + 1] == w[i].after(e[i]) by {
            assert(workers[i + 1] == workers[i].after(events[i]));
        }
        assert forall|i: int| 0 <= i < n implies #[trigger] a[i] == w[i].reply(e[i]) by {
            assert(actions[i] == workers[i].reply(events[i]));
        }
        law_every_packet_is_processed(w, e, a);
        assert(workers[n].expects(events[n]));
        assert(actions[n] == workers[n].reply(events[n]));
    }
}

/// A packet that comes in is what is processed next, wherever the worker stands.
pub proof fn law_inbound_packet_is_processed(
    worker: &mut TcpConnectionWorker,
    event: WorkerEvent,
    r: WorkerAction,
)
    requires
        old(worker).expects(event),
        call_ensures(TcpConnectionWorker::accept_loop, (worker, event), r),
    ensures
        event matches WorkerEvent::Inbound(p) ==> r == WorkerAction::Process(p),
        r matches WorkerAction::Process(p) ==> event == WorkerEvent::Inbound(p),
{
}

/// A worker ends when the stack goes down or no packet will come, and only then.
pub proof fn law_worker_ends_only_when_told(
    worker: &mut TcpConnectionWorker,
    event: WorkerEvent,
    r: WorkerAction,
)
    requires
        old(worker).expects(event),
        call_ensures(TcpConnectionWorker::accept_loop, (worker, event), r),
    ensures
        r is Exit <==> event is Shutdown || event is InboundClosed,
        final(worker).phase is Done <==> r is Exit,
{
}

/// A worker waits where it was told when the interface has to work next, and for no
/// longer; a timer that is due now is none.
pub proof fn law_worker_waits_for_the_interface(
    worker: &mut TcpConnectionWorker,
    event: WorkerEvent,
    r: WorkerAction,
)
    requires
        old(worker).expects(event),
        call_ensures(TcpConnectionWorker::accept_loop, (worker, event), r),
    ensures
        r is Wait <==> event is NextPoll,
        event matches WorkerEvent::NextPoll(Some(d)) ==> {
            &&& d.nanos > 0 ==> r == WorkerAction::Wait(Some(d))
            &&& d.nanos == 0 ==> r == WorkerAction::Wait(None)
        },
        event == WorkerEvent::NextPoll(None) ==> r == WorkerAction::Wait(None),
{
}

/// Whatever a worker asked for, it takes every outcome of it.
pub proof fn law_worker_takes_what_it_asked_for(
    worker: &mut TcpConnectionWorker,
    event: WorkerEvent,
    r: WorkerAction,
    next: WorkerEvent,
)
    requires
        old(worker).expects(event),
        call_ensures(TcpConnectionWorker::accept_loop, (worker, event), r),
    ensures
        final(worker).expects(next) <== match r {
            WorkerAction::Receive => next is Inbound || next is NoneWaiting,
            WorkerAction::YieldAndReceive => next is Inbound || next is NoneWaiting,
            WorkerAction::Process(_) => next is Processed,
            WorkerAction::Poll => next is Polled,
            WorkerAction::Serve => next is Served || next is AllServed,
            WorkerAction::Prune => next is Pruned,
            WorkerAction::CheckBacklog => next is BacklogEmpty,
            WorkerAction::AskDelay => next is NextPoll,
            WorkerAction::Wait(_) => next is Shutdown || next is Inbound || next is InboundClosed
                || next is Notified || next is TimerExpired,
            WorkerAction::Exit => false,
        },
{
}

/// A round: once no packet waits, the interface works, the sockets are served,
/// connections that are over are removed, and the interface works again. Where anything
/// was done the next round follows, after a look at the packets that wait unless a socket
/// moved bytes; where nothing was done, the worker asks how long it may wait.
pub proof fn law_round_goes_through_its_steps(
    workers: Seq<TcpConnectionWorker>,
    events: Seq<WorkerEvent>,
    actions: Seq<WorkerAction>,
    first: bool,
    read: usize,
    written: usize,
    over: bool,
    second: bool,
)
    requires
        workers.len() > 0,
        workers[0].phase is Receive,
        !workers[0].progress,
        !workers[0].moved,
        events == seq![
            WorkerEvent::NoneWaiting,
            WorkerEvent::Polled(first),
            WorkerEvent::Served(read, written),
            WorkerEvent::AllServed,
            WorkerEvent::Pruned(over),
            WorkerEvent::Polled(second),
        ],
        is_worker_run(workers, events, actions),
    ensures
        actions[0] is Poll,
        actions[1] is Serve,
        actions[2] is Serve,
        actions[3] is Prune,
        actions[4] is Poll,
        actions[5] is Receive <==> read + written > 0,
        actions[5] is CheckBacklog <==> read + written == 0 && (first || over || second),
        actions[5] is AskDelay <==> read + written == 0 && !first && !over && !second,
{
    assert(workers[0].expects(events[0]));
    assert(actions[0] == workers[0].reply(events[0]));
    assert(workers[0int + 1] == workers[0].after(events[0]));
    assert(actions[1] == workers[1].reply(events[1]));
    assert(workers[1int + 1] == workers[1].after(events[1]));
    assert(actions[2] == workers[2].reply(events[2]));
    assert(workers[2int + 1] == workers[2].after(events[2]));
    assert(actions[3] == workers[3].reply(events[3]));
    assert(workers[3int + 1] == workers[3].after(events[3]));
    assert(actions[4] == workers[4].reply(events[4]));
    assert(workers[4int + 1] == workers[4].after(events[4]));
    assert(actions[5] == workers[5].reply(events[5]));
}

/// Whatever wakes a worker up, and whatever it found waiting, it takes packets next, in a
/// new round; it gives other tasks a turn before that only where no packet waits.
pub proof fn law_worker_goes_on_with_packets(
    worker: &mut TcpConnectionWorker,
    event: WorkerEvent,
    r: WorkerAction,
)
    requires
        old(worker).expects(event),
        call_ensures(TcpConnectionWorker::accept_loop, (worker, event), r),
    ensures
        event is Start || event is Processed ==> r is Receive && *final(worker) == *old(worker),
        event is Notified || event is TimerExpired || event == WorkerEvent::BacklogEmpty(false)
            ==> r is Receive,
        event == WorkerEvent::BacklogEmpty(true) <==> r is YieldAndReceive,
        event is Notified || event is TimerExpired || event is BacklogEmpty ==> final(worker).phase
            is Receive && !final(worker).progress && !final(worker).moved,
        event is Inbound ==> final(worker).phase is Receive,
        event is Inbound && old(worker).phase is Receive ==> final(worker).progress
            && final(worker).moved == old(worker).moved,
        event is Inbound && old(worker).phase is Idle ==> !final(worker).progress && !final(worker).moved,
{
}

proof fn lemma_equal_so_far(a: Seq<int>, b: Seq<int>, n: int)
    requires
        a.len() == b.len(),
        0 <= n <= a.len(),
        !before(b, a),
        forall|j: int| 0 <= j < n ==> a[j] >= b[j],
    ensures
        forall|j: int| 0 <= j < n ==> a[j] == b[j],
    decreases n,
{
    if n > 0 {
        lemma_equal_so_far(a, b, n - 1);
        assert(!first_smaller(b, a, n - 1));
    }
}

/// In the key of a segment the smaller end comes first: an octet of the first end is larger
/// only behind one that is smaller, and with the same octets the port is not larger.
pub proof fn law_smaller_end_comes_first(
    frame: &[u8],
    a: SocketAddr,
    b: SocketAddr,
    i: int,
)
    requires
        frame@.len() >= 1,
        call_ensures(flow_key, (frame,), Some((a, b))),
    ensures
        a@.octets.len() == b@.octets.len(),
        0 <= i < a@.octets.len() && a@.octets[i] > b@.octets[i] ==> exists|j: int|
            0 <= j < i && a@.octets[j] < b@.octets[j],
        a@.octets == b@.octets ==> a@.port <= b@.port,
{
    let flow = parse_flow(frame@)->0;
    let x = end_key(a@);
    let y = end_key(b@);
    let n = a@.octets.len() as int;
    if before(x, y) {
        lemma_before_is_asymmetric(x, y);
    }
    assert(!before(y, x));
    assert forall|j: int| 0 <= j < n implies x[j] == a@.octets[j] && y[j] == b@.octets[j] by {}
    assert(x[n] == a@.port && y[n] == b@.port);
    if 0 <= i < n && a@.octets[i] > b@.octets[i] {
        if forall|j: int| 0 <= j < i ==> a@.octets[j] >= b@.octets[j] {
            assert forall|j: int| 0 <= j < i implies x[j] >= y[j] by {}
            lemma_equal_so_far(x, y, i);
            assert(first_smaller(y, x, i));
        }
    }
    if a@.octets == b@.octets && a@.port > b@.port {
        assert(first_smaller(y, x, n));
    }
}

/// A new worker takes packets first, and has done nothing.
pub proof fn law_new_worker_takes_packets(
    new: TcpConnectionWorker,
    worker: &mut TcpConnectionWorker,
    r: WorkerAction,
)
    requires
        call_ensures(TcpConnectionWorker::new, (), new),
        *old(worker) == new,
        call_ensures(TcpConnectionWorker::accept_loop, (worker, WorkerEvent::Start), r),
    ensures
        new.expects(WorkerEvent::Start),
        r is Receive,
        !final(worker).progress,
        !final(worker).moved,
        final(worker).expects(WorkerEvent::NoneWaiting),
{
}

} // verus!
