//! A TCP connection between a socket of the stack and the application: two byte
//! queues, and who has closed what. The application reads and writes at one end,
//! the worker moves bytes between the other end and the socket.
use ringbuf::traits::{Consumer, Observer, Producer};
use ringbuf::HeapRb;
use smoltcp::socket::tcp::{CongestionControl, ListenError, Socket, SocketBuffer, State};
use smoltcp::wire::{IpAddress, Ipv4Address, Ipv6Address};
use vstd::prelude::*;

use crate::address::{socket_octets, socket_port, SocketAddr};
use crate::error::{Error, ErrorKind};

verus! {

/// A ring buffer of bytes: the heap-allocated one of `ringbuf`.
#[verifier::external_body]
pub struct ByteRing {
    ring: HeapRb<u8>,
}

/// The bytes in a ring, the oldest first.
pub uninterp spec fn ring_seq(r: ByteRing) -> Seq<u8>;

/// How many bytes a ring was made for.
pub uninterp spec fn ring_capacity(r: ByteRing) -> nat;

/// The smaller one.
pub open spec fn fitting(a: int, b: int) -> int {
    if a < b {
        a
    } else {
        b
    }
}

/// `HeapRb::new`: an empty ring for `capacity` bytes.
#[verifier::external_body]
fn ring_new(capacity: usize) -> (r: ByteRing)
    requires
        0 < capacity <= isize::MAX / 2,
    ensures
        ring_seq(r) == Seq::<u8>::empty(),
        ring_capacity(r) == capacity,
{
    ByteRing { ring: HeapRb::new(capacity) }
}

/// `Observer::is_empty`: whether no byte is there.
#[verifier::external_body]
fn ring_is_empty(r: &ByteRing) -> (b: bool)
    ensures
        b == (ring_seq(*r).len() == 0),
{
    r.ring.is_empty()
}

/// `Observer::is_full`: whether no byte fits.
#[verifier::external_body]
fn ring_is_full(r: &ByteRing) -> (b: bool)
    ensures
        b == (ring_seq(*r).len() >= ring_capacity(*r)),
{
    r.ring.is_full()
}

/// `Producer::push_slice`: appends as many of the bytes as fit.
#[verifier::external_body]
fn ring_push(r: &mut ByteRing, data: &[u8]) -> (n: usize)
    ensures
        n == fitting(data@.len() as int, ring_capacity(*old(r)) - ring_seq(*old(r)).len()),
        ring_seq(*final(r)) == ring_seq(*old(r)) + data@.take(n as int),
        ring_capacity(*final(r)) == ring_capacity(*old(r)),
        ring_seq(*final(r)).len() <= ring_capacity(*final(r)),
{
    r.ring.push_slice(data)
}

/// `Consumer::pop_slice`: moves as many of the oldest bytes as fit to the front
/// of `out`.
#[verifier::external_body]
fn ring_pop(r: &mut ByteRing, out: &mut [u8]) -> (n: usize)
    ensures
        n == fitting(old(out)@.len() as int, ring_seq(*old(r)).len() as int),
        ring_seq(*final(r)) == ring_seq(*old(r)).skip(n as int),
        ring_capacity(*final(r)) == ring_capacity(*old(r)),
        final(out)@ == ring_seq(*old(r)).take(n as int) + old(out)@.skip(n as int),
{
    r.ring.pop_slice(out)
}

/// The TCP socket of `smoltcp`.
#[verifier::external_type_specification]
#[verifier::external_body]
pub struct ExSocket<'a>(Socket<'a>);

/// The states of a TCP socket.
#[derive(Clone, Copy, Debug, PartialEq, Eq, Structural)]
pub enum TcpState {
    Closed,
    Listen,
    SynSent,
    SynReceived,
    Established,
    FinWait1,
    FinWait2,
    CloseWait,
    Closing,
    LastAck,
    TimeWait,
}

impl TcpState {
    /// Whether the socket still processes packets.
    pub open spec fn open(self) -> bool {
        !(self is Closed) && !(self is TimeWait)
    }

    /// Whether bytes that are sent now still arrive.
    pub open spec fn may_send(self) -> bool {
        self is Established || self is CloseWait
    }
}

/// The bytes that a socket has received and nobody has taken yet.
pub uninterp spec fn socket_inbox(s: Socket<'static>) -> Seq<u8>;

/// The bytes that a socket was given and has not had acknowledged yet.
pub uninterp spec fn socket_outbox(s: Socket<'static>) -> Seq<u8>;

/// How many bytes a socket's transmit buffer was made for.
pub uninterp spec fn socket_send_capacity(s: Socket<'static>) -> nat;

/// The state of a socket.
pub uninterp spec fn socket_state(s: Socket<'static>) -> TcpState;

/// How many bytes a socket's receive buffer was made for.
pub uninterp spec fn socket_recv_capacity(s: Socket<'static>) -> nat;

/// What a socket was set to.
pub uninterp spec fn socket_options(s: Socket<'static>) -> SocketOptions;

/// The end that a socket listens on, as octets and port.
pub uninterp spec fn socket_listens_on(s: Socket<'static>) -> (Seq<u8>, u16);

/// How a socket keeps the window of what is under way.
#[derive(Clone, Copy, Debug, PartialEq, Eq, Structural)]
pub enum TcpCongestion {
    /// By the peer's window alone.
    Unset,
    Cubic,
}

/// What can be set of a socket. Times are in microseconds.
#[derive(Clone, Copy, Debug, PartialEq, Eq, Structural)]
pub struct SocketOptions {
    pub keep_alive: Option<u64>,
    pub timeout: Option<u64>,
    pub nagle: bool,
    pub congestion: TcpCongestion,
}

/// Whether two sockets hold the same bytes in the same state.
pub open spec fn same_but_options(a: Socket<'static>, b: Socket<'static>) -> bool {
    &&& socket_inbox(a) == socket_inbox(b)
    &&& socket_outbox(a) == socket_outbox(b)
    &&& socket_send_capacity(a) == socket_send_capacity(b)
    &&& socket_recv_capacity(a) == socket_recv_capacity(b)
    &&& socket_state(a) == socket_state(b)
}

/// `Socket::new`: a closed socket with empty buffers of these sizes and nothing
/// set. It panics on a receive buffer of more than one gibibyte. Which congestion
/// control it begins with is left open.
#[verifier::external_body]
pub(crate) fn socket_new(recv: usize, send: usize) -> (s: Socket<'static>)
    requires
        recv <= 0x4000_0000,
        send <= isize::MAX,
    ensures
        socket_state(s) is Closed,
        socket_inbox(s) == Seq::<u8>::empty(),
        socket_outbox(s) == Seq::<u8>::empty(),
        socket_recv_capacity(s) == recv,
        socket_send_capacity(s) == send,
        socket_options(s).keep_alive is None && socket_options(s).timeout is None,
        socket_options(s).nagle,
{
    Socket::new(SocketBuffer::new(vec![0u8; recv]), SocketBuffer::new(vec![0u8; send]))
}

/// `Socket::set_keep_alive`: probes the peer after this time without a packet.
#[verifier::external_body]
pub(crate) fn set_keep_alive(s: &mut Socket<'static>, micros: u64)
    ensures
        same_but_options(*final(s), *old(s)),
        socket_options(*final(s)) == (SocketOptions {
            keep_alive: Some(micros),
            ..socket_options(*old(s))
        }),
{
    s.set_keep_alive(Some(smoltcp::time::Duration::from_micros(micros)))
}

/// `Socket::set_timeout`: gives the peer up after this time without an answer.
#[verifier::external_body]
pub(crate) fn set_timeout(s: &mut Socket<'static>, micros: u64)
    ensures
        same_but_options(*final(s), *old(s)),
        socket_options(*final(s)) == (SocketOptions {
            timeout: Some(micros),
            ..socket_options(*old(s))
        }),
{
    s.set_timeout(Some(smoltcp::time::Duration::from_micros(micros)))
}

/// `Socket::set_nagle_enabled`: whether small segments wait for more bytes.
#[verifier::external_body]
pub(crate) fn set_nagle_enabled(s: &mut Socket<'static>, enabled: bool)
    ensures
        same_but_options(*final(s), *old(s)),
        socket_options(*final(s)) == (SocketOptions { nagle: enabled, ..socket_options(*old(s)) }),
{
    s.set_nagle_enabled(enabled)
}

/// `Socket::set_congestion_control`: how the window is kept.
#[verifier::external_body]
pub(crate) fn set_congestion_control(s: &mut Socket<'static>, congestion: TcpCongestion)
    ensures
        same_but_options(*final(s), *old(s)),
        socket_options(*final(s)) == (SocketOptions { congestion, ..socket_options(*old(s)) }),
{
    s.set_congestion_control(
        match congestion {
            TcpCongestion::Unset => CongestionControl::None,
            TcpCongestion::Cubic => CongestionControl::Cubic,
        },
    )
}

/// Why a socket does not listen.
#[derive(Clone, Copy, Debug, PartialEq, Eq, Structural)]
pub enum ListenFailure {
    InvalidState,
    Unaddressable,
}

/// `Socket::listen`: a socket that is not open listens on this end, with empty
/// buffers. Port 0 is no end to listen on, and leaves the socket as it was.
#[verifier::external_body]
pub(crate) fn listen(s: &mut Socket<'static>, end: &SocketAddr) -> (r: Result<(), ListenFailure>)
    requires
        !socket_state(*old(s)).open(),
    ensures
        r == if socket_port(*end) == 0 {
            Err(ListenFailure::Unaddressable)
        } else {
            Ok(())
        },
        r is Err ==> same_but_options(*final(s), *old(s)),
        r is Ok ==> {
            &&& socket_state(*final(s)) is Listen
            &&& socket_listens_on(*final(s)) == (
                socket_octets(*end),
                socket_port(*end),
            )
            &&& socket_inbox(*final(s)) == Seq::<u8>::empty()
            &&& socket_outbox(*final(s)) == Seq::<u8>::empty()
        },
        socket_send_capacity(*final(s)) == socket_send_capacity(*old(s)),
        socket_recv_capacity(*final(s)) == socket_recv_capacity(*old(s)),
        socket_options(*final(s)) == socket_options(*old(s)),
{
    let endpoint = match end {
        SocketAddr::V4(a) => (IpAddress::Ipv4(Ipv4Address::from(a.ip.octets)), a.port),
        SocketAddr::V6(a) => (IpAddress::Ipv6(Ipv6Address::from(a.ip.octets)), a.port),
    };
    s.listen(endpoint).map_err(
        |e| match e {
            ListenError::InvalidState => ListenFailure::InvalidState,
            ListenError::Unaddressable => ListenFailure::Unaddressable,
        },
    )
}

/// `Socket::state`: the state.
#[verifier::external_body]
fn state_of(s: &Socket<'static>) -> (r: TcpState)
    ensures
        r == socket_state(*s),
{
    match s.state() {
        State::Closed => TcpState::Closed,
        State::Listen => TcpState::Listen,
        State::SynSent => TcpState::SynSent,
        State::SynReceived => TcpState::SynReceived,
        State::Established => TcpState::Established,
        State::FinWait1 => TcpState::FinWait1,
        State::FinWait2 => TcpState::FinWait2,
        State::CloseWait => TcpState::CloseWait,
        State::Closing => TcpState::Closing,
        State::LastAck => TcpState::LastAck,
        State::TimeWait => TcpState::TimeWait,
    }
}

/// `Socket::is_open`: whether the socket still processes packets.
#[verifier::external_body]
fn is_open(s: &Socket<'static>) -> (b: bool)
    ensures
        b == socket_state(*s).open(),
{
    s.is_open()
}

/// `Socket::is_active`: whether the socket exchanges packets with a peer.
#[verifier::external_body]
fn is_active(s: &Socket<'static>) -> (b: bool)
    ensures
        b == (socket_state(*s).open() && !(socket_state(*s) is Listen)),
{
    s.is_active()
}

/// `Socket::abort`: closes the socket at once; its buffers stay.
#[verifier::external_body]
fn abort(s: &mut Socket<'static>)
    ensures
        socket_state(*final(s)) is Closed,
        socket_inbox(*final(s)) == socket_inbox(*old(s)),
        socket_outbox(*final(s)) == socket_outbox(*old(s)),
        socket_send_capacity(*final(s)) == socket_send_capacity(*old(s)),
{
    s.abort()
}

/// `Socket::can_recv`: whether there are received bytes.
#[verifier::external_body]
fn can_recv(s: &Socket<'static>) -> (b: bool)
    ensures
        b == (socket_inbox(*s).len() > 0),
{
    s.can_recv()
}

/// `Socket::can_send`: whether bytes may be sent and one fits. The buffer is a
/// slice of bytes, which bounds its size.
#[verifier::external_body]
fn can_send(s: &Socket<'static>) -> (b: bool)
    ensures
        b == (socket_state(*s).may_send() && socket_outbox(*s).len() < socket_send_capacity(*s)),
        b ==> socket_send_capacity(*s) <= isize::MAX,
{
    s.can_send()
}

/// `Socket::recv`: offers received bytes, from the oldest on, to
/// [`TcpStream::accept_bytes`], and drops those that it took. How many of them are
/// offered at once depends on where they lie in the socket's buffer. Both numbers
/// are returned. Without received bytes it may fail, which changes nothing.
#[verifier::external_body]
fn recv_into(s: &mut Socket<'static>, stream: &mut TcpStream) -> (r: Result<(usize, usize), ()>)
    requires
        old(stream).wf(),
    ensures
        final(stream).wf(),
        socket_inbox(*old(s)).len() > 0 ==> r is Ok,
        match r {
            Ok((n, offered)) => {
                &&& n == fitting(offered as int, old(stream).recv_room())
                &&& offered <= socket_inbox(*old(s)).len()
                &&& socket_inbox(*old(s)).len() > 0 ==> offered > 0
                &&& socket_inbox(*final(s)) == socket_inbox(*old(s)).skip(n as int)
                &&& final(stream).received() == old(stream).received() + socket_inbox(
                    *old(s),
                ).take(n as int)
            },
            Err(()) => socket_inbox(*final(s)) == socket_inbox(*old(s)) && final(stream).received()
                == old(stream).received(),
        },
        final(stream).same_but_received(*old(stream)),
        socket_outbox(*final(s)) == socket_outbox(*old(s)),
        socket_send_capacity(*final(s)) == socket_send_capacity(*old(s)),
        socket_state(*final(s)) == socket_state(*old(s)),
{
    s.recv(|buffer| stream.accept_bytes(buffer)).map_err(|_| ())
}

/// `Socket::send`: offers free space of the transmit buffer to
/// [`TcpStream::provide_bytes`], and keeps what that wrote. How much space is
/// offered at once depends on where it lies in the socket's buffer; the number
/// is returned. It fails where nothing may be sent, which changes nothing.
#[verifier::external_body]
fn send_from(s: &mut Socket<'static>, stream: &mut TcpStream) -> (r: Result<usize, ()>)
    ensures
        r is Ok <==> socket_state(*old(s)).may_send(),
        match r {
            Ok(offered) => {
                let n = fitting(offered as int, old(stream).unsent().len() as int);
                &&& offered <= socket_send_capacity(*old(s)) - socket_outbox(*old(s)).len()
                &&& socket_outbox(*old(s)).len() < socket_send_capacity(*old(s)) ==> offered > 0
                &&& socket_outbox(*final(s)) == socket_outbox(*old(s)) + old(stream).unsent().take(
                    n,
                )
                &&& final(stream).unsent() == old(stream).unsent().skip(n)
            },
            Err(()) => socket_outbox(*final(s)) == socket_outbox(*old(s)) && final(stream).unsent()
                == old(stream).unsent(),
        },
        final(stream).same_but_unsent(*old(stream)),
        socket_inbox(*final(s)) == socket_inbox(*old(s)),
        socket_send_capacity(*final(s)) == socket_send_capacity(*old(s)),
        socket_state(*final(s)) == socket_state(*old(s)),
{
    s.send(|buffer| stream.provide_bytes(buffer)).map_err(|_| ())
}

/// One TCP connection.
pub struct TcpStream {
    local_addr: SocketAddr,
    remote_addr: SocketAddr,
    recv: ByteRing,
    send: ByteRing,
    read_closed: bool,
    socket_dropped: bool,
}

/// What a read came to.
#[derive(Clone, Copy, Debug, PartialEq, Eq, Structural)]
pub enum ReadOutcome {
    /// Nothing is there yet: wait for the worker.
    Pending,
    /// Nothing is there, and nothing will come.
    Closed,
    /// This many bytes were read: the worker has room again.
    Data(usize),
}

/// What a write came to.
pub enum WriteOutcome {
    /// Nothing fits yet: wait for the worker.
    Pending,
    /// The stream takes no more bytes.
    Broken(Error),
    /// This many bytes were taken.
    Written(usize),
}

/// What moves bytes through a stream.
pub enum StreamOp {
    /// These bytes were read.
    Read(Seq<u8>),
    /// These bytes were taken to be sent.
    Write(Seq<u8>),
    /// A pass over the socket: these bytes arrived, and these went to the socket.
    Pass { arrived: Seq<u8>, sent: Seq<u8> },
}

/// Whether an operation on a stream leaves it as `after`.
pub open spec fn stream_follows(before: TcpStream, op: StreamOp, after: TcpStream) -> bool {
    match op {
        StreamOp::Read(bytes) => {
            &&& before.received() == bytes + after.received()
            &&& after.unsent() == before.unsent()
        },
        StreamOp::Write(bytes) => {
            &&& after.received() == before.received()
            &&& after.unsent() == before.unsent() + bytes
        },
        StreamOp::Pass { arrived, sent } => {
            &&& after.received() == before.received() + arrived
            &&& before.unsent() == sent + after.unsent()
        },
    }
}

/// What one pass over a socket did.
#[derive(Clone, Copy, Debug, PartialEq, Eq, Structural)]
pub struct IoReport {
    /// Bytes taken from the socket.
    pub read: usize,
    /// Transmit space of the socket that was offered bytes.
    pub written: usize,
    /// Whether a waiting reader is to look again.
    pub wake_reader: bool,
    /// Whether a waiting writer is to look again.
    pub wake_writer: bool,
}

impl TcpStream {
    /// Bytes that arrived and were not read yet, the oldest first.
    pub closed spec fn received(&self) -> Seq<u8> {
        ring_seq(self.recv)
    }

    /// Bytes that were written and not handed to the socket yet, the oldest
    /// first.
    pub closed spec fn unsent(&self) -> Seq<u8> {
        ring_seq(self.send)
    }

    /// How many bytes may wait to be read.
    pub closed spec fn recv_capacity(&self) -> nat {
        ring_capacity(self.recv)
    }

    /// How many bytes may wait to be sent.
    pub closed spec fn send_capacity(&self) -> nat {
        ring_capacity(self.send)
    }

    /// How many more bytes may wait to be read.
    pub open spec fn recv_room(&self) -> int {
        self.recv_capacity() - self.received().len()
    }

    /// Whether nothing more will arrive.
    pub closed spec fn eof(&self) -> bool {
        self.read_closed
    }

    /// Whether the application is done with the stream.
    pub closed spec fn dropped(&self) -> bool {
        self.socket_dropped
    }

    /// The two ends, the peer of the stack first.
    pub closed spec fn ends(&self) -> (SocketAddr, SocketAddr) {
        (self.local_addr, self.remote_addr)
    }

    /// Neither queue is over its capacity.
    pub open spec fn wf(&self) -> bool {
        self.received().len() <= self.recv_capacity() && self.unsent().len() <= self.send_capacity()
    }

    /// Whether this is `other` but for the bytes to be read.
    pub open spec fn same_but_received(&self, other: TcpStream) -> bool {
        &&& self.unsent() == other.unsent()
        &&& self.recv_capacity() == other.recv_capacity()
        &&& self.send_capacity() == other.send_capacity()
        &&& self.eof() == other.eof()
        &&& self.dropped() == other.dropped()
        &&& self.ends() == other.ends()
    }

    /// Whether this is `other` but for the bytes to be sent.
    pub open spec fn same_but_unsent(&self, other: TcpStream) -> bool {
        &&& self.received() == other.received()
        &&& self.recv_capacity() == other.recv_capacity()
        &&& self.send_capacity() == other.send_capacity()
        &&& self.eof() == other.eof()
        &&& self.dropped() == other.dropped()
        &&& self.ends() == other.ends()
    }

    /// A connection that has carried nothing yet.
    pub fn new(
        local_addr: SocketAddr,
        remote_addr: SocketAddr,
        recv_capacity: usize,
        send_capacity: usize,
    ) -> (r: TcpStream)
        requires
            0 < recv_capacity <= isize::MAX / 2,
            0 < send_capacity <= isize::MAX / 2,
        ensures
            r.wf(),
            r.received() == Seq::<u8>::empty(),
            r.unsent() == Seq::<u8>::empty(),
            r.recv_capacity() == recv_capacity,
            r.send_capacity() == send_capacity,
            !r.eof(),
            !r.dropped(),
            r.ends() == (local_addr, remote_addr),
    {
        TcpStream {
            local_addr,
            remote_addr,
            recv: ring_new(recv_capacity),
            send: ring_new(send_capacity),
            read_closed: false,
            socket_dropped: false,
        }
    }

    /// The peer that opened the connection.
    pub fn local_addr(&self) -> (a: SocketAddr)
        ensures
            a == self.ends().0,
    {
        self.local_addr
    }

    /// The destination that it was opened to.
    pub fn remote_addr(&self) -> (a: SocketAddr)
        ensures
            a == self.ends().1,
    {
        self.remote_addr
    }

    /// Takes received bytes as far as they fit. Gives their number, and again
    /// with the length of `buffer`.
    fn accept_bytes(&mut self, buffer: &[u8]) -> (r: (usize, (usize, usize)))
        requires
            old(self).wf(),
        ensures
            final(self).wf(),
            r.0 == fitting(buffer@.len() as int, old(self).recv_room()),
            r.1 == (r.0, buffer@.len() as usize),
            final(self).received() == old(self).received() + buffer@.take(r.0 as int),
            final(self).same_but_received(*old(self)),
    {
        let n: usize = ring_push(&mut self.recv, buffer);
        (n, (n, buffer.len()))
    }

    /// Fills `buffer` with bytes to be sent. Gives their number and the length of
    /// `buffer`.
    fn provide_bytes(&mut self, buffer: &mut [u8]) -> (r: (usize, usize))
        ensures
            r.0 == fitting(old(buffer)@.len() as int, old(self).unsent().len() as int),
            r.1 == old(buffer)@.len(),
            final(buffer)@ == old(self).unsent().take(r.0 as int) + old(buffer)@.skip(r.0 as int),
            final(self).unsent() == old(self).unsent().skip(r.0 as int),
            final(self).same_but_unsent(*old(self)),
    {
        let len: usize = buffer.len();
        let n: usize = ring_pop(&mut self.send, buffer);
        (n, len)
    }

    /// Reads what has arrived into the front of `out`.
    pub fn poll_read(&mut self, out: &mut [u8]) -> (r: ReadOutcome)
        requires
            old(self).wf(),
        ensures
            final(self).wf(),
            final(self).same_but_received(*old(self)),
            old(self).received().len() == 0 ==> {
                &&& r == if old(self).eof() {
                    ReadOutcome::Closed
                } else {
                    ReadOutcome::Pending
                }
                &&& final(self).received() == old(self).received()
                &&& final(out)@ == old(out)@
            },
            old(self).received().len() > 0 ==> {
                let n = fitting(old(out)@.len() as int, old(self).received().len() as int);
                &&& r matches ReadOutcome::Data(k) && k == n
                &&& final(out)@ == old(self).received().take(n) + old(out)@.skip(n)
                &&& final(self).received() == old(self).received().skip(n)
            },
            r matches ReadOutcome::Data(n) ==> stream_follows(
                *old(self),
                StreamOp::Read(final(out)@.take(n as int)),
                *final(self),
            ),
    {
        if ring_is_empty(&self.recv) {
            if self.read_closed {
                return ReadOutcome::Closed;
            }
            return ReadOutcome::Pending;
        }
        let n: usize = ring_pop(&mut self.recv, out);
        assert(out@.take(n as int) =~= old(self).received().take(n as int));
        assert(old(self).received() =~= out@.take(n as int) + self.received());
        ReadOutcome::Data(n)
    }

    /// Takes as many bytes as fit to be sent.
    pub fn poll_write(&mut self, data: &[u8]) -> (r: WriteOutcome)
        requires
            old(self).wf(),
        ensures
            final(self).wf(),
            final(self).same_but_unsent(*old(self)),
            old(self).dropped() ==> {
                &&& r matches WriteOutcome::Broken(e) && e.reads(
                    ErrorKind::BrokenPipe,
                    "Socket is closing"@,
                )
                &&& final(self).unsent() == old(self).unsent()
            },
            !old(self).dropped() && old(self).unsent().len() == old(self).send_capacity() ==> r
                is Pending && final(self).unsent() == old(self).unsent(),
            !old(self).dropped() && old(self).unsent().len() < old(self).send_capacity() ==> {
                let n = fitting(
                    data@.len() as int,
                    old(self).send_capacity() - old(self).unsent().len(),
                );
                &&& r matches WriteOutcome::Written(k) && k == n
                &&& final(self).unsent() == old(self).unsent() + data@.take(n)
            },
            r matches WriteOutcome::Written(n) ==> stream_follows(
                *old(self),
                StreamOp::Write(data@.take(n as int)),
                *final(self),
            ),
    {
        if self.socket_dropped {
            return WriteOutcome::Broken(Error::new(ErrorKind::BrokenPipe, "Socket is closing"));
        }
        if ring_is_full(&self.send) {
            return WriteOutcome::Pending;
        }
        WriteOutcome::Written(ring_push(&mut self.send, data))
    }

    /// Whether everything that was written has gone to the socket.
    pub fn poll_flush(&self) -> (done: bool)
        ensures
            done == (self.unsent().len() == 0),
    {
        ring_is_empty(&self.send)
    }

    /// Closes the stream once everything that was written has gone to the
    /// socket; says whether that is so.
    pub fn poll_shutdown(&mut self) -> (done: bool)
        ensures
            done == (old(self).unsent().len() == 0),
            done ==> final(self).dropped(),
            !done ==> final(self).dropped() == old(self).dropped(),
            final(self).received() == old(self).received(),
            final(self).unsent() == old(self).unsent(),
            final(self).recv_capacity() == old(self).recv_capacity(),
            final(self).send_capacity() == old(self).send_capacity(),
            final(self).eof() == old(self).eof(),
            final(self).ends() == old(self).ends(),
    {
        if !self.poll_flush() {
            return false;
        }
        self.socket_dropped = true;
        true
    }

    /// Gives the stream up, whatever is left to be sent.
    pub fn close(&mut self)
        ensures
            final(self).dropped(),
            final(self).received() == old(self).received(),
            final(self).unsent() == old(self).unsent(),
            final(self).recv_capacity() == old(self).recv_capacity(),
            final(self).send_capacity() == old(self).send_capacity(),
            final(self).eof() == old(self).eof(),
            final(self).ends() == old(self).ends(),
    {
        self.socket_dropped = true;
    }

    /// Moves bytes between the stream and its socket: received bytes once, bytes
    /// to be sent until there are none or the socket takes none. A socket that is
    /// no longer open closes the reading side.
    pub fn handle_socket_io(&mut self, socket: &mut Socket<'static>) -> (r: IoReport)
        requires
            old(self).wf(),
        ensures
            final(self).wf(),
            final(self).recv_capacity() == old(self).recv_capacity(),
            final(self).send_capacity() == old(self).send_capacity(),
            final(self).dropped() == old(self).dropped(),
            final(self).ends() == old(self).ends(),
            socket_state(*final(socket)) == socket_state(*old(socket)),
            socket_send_capacity(*final(socket)) == socket_send_capacity(*old(socket)),
            // What was read is what the socket no longer holds, in order.
            r.read <= socket_inbox(*old(socket)).len(),
            r.read <= old(self).recv_room(),
            r.read > 0 <==> socket_inbox(*old(socket)).len() > 0 && old(self).recv_room() > 0,
            final(self).received() == old(self).received() + socket_inbox(*old(socket)).take(
                r.read as int,
            ),
            socket_inbox(*final(socket)) == socket_inbox(*old(socket)).skip(r.read as int),
            // The reading side closes with the socket.
            final(self).eof() == (old(self).eof() || !socket_state(*old(socket)).open()),
            r.wake_reader == (socket_inbox(*old(socket)).len() > 0 || (!old(self).eof()
                && !socket_state(*old(socket)).open())),
            // As much was sent as the socket had room for.
            ({
                let n = sendable(*old(self), *old(socket));
                &&& final(self).unsent() == old(self).unsent().skip(n)
                &&& socket_outbox(*final(socket)) == socket_outbox(*old(socket)) + old(
                    self,
                ).unsent().take(n)
                &&& r.wake_writer == (n > 0)
                &&& r.written >= n
                &&& r.written > 0 <==> n > 0
                &&& r.written > 0 ==> r.written <= socket_send_capacity(*old(socket))
                    - socket_outbox(*old(socket)).len()
                &&& n < old(self).unsent().len() ==> r.written == n
                &&& stream_follows(
                    *old(self),
                    StreamOp::Pass {
                        arrived: socket_inbox(*old(socket)).take(r.read as int),
                        sent: old(self).unsent().take(n),
                    },
                    *final(self),
                )
            }),
    {
        let ghost inbox = socket_inbox(*socket);
        let ghost outbox = socket_outbox(*socket);
        let ghost unsent = self.unsent();
        let ghost state = socket_state(*socket);
        let ghost capacity = socket_send_capacity(*socket);
        let mut read: usize = 0;
        let mut wake_reader: bool = false;
        if can_recv(socket) {
            match recv_into(socket, self) {
                Ok((taken, offered)) => {
                    read = taken;
                    if offered > 0 {
                        wake_reader = true;
                    }
                },
                Err(()) => {
                    self.read_closed = true;
                    wake_reader = true;
                },
            }
        }
        if !is_open(socket) && !self.read_closed {
            self.read_closed = true;
            wake_reader = true;
        }
        let mut written: usize = 0;
        let mut wake_writer: bool = false;
        let ghost mut moved: int = 0;
        let ghost mid = *self;
        let ghost mid_inbox = socket_inbox(*socket);
        assert(unsent.skip(0) =~= unsent);
        assert(outbox + unsent.take(0) =~= outbox);
        assert(old(self).received() + inbox.take(0) =~= old(self).received());
        assert(inbox.skip(0) =~= inbox);
        while can_send(socket) && !ring_is_empty(&self.send)
            invariant
                0 <= moved <= unsent.len(),
                moved > 0 ==> outbox.len() + moved <= capacity <= isize::MAX,
                self.unsent() == unsent.skip(moved),
                self.same_but_unsent(mid),
                socket_outbox(*socket) == outbox + unsent.take(moved),
                socket_inbox(*socket) == mid_inbox,
                socket_state(*socket) == state,
                socket_send_capacity(*socket) == capacity,
                written == moved || (moved == unsent.len() && moved < written),
                written > 0 ==> outbox.len() + written <= capacity,
                written > 0 <==> moved > 0,
                wake_writer == (moved > 0),
                moved > 0 ==> state.may_send(),
            ensures
                moved == unsent.len() || !state.may_send() || outbox.len() + moved >= capacity,
            decreases self.unsent().len(),
        {
            match send_from(socket, self) {
                Ok(offered) => {
                    if offered == 0 {
                        break;
                    }
                    let ghost n = fitting(offered as int, unsent.len() - moved);
                    proof {
                        assert(unsent.skip(moved).skip(n) =~= unsent.skip(moved + n));
                        assert(unsent.take(moved) + unsent.skip(moved).take(n) =~= unsent.take(
                            moved + n,
                        ));
                        assert(outbox + unsent.take(moved) + unsent.skip(moved).take(n) =~= outbox
                            + unsent.take(moved + n));
                        moved = moved + n;
                    }
                    written += offered;
                    wake_writer = true;
                },
                Err(()) => break,
            }
        }
        assert(unsent =~= unsent.take(moved) + self.unsent());
        IoReport { read, written, wake_reader, wake_writer }
    }
}

/// Whether a connection is over: its socket is closed, if need be because the
/// application is done with the stream, which aborts it.
pub fn prune(stream: &TcpStream, socket: &mut Socket<'static>) -> (over: bool)
    ensures
        over == (stream.dropped() || socket_state(*old(socket)) is Closed),
        socket_state(*final(socket)) == if stream.dropped() {
            TcpState::Closed
        } else {
            socket_state(*old(socket))
        },
        socket_inbox(*final(socket)) == socket_inbox(*old(socket)),
        socket_outbox(*final(socket)) == socket_outbox(*old(socket)),
        socket_send_capacity(*final(socket)) == socket_send_capacity(*old(socket)),
{
    if stream.socket_dropped {
        abort(socket);
    }
    if is_active(socket) {
        return false;
    }
    match state_of(socket) {
        TcpState::Closed => true,
        _ => false,
    }
}

/// How many of the bytes to be sent the socket takes.
pub open spec fn sendable(stream: TcpStream, socket: Socket<'static>) -> int {
    if socket_state(socket).may_send() && socket_outbox(socket).len() < socket_send_capacity(
        socket,
    ) {
        fitting(
            stream.unsent().len() as int,
            socket_send_capacity(socket) - socket_outbox(socket).len(),
        )
    } else {
        0
    }
}

/// A read gives as many of the oldest bytes as fit, in order, and leaves the rest. With no
/// byte there it is closed where nothing more will arrive, and to be waited for where
/// something may.
pub proof fn law_oldest_bytes_are_read(
    stream: &mut TcpStream,
    out: &mut [u8],
    r: ReadOutcome,
    i: int,
)
    requires
        old(stream).wf(),
        call_ensures(TcpStream::poll_read, (stream, out), r),
    ensures
        r == ReadOutcome::Closed <==> old(stream).received().len() == 0 && old(stream).eof(),
        r == ReadOutcome::Pending <==> old(stream).received().len() == 0 && !old(stream).eof(),
        r matches ReadOutcome::Data(n) ==> {
            &&& n <= old(out)@.len()
            &&& n <= old(stream).received().len()
            &&& n == old(out)@.len() || n == old(stream).received().len()
            &&& 0 <= i < n ==> final(out)@[i] == old(stream).received()[i]
            &&& n <= i < old(out)@.len() ==> final(out)@[i] == old(out)@[i]
            &&& final(stream).received().len() == old(stream).received().len() - n
            &&& 0 <= i < final(stream).received().len() ==> final(stream).received()[i] == old(
                stream).received()[n + i]
        },
        !(r is Data) ==> final(stream).received() == old(stream).received() && final(out)@ == old(
            out)@,
        final(stream).unsent() == old(stream).unsent(),
        final(stream).eof() == old(stream).eof(),
        final(stream).dropped() == old(stream).dropped(),
        final(stream).ends() == old(stream).ends(),
{
}

/// A write takes as many bytes as there is room for, behind those that wait. A stream that
/// was given up takes none and says so, and one without room is to be waited for.
pub proof fn law_written_bytes_queue_up(
    stream: &mut TcpStream,
    data: &[u8],
    r: WriteOutcome,
    i: int,
)
    requires
        old(stream).wf(),
        call_ensures(TcpStream::poll_write, (stream, data), r),
    ensures
        r is Broken <==> old(stream).dropped(),
        r matches WriteOutcome::Broken(e) ==> e.kind == ErrorKind::BrokenPipe && e.message@
            == "Socket is closing"@,
        r is Pending <==> !old(stream).dropped() && old(stream).unsent().len() == old(
            stream).send_capacity(),
        r matches WriteOutcome::Written(n) ==> {
            &&& n <= data@.len()
            &&& n == data@.len() || old(stream).unsent().len() + n == old(stream).send_capacity()
            &&& final(stream).unsent().len() == old(stream).unsent().len() + n
            &&& final(stream).unsent().len() <= old(stream).send_capacity()
            &&& 0 <= i < old(stream).unsent().len() ==> final(stream).unsent()[i] == old(
                stream).unsent()[i]
            &&& 0 <= i < n ==> final(stream).unsent()[old(stream).unsent().len() + i] == data@[i]
        },
        !(r is Written) ==> final(stream).unsent() == old(stream).unsent(),
        final(stream).received() == old(stream).received(),
        final(stream).eof() == old(stream).eof(),
        final(stream).dropped() == old(stream).dropped(),
        final(stream).ends() == old(stream).ends(),
{
}

/// A shutdown waits for the bytes that are to be sent, a close does not; neither loses a
/// byte.
pub proof fn law_shutdown_waits_for_the_bytes(
    stream: &mut TcpStream,
    flushed: bool,
    done: bool,
    other: &mut TcpStream,
)
    requires
        call_ensures(TcpStream::poll_flush, (old(stream),), flushed),
        call_ensures(TcpStream::poll_shutdown, (stream,), done),
        *old(other) == *old(stream),
        call_ensures(TcpStream::close, (other,), ()),
    ensures
        flushed <==> old(stream).unsent().len() == 0,
        done == flushed,
        final(stream).dropped() <==> done || old(stream).dropped(),
        final(other).dropped(),
        final(stream).unsent() == old(stream).unsent(),
        final(other).unsent() == old(stream).unsent(),
        final(stream).received() == old(stream).received(),
        final(other).received() == old(stream).received(),
        final(stream).ends() == old(stream).ends(),
        final(other).ends() == old(stream).ends(),
{
}

/// What is written after a close is refused, and what arrived before it can still be read.
pub proof fn law_closed_stream_takes_no_bytes(
    stream: &mut TcpStream,
    later: &mut TcpStream,
    data: &[u8],
    w: WriteOutcome,
)
    requires
        old(stream).wf(),
        call_ensures(TcpStream::close, (stream,), ()),
        *old(later) == *final(stream),
        call_ensures(TcpStream::poll_write, (later, data), w),
    ensures
        w is Broken,
        final(later).received() == old(stream).received(),
        final(later).unsent() == old(stream).unsent(),
{
}

/// A stream leads from the peer that opened it to its destination, has carried nothing, and
/// has the room that it was made with.
pub proof fn law_new_stream_is_empty(
    local: SocketAddr,
    remote: SocketAddr,
    recv_capacity: usize,
    send_capacity: usize,
    r: TcpStream,
    from: SocketAddr,
    to: SocketAddr,
)
    requires
        0 < recv_capacity <= isize::MAX / 2,
        0 < send_capacity <= isize::MAX / 2,
        call_ensures(TcpStream::new, (local, remote, recv_capacity, send_capacity), r),
        call_ensures(TcpStream::local_addr, (&r,), from),
        call_ensures(TcpStream::remote_addr, (&r,), to),
    ensures
        from == local,
        to == remote,
        r.received().len() == 0,
        r.unsent().len() == 0,
        r.recv_capacity() == recv_capacity,
        r.send_capacity() == send_capacity,
        !r.eof(),
        !r.dropped(),
{
}

/// A pass over a socket takes bytes from it while there is room, in order, and gives it the
/// oldest bytes to be sent, as many as it has room for where it may still send. No byte is
/// lost or repeated on either side.
pub proof fn law_pass_moves_bytes_in_order(
    stream: &mut TcpStream,
    socket: &mut Socket<'static>,
    r: IoReport,
)
    requires
        old(stream).wf(),
        call_ensures(TcpStream::handle_socket_io, (stream, socket), r),
    ensures
        final(stream).received() + socket_inbox(*final(socket)) == old(stream).received()
            + socket_inbox(*old(socket)),
        socket_outbox(*final(socket)) + final(stream).unsent() == socket_outbox(*old(socket)) + old(
            stream).unsent(),
        final(stream).received().len() == old(stream).received().len() + r.read,
        r.read == 0 <==> socket_inbox(*old(socket)).len() == 0 || old(stream).received().len()
            == old(stream).recv_capacity(),
        ({
            let sent = old(stream).unsent().len() - final(stream).unsent().len();
            let may_send = socket_state(*old(socket)) is Established || socket_state(*old(socket))
                is CloseWait;
            &&& !may_send ==> sent == 0
            &&& may_send ==> final(stream).unsent().len() == 0 || socket_outbox(
                *final(socket),
            ).len() >= socket_send_capacity(*old(socket))
            &&& r.wake_writer <==> sent > 0
            &&& r.written > 0 <==> sent > 0
        }),
{
    let inbox = socket_inbox(*old(socket));
    let n = sendable(*old(stream), *old(socket));
    assert(final(stream).received() + socket_inbox(*final(socket)) =~= old(stream).received()
        + inbox) by {
        assert(inbox.take(r.read as int) + inbox.skip(r.read as int) =~= inbox);
    }
    assert(socket_outbox(*final(socket)) + final(stream).unsent() =~= socket_outbox(*old(socket))
        + old(stream).unsent()) by {
        assert(old(stream).unsent().take(n) + old(stream).unsent().skip(n) =~= old(
            stream).unsent());
    }
}

/// Nothing more arrives once the socket is closed or only waits for its time to run out,
/// and a reader is woken when that becomes so and when bytes were there.
pub proof fn law_reading_ends_with_the_socket(
    stream: &mut TcpStream,
    socket: &mut Socket<'static>,
    r: IoReport,
)
    requires
        old(stream).wf(),
        call_ensures(TcpStream::handle_socket_io, (stream, socket), r),
    ensures
        final(stream).eof() <==> old(stream).eof() || socket_state(*old(socket)) is Closed
            || socket_state(*old(socket)) is TimeWait,
        final(stream).eof() && !old(stream).eof() ==> r.wake_reader,
        r.read > 0 ==> r.wake_reader,
        r.wake_reader ==> socket_inbox(*old(socket)).len() > 0 || (final(stream).eof() && !old(
            stream).eof()),
        final(stream).dropped() == old(stream).dropped(),
        final(stream).ends() == old(stream).ends(),
        socket_state(*final(socket)) == socket_state(*old(socket)),
{
}

/// A connection is over where its socket is closed, and a stream that was given up closes
/// it; any other goes on as it is.
pub proof fn law_connection_is_pruned_when_over(
    stream: &TcpStream,
    socket: &mut Socket<'static>,
    over: bool,
)
    requires
        call_ensures(prune, (stream, socket), over),
    ensures
        over <==> socket_state(*final(socket)) is Closed,
        stream.dropped() ==> over,
        !stream.dropped() ==> socket_state(*final(socket)) == socket_state(*old(socket)),
{
}

} // verus!
