//! Datagrams of a client: each belongs to a session with a socket of its own.
use bytes::Bytes;
use vstd::prelude::*;

use crate::address::SocketAddr;
use crate::buf::bytes_seq;
use crate::error::{Error, ErrorKind};
use crate::text::{push_seconds, seconds_text};
use crate::time::{Duration, NANOS_PER_MILLI};
use crate::tunnel::Address;

verus! {

/// How many sessions a connection has at most.
pub const MAX_SESSIONS: u64 = 8192;

/// How many datagrams of a connection are handled at once.
pub const MAX_CONCURRENT_HANDLERS: usize = 4096;

/// The largest datagram that is received.
pub const MAX_UDP_RECV_BUFFER_SIZE: usize = 65535;

/// How long a session may be idle, in seconds.
pub const SESSION_IDLE_TIMEOUT_SECS: u64 = 65;

/// How long a resolved name is kept while it is not used, in seconds.
pub const DNS_CACHE_TTL_SECS: u64 = 300;

/// How long sending a datagram to the client may take, in seconds.
pub const DATAGRAM_SEND_TIMEOUT_SECS: u64 = 5;

/// How often binding a socket is tried.
pub const SOCKET_BIND_RETRY_MAX: u32 = 3;

/// The pause between two tries, in milliseconds.
pub const SOCKET_BIND_RETRY_INTERVAL_MS: u64 = 100;

/// Where the address of a destination comes from.
pub enum Lookup {
    /// It is known.
    Known(SocketAddr),
    /// This name is to be resolved, and the result kept for the next time.
    Resolve(Bytes, u16),
}

/// Where the address of a destination comes from: a socket address is one, and a
/// name is looked for among those that were resolved before.
pub fn lookup_host(address: &Address, cached: Option<SocketAddr>) -> (r: Lookup)
    ensures
        match address {
            Address::SocketV4(a) => r == Lookup::Known(SocketAddr::V4(*a)),
            Address::SocketV6(a) => r == Lookup::Known(SocketAddr::V6(*a)),
            Address::Domain(d, port) => match cached {
                Some(a) => r == Lookup::Known(a),
                None => r matches Lookup::Resolve(x, p) && bytes_seq(x) == bytes_seq(*d) && p
                    == *port,
            },
        },
{
    match address {
        Address::SocketV4(addr) => Lookup::Known(SocketAddr::V4(*addr)),
        Address::SocketV6(addr) => Lookup::Known(SocketAddr::V6(*addr)),
        Address::Domain(domain, port) => match cached {
            Some(addr) => Lookup::Known(addr),
            None => Lookup::Resolve(domain.clone(), *port),
        },
    }
}

/// The local address that the socket of a session is bound to: any of the
/// destination's family.
pub fn bind_addr(destination: &SocketAddr) -> (s: &'static str)
    ensures
        s@ == if destination is V4 {
            "0.0.0.0:0"@
        } else {
            "[::]:0"@
        },
{
    match destination {
        SocketAddr::V4(_) => "0.0.0.0:0",
        SocketAddr::V6(_) => "[::]:0",
    }
}

/// Binding a socket, which is tried a few times.
#[derive(Clone, Copy, Debug, PartialEq, Eq, Structural)]
pub struct BindRetry {
    pub attempt: u32,
}

/// What follows a try that failed.
pub enum BindStep {
    /// Wait this long, then try again.
    RetryAfter(Duration),
    /// Give up.
    GiveUp(Error),
}

impl BindRetry {
    /// Tries are left.
    pub open spec fn wf(&self) -> bool {
        self.attempt < SOCKET_BIND_RETRY_MAX
    }

    /// Before the first try.
    pub fn new() -> (r: BindRetry)
        ensures
            r.wf(),
            r.attempt == 0,
    {
        BindRetry { attempt: 0 }
    }

    /// A try failed. The failure of the last one stands.
    pub fn on_failure(&mut self, error: Error) -> (r: BindStep)
        requires
            old(self).wf(),
        ensures
            if old(self).attempt + 1 < SOCKET_BIND_RETRY_MAX {
                &&& r matches BindStep::RetryAfter(d) && d.nanos == 100 * NANOS_PER_MILLI
                &&& final(self).wf()
                &&& final(self).attempt == old(self).attempt + 1
            } else {
                &&& r == BindStep::GiveUp(error)
                &&& *final(self) == *old(self)
            },
    {
        if self.attempt < SOCKET_BIND_RETRY_MAX - 1 {
            self.attempt += 1;
            BindStep::RetryAfter(Duration::from_millis(SOCKET_BIND_RETRY_INTERVAL_MS))
        } else {
            BindStep::GiveUp(error)
        }
    }
}

/// What follows a failure to read from the client's connection.
pub enum ReadStep {
    /// Nothing came in time: wait this long and read again.
    Again(Duration),
    /// The connection is done.
    Finish(Error),
}

/// What follows a failure to read from the client's connection.
pub fn on_read_failure(error: Error) -> (r: ReadStep)
    ensures
        if error.kind is TimedOut {
            r matches ReadStep::Again(d) && d.nanos == NANOS_PER_MILLI
        } else {
            r == ReadStep::Finish(error)
        },
{
    match error.kind {
        ErrorKind::TimedOut => ReadStep::Again(Duration::from_millis(1)),
        _ => ReadStep::Finish(error),
    }
}

/// What happened to a packet from the client.
pub enum PacketEvent {
    /// It could not be decoded.
    Undecodable,
    /// It was put together with the others of its datagram: the datagram is
    /// complete, or is not yet, or the packet does not fit.
    Assembled(Result<Option<(u64, Address, Bytes)>, Error>),
    /// Its session was found or made, or was not.
    Session(Result<(), Error>),
    /// A place among those handled at once was found, or there will be none.
    Permit(bool),
}

/// What to do about it.
pub enum PacketStep {
    /// Find or make the session with this number for this destination.
    FindSession(u64, Address, Bytes),
    /// Wait for a place among those handled at once.
    AwaitPermit,
    /// Send the datagram to its destination, on its own.
    Forward,
    /// The packet is done with.
    Finish(Result<(), Error>),
}

/// Takes one event of a packet from the client. Only a packet that does not fit
/// its datagram is a failure; others that cannot be forwarded are dropped.
pub fn handle_upstream_packet(event: PacketEvent) -> (r: PacketStep)
    ensures
        r == match event {
            PacketEvent::Undecodable => PacketStep::Finish(Ok(())),
            PacketEvent::Assembled(Err(e)) => PacketStep::Finish(Err(e)),
            PacketEvent::Assembled(Ok(None)) => PacketStep::Finish(Ok(())),
            PacketEvent::Assembled(Ok(Some((id, address, data)))) => PacketStep::FindSession(
                id,
                address,
                data,
            ),
            PacketEvent::Session(Ok(())) => PacketStep::AwaitPermit,
            PacketEvent::Session(Err(_)) => PacketStep::Finish(Ok(())),
            PacketEvent::Permit(true) => PacketStep::Forward,
            PacketEvent::Permit(false) => PacketStep::Finish(Ok(())),
        },
{
    match event {
        PacketEvent::Undecodable => PacketStep::Finish(Ok(())),
        PacketEvent::Assembled(Err(e)) => PacketStep::Finish(Err(e)),
        PacketEvent::Assembled(Ok(None)) => PacketStep::Finish(Ok(())),
        PacketEvent::Assembled(Ok(Some((id, address, data)))) => PacketStep::FindSession(
            id,
            address,
            data,
        ),
        PacketEvent::Session(Ok(())) => PacketStep::AwaitPermit,
        PacketEvent::Session(Err(_)) => PacketStep::Finish(Ok(())),
        PacketEvent::Permit(true) => PacketStep::Forward,
        PacketEvent::Permit(false) => PacketStep::Finish(Ok(())),
    }
}

/// The failure to send a datagram to the client in time.
pub fn send_timeout() -> (e: Error)
    ensures
        e.reads(ErrorKind::TimedOut, "send_datagram timeout after "@ + seconds_text(5)),
{
    let mut message = "send_datagram timeout after ".to_owned();
    push_seconds(&mut message, DATAGRAM_SEND_TIMEOUT_SECS);
    Error::with_message(ErrorKind::TimedOut, message)
}

/// An address needs no name to be resolved; a name that was resolved before is not
/// resolved again, and one that was not is asked for as it stands.
pub proof fn law_only_unknown_names_are_resolved(
    address: &Address,
    cached: Option<SocketAddr>,
    r: Lookup,
)
    requires
        call_ensures(lookup_host, (address, cached), r),
    ensures
        r is Resolve <==> address is Domain && cached is None,
        address matches Address::SocketV4(a) ==> r == Lookup::Known(SocketAddr::V4(*a)),
        address matches Address::SocketV6(a) ==> r == Lookup::Known(SocketAddr::V6(*a)),
        address is Domain ==> (cached matches Some(a) ==> r == Lookup::Known(a)),
        r matches Lookup::Resolve(d, port) ==> (address matches Address::Domain(e, p) && bytes_seq(
            *e,
        ) == bytes_seq(d) && *p == port),
{
}

/// Binding is tried three times in all, a tenth of a second apart; the failure of the
/// third stands.
pub proof fn law_binding_is_tried_three_times(retry: &mut BindRetry, error: Error, r: BindStep)
    requires
        old(retry).attempt < 3,
        call_ensures(BindRetry::on_failure, (retry, error), r),
    ensures
        r is GiveUp <==> old(retry).attempt == 2,
        r matches BindStep::GiveUp(e) ==> e == error,
        r matches BindStep::RetryAfter(d) ==> d.nanos == 100_000_000 && final(retry).attempt
            == old(retry).attempt + 1,
{
}

/// Only a read that timed out is followed by another, a millisecond later; any other
/// failure ends the connection.
pub proof fn law_read_is_repeated_after_a_timeout(error: Error, r: ReadStep)
    requires
        call_ensures(on_read_failure, (error,), r),
    ensures
        r is Again <==> error.kind == ErrorKind::TimedOut,
        r matches ReadStep::Again(d) ==> d.nanos == 1_000_000,
        r matches ReadStep::Finish(e) ==> e == error,
{
}

/// A datagram is forwarded once it is complete, has its session, and has its place: what
/// is complete is handed to the session that it names, for its destination, unchanged. Only
/// a packet that does not fit its datagram is a failure.
pub proof fn law_complete_datagrams_are_forwarded(event: PacketEvent, r: PacketStep)
    requires
        call_ensures(handle_upstream_packet, (event,), r),
    ensures
        r is Forward <==> event == PacketEvent::Permit(true),
        r is AwaitPermit <==> (event matches PacketEvent::Session(Ok(_))),
        r is FindSession <==> (event matches PacketEvent::Assembled(Ok(Some(_)))),
        r matches PacketStep::FindSession(id, address, data) ==> event == PacketEvent::Assembled(
            Ok::<Option<(u64, Address, Bytes)>, Error>(Some((id, address, data))),
        ),
        r matches PacketStep::Finish(Err(e)) ==> event == PacketEvent::Assembled(
            Err::<Option<(u64, Address, Bytes)>, Error>(e),
        ),
        event matches PacketEvent::Assembled(Err(e)) ==> r == PacketStep::Finish(Err(e)),
{
}

/// A session is bound to any address of its destination's family.
pub proof fn law_session_is_bound_in_the_family(destination: &SocketAddr, s: &'static str)
    requires
        call_ensures(bind_addr, (destination,), s),
    ensures
        destination is V4 ==> s@ == seq!['0', '.', '0', '.', '0', '.', '0', ':', '0'],
        destination is V6 ==> s@ == seq!['[', ':', ':', ']', ':', '0'],
{
    reveal_strlit("0.0.0.0:0");
    reveal_strlit("[::]:0");
}

/// A datagram that could not be sent to the client in five seconds has timed out.
pub proof fn law_sending_times_out(e: Error, out: &mut String)
    requires
        call_ensures(send_timeout, (), e),
        old(out)@ == "send_datagram timeout after "@,
        call_ensures(push_seconds, (out, 5), ()),
    ensures
        e.kind == ErrorKind::TimedOut,
        e.message@ == final(out)@,
{
}

/// A socket that has not been tried to be bound has three tries.
pub proof fn law_new_socket_has_its_tries(
    new: BindRetry,
    first: &mut BindRetry,
    second: &mut BindRetry,
    third: &mut BindRetry,
    errors: (Error, Error, Error),
    steps: (BindStep, BindStep, BindStep),
)
    requires
        call_ensures(BindRetry::new, (), new),
        *old(first) == new,
        call_ensures(BindRetry::on_failure, (first, errors.0), steps.0),
        *old(second) == *final(first),
        call_ensures(BindRetry::on_failure, (second, errors.1), steps.1),
        *old(third) == *final(second),
        call_ensures(BindRetry::on_failure, (third, errors.2), steps.2),
    ensures
        steps.0 is RetryAfter,
        steps.1 is RetryAfter,
        steps.2 == BindStep::GiveUp(errors.2),
{
}

} // verus!
