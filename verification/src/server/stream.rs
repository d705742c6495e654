//! Streams of a client: each asks for a destination and is relayed to it.
use vstd::prelude::*;

use crate::address::SocketAddr;
use crate::error::{Error, ErrorKind};
use crate::text::{contains, is_substring, lowercase, to_lowercase};
use crate::tunnel::{Address, ConnectErrorKind, ServerConnectResponse, UpstreamMessage};

verus! {

/// How long connecting to a destination may take, in seconds.
pub const DEFAULT_CONNECT_TIMEOUT_SECS: u64 = 30;

/// Whether the words of a failure speak of name resolution.
pub open spec fn speaks_of_dns(message: Seq<char>) -> bool {
    let m = lowercase(message);
    is_substring(m, "dns"@) || is_substring(m, "resolve"@) || is_substring(m, "lookup"@)
}

/// What a failure to connect is called on the wire.
pub open spec fn classified(kind: ErrorKind, message: Seq<char>) -> ConnectErrorKind {
    match kind {
        ErrorKind::TimedOut => ConnectErrorKind::TimedOut,
        ErrorKind::ConnectionRefused => ConnectErrorKind::ConnectionRefused,
        ErrorKind::NetworkUnreachable => ConnectErrorKind::NetworkUnreachable,
        ErrorKind::HostUnreachable => ConnectErrorKind::HostUnreachable,
        ErrorKind::NotFound => if is_substring(message, "could not be resolved"@) {
            ConnectErrorKind::DnsResolutionFailed
        } else {
            ConnectErrorKind::Other
        },
        _ => if speaks_of_dns(message) {
            ConnectErrorKind::DnsResolutionFailed
        } else {
            ConnectErrorKind::Other
        },
    }
}

/// What a failure to connect is called on the wire.
pub fn classify_error(error: &Error) -> (k: ConnectErrorKind)
    ensures
        k == classified(error.kind, error.message@),
{
    match error.kind {
        ErrorKind::TimedOut => ConnectErrorKind::TimedOut,
        ErrorKind::ConnectionRefused => ConnectErrorKind::ConnectionRefused,
        ErrorKind::NetworkUnreachable => ConnectErrorKind::NetworkUnreachable,
        ErrorKind::HostUnreachable => ConnectErrorKind::HostUnreachable,
        ErrorKind::NotFound => {
            if contains(error.message.as_str(), "could not be resolved") {
                ConnectErrorKind::DnsResolutionFailed
            } else {
                ConnectErrorKind::Other
            }
        },
        _ => {
            let message = to_lowercase(error.message.as_str());
            if contains(message.as_str(), "dns") || contains(message.as_str(), "resolve")
                || contains(message.as_str(), "lookup") {
                ConnectErrorKind::DnsResolutionFailed
            } else {
                ConnectErrorKind::Other
            }
        },
    }
}

/// A kind of failure that has a name on the wire is reported to the application
/// behind the client as the same kind.
pub proof fn law_failure_kind_survives_the_tunnel(kind: ErrorKind, message: Seq<char>)
    requires
        kind is TimedOut || kind is ConnectionRefused || kind is NetworkUnreachable || kind
            is HostUnreachable,
    ensures
        classified(kind, message).io_kind() == kind,
{
}

/// What happened on a stream.
pub enum StreamEvent {
    /// The client's first message, or what kept it from being read or understood;
    /// `None` where the stream was closed first.
    Message(Option<Result<UpstreamMessage, Error>>),
    /// The destination that was asked for has an address, or has none.
    Resolved(Address, Result<SocketAddr, Error>),
    /// Connecting to the destination came to an end, or took too long (`None`).
    Connected(Option<Result<(), Error>>),
    /// The client was told, or could not be. So many bytes had arrived behind its
    /// message already.
    Answered(Result<u64, Error>),
    /// These bytes were handed to the destination, or were not.
    Forwarded(Result<(), Error>),
    /// The relay ended, after so many bytes in each direction.
    Relayed { up: u64, down: u64, result: Result<(), Error> },
}

/// What to do about it.
pub enum StreamStep {
    /// Find the address of this destination.
    Resolve(Address),
    /// Connect to this address, within the timeout.
    Connect(SocketAddr),
    /// Tell the client.
    Answer(ServerConnectResponse),
    /// Hand the bytes that arrived behind the message to the destination.
    Forward,
    /// Relay both ways.
    Relay,
    /// The stream is done.
    Finish(Result<(), Error>),
}

/// What is known of a stream, for its log entry and its next step.
pub struct StreamGuard {
    /// The destination, once it has an address.
    pub destination: Option<Address>,
    /// Why the destination could not be reached, until the client has been told.
    pub refused: Option<Error>,
    /// Why the stream ended, if not well.
    pub reason: Option<Error>,
    /// Bytes that the client sent before the relay began.
    pub initial_upstream_bytes: u64,
    /// Bytes that the relay moved, up and down.
    pub stats: Option<(u64, u64)>,
}

fn timed_out() -> (e: Error)
    ensures
        e.reads(ErrorKind::TimedOut, "Connection timeout"@),
{
    Error::new(ErrorKind::TimedOut, "Connection timeout")
}

/// Whether this answer tells the client of that failure.
pub open spec fn tells_of(step: StreamStep, kind: ErrorKind, message: Seq<char>) -> bool {
    step matches StreamStep::Answer(ServerConnectResponse::Failed { kind: k, message: m }) && k
        == classified(kind, message) && m@ == message
}

/// Whether this step and what is then known follow an event of a stream.
pub open spec fn stream_follows(
    before: StreamGuard,
    event: StreamEvent,
    r: StreamStep,
    after: StreamGuard,
) -> bool {
    match event {
        StreamEvent::Message(Some(Ok(UpstreamMessage::Connect(a)))) => {
            &&& r == StreamStep::Resolve(a)
            &&& after == before
        },
        StreamEvent::Message(Some(Ok(UpstreamMessage::Hello(_)))) => {
            &&& r matches StreamStep::Finish(Err(e)) && e.reads(
                ErrorKind::InvalidData,
                "expected connect message"@,
            )
            &&& after == before
        },
        StreamEvent::Message(None) => {
            &&& r matches StreamStep::Finish(Err(e)) && e.reads(
                ErrorKind::UnexpectedEof,
                "failed to read connect message on stream"@,
            )
            &&& after == before
        },
        StreamEvent::Resolved(a, Ok(addr)) => {
            &&& r == StreamStep::Connect(addr)
            &&& after == (StreamGuard { destination: Some(a), ..before })
        },
        StreamEvent::Connected(Some(Ok(()))) => {
            &&& r == StreamStep::Answer(ServerConnectResponse::Connected)
            &&& after == (StreamGuard { refused: None, ..before })
        },
        StreamEvent::Connected(Some(Err(e))) => {
            &&& tells_of(r, e.kind, e.message@)
            &&& after == (StreamGuard { refused: Some(e), ..before })
        },
        StreamEvent::Connected(None) => {
            &&& tells_of(r, ErrorKind::TimedOut, "Connection timeout"@)
            &&& after.refused matches Some(e) && e.reads(
                ErrorKind::TimedOut,
                "Connection timeout"@,
            )
            &&& after == (StreamGuard { refused: after.refused, ..before })
        },
        StreamEvent::Answered(Ok(pending)) => if before.refused is Some {
            &&& r matches StreamStep::Finish(Err(e)) && e.reads(
                ErrorKind::ConnectionRefused,
                "Failed to connect to destination"@,
            )
            &&& after == (StreamGuard { refused: None, reason: before.refused, ..before })
        } else {
            &&& r == if pending == 0 {
                StreamStep::Relay
            } else {
                StreamStep::Forward
            }
            &&& after == (StreamGuard {
                initial_upstream_bytes: pending,
                ..before
            })
        },
        StreamEvent::Forwarded(Ok(())) => r is Relay && after == before,
        StreamEvent::Relayed { up, down, result } => {
            &&& r == StreamStep::Finish(result)
            &&& after == (StreamGuard { stats: Some((up, down)), ..before })
        },
        StreamEvent::Message(Some(Err(e))) | StreamEvent::Resolved(_, Err(e))
        | StreamEvent::Answered(Err(e)) | StreamEvent::Forwarded(Err(e)) => r
            == StreamStep::Finish(Err(e)) && after == before,
    }
}

impl StreamGuard {
    /// Nothing is known yet.
    pub fn new() -> (r: StreamGuard)
        ensures
            r.destination is None,
            r.refused is None,
            r.reason is None,
            r.initial_upstream_bytes == 0,
            r.stats is None,
    {
        StreamGuard {
            destination: None,
            refused: None,
            reason: None,
            initial_upstream_bytes: 0,
            stats: None,
        }
    }

    fn refuse(&mut self, e: Error) -> (r: StreamStep)
        ensures
            tells_of(r, e.kind, e.message@),
            *final(self) == (StreamGuard { refused: Some(e), ..*old(self) }),
    {
        let kind = classify_error(&e);
        let message = e.message.clone();
        self.refused = Some(e);
        StreamStep::Answer(ServerConnectResponse::Failed { kind, message })
    }

    /// Takes one event of a stream: read where the client wants to go, find the
    /// address, connect, tell the client how that went, then relay. A failure to
    /// connect is told to the client before it ends the stream; any other failure
    /// ends it at once.
    pub fn handle_connect(&mut self, event: StreamEvent) -> (r: StreamStep)
        ensures
            stream_follows(*old(self), event, r, *final(self)),
    {
        match event {
            StreamEvent::Message(Some(Ok(UpstreamMessage::Connect(address)))) => {
                StreamStep::Resolve(address)
            },
            StreamEvent::Message(Some(Ok(UpstreamMessage::Hello(_)))) => StreamStep::Finish(
                Err(Error::new(ErrorKind::InvalidData, "expected connect message")),
            ),
            StreamEvent::Message(Some(Err(e))) => StreamStep::Finish(Err(e)),
            StreamEvent::Message(None) => StreamStep::Finish(
                Err(
                    Error::new(
                        ErrorKind::UnexpectedEof,
                        "failed to read connect message on stream",
                    ),
                ),
            ),
            StreamEvent::Resolved(address, Ok(addr)) => {
                self.destination = Some(address);
                StreamStep::Connect(addr)
            },
            StreamEvent::Resolved(_, Err(e)) => StreamStep::Finish(Err(e)),
            StreamEvent::Connected(Some(Ok(()))) => {
                self.refused = None;
                StreamStep::Answer(ServerConnectResponse::Connected)
            },
            StreamEvent::Connected(Some(Err(e))) => self.refuse(e),
            StreamEvent::Connected(None) => self.refuse(timed_out()),
            StreamEvent::Answered(Ok(pending)) => {
                if self.refused.is_some() {
                    self.reason = self.refused.take();
                    return StreamStep::Finish(
                        Err(
                            Error::new(
                                ErrorKind::ConnectionRefused,
                                "Failed to connect to destination",
                            ),
                        ),
                    );
                }
                self.initial_upstream_bytes = pending;
                if pending == 0 {
                    StreamStep::Relay
                } else {
                    StreamStep::Forward
                }
            },
            StreamEvent::Answered(Err(e)) => StreamStep::Finish(Err(e)),
            StreamEvent::Forwarded(Ok(())) => StreamStep::Relay,
            StreamEvent::Forwarded(Err(e)) => StreamStep::Finish(Err(e)),
            StreamEvent::Relayed { up, down, result } => {
                self.stats = Some((up, down));
                StreamStep::Finish(result)
            },
        }
    }

    /// Takes how the stream ended. A failure is the reason that is logged, whatever
    /// was known before.
    pub fn finish(&mut self, result: Result<(), Error>)
        ensures
            *final(self) == match result {
                Ok(_) => *old(self),
                Err(e) => StreamGuard { reason: Some(e), ..*old(self) },
            },
    {
        if let Err(e) = result {
            self.reason = Some(e);
        }
    }

    /// Bytes up and down, for the log.
    pub fn totals(&self) -> (r: (u64, u64))
        requires
            self.stats matches Some((up, _)) ==> up + self.initial_upstream_bytes <= u64::MAX,
        ensures
            r == match self.stats {
                Some((up, down)) => ((up + self.initial_upstream_bytes) as u64, down),
                None => (self.initial_upstream_bytes, 0u64),
            },
    {
        match self.stats {
            Some((up, down)) => (up + self.initial_upstream_bytes, down),
            None => (self.initial_upstream_bytes, 0),
        }
    }
}

/// Whether an event can be what came of a step.
pub open spec fn comes_of(step: StreamStep, event: StreamEvent) -> bool {
    match step {
        StreamStep::Resolve(a) => event matches StreamEvent::Resolved(b, _) && a == b,
        StreamStep::Connect(_) => event is Connected,
        StreamStep::Answer(_) => event is Answered,
        StreamStep::Forward => event is Forwarded,
        StreamStep::Relay => event is Relayed,
        StreamStep::Finish(_) => false,
    }
}

/// A stream from its beginning: its first message is read, and each further event
/// comes of the step before it. `known` is what is known before each event, and
/// at last.
pub open spec fn is_stream(
    known: Seq<StreamGuard>,
    events: Seq<StreamEvent>,
    steps: Seq<StreamStep>,
) -> bool {
    &&& events.len() == steps.len() > 0
    &&& known.len() == events.len() + 1
    &&& events[0] is Message
    &&& forall|i: int|
        0 <= i < events.len() ==> stream_follows(
            known[i],
            #[trigger] events[i],
            steps[i],
            known[i + 1],
        )
    &&& forall|i: int| 0 < i < events.len() ==> comes_of(steps[i - 1], #[trigger] events[i])
}

/// A stream is relayed only where the destination that its client asked for was
/// connected to and the client has been told so.
pub proof fn law_relay_needs_connection(
    known: Seq<StreamGuard>,
    events: Seq<StreamEvent>,
    steps: Seq<StreamStep>,
)
    requires
        is_stream(known, events, steps),
        steps.last() is Relay,
    ensures
        events[0] matches StreamEvent::Message(Some(Ok(UpstreamMessage::Connect(a)))) && steps[0]
            == StreamStep::Resolve(a),
        events[1] matches StreamEvent::Resolved(_, Ok(addr)) && steps[1] == StreamStep::Connect(
            addr,
        ),
        events[2] matches StreamEvent::Connected(Some(Ok(_))),
        steps[2] == StreamStep::Answer(ServerConnectResponse::Connected),
        events[3] matches StreamEvent::Answered(Ok(_)),
{
    let n = events.len() as int - 1;
    let m = if events[n] is Forwarded {
        assert(comes_of(steps[n - 1], events[n]));
        n - 1
    } else {
        n
    };
    assert(events[m] is Answered);
    assert(comes_of(steps[m - 1], events[m]));
    assert(events[m - 1] is Connected);
    assert(known[m].refused is None);
    assert(comes_of(steps[m - 2], events[m - 1]));
    assert(events[m - 2] is Resolved);
    assert(comes_of(steps[m - 3], events[m - 2]));
    assert(events[m - 3] is Message);
    if m - 3 > 0 {
        assert(comes_of(steps[m - 4], events[m - 3]));
    }
}

/// Why a stream ended, for the log.
pub fn disconnect_reason(reason: &Option<Error>) -> (s: String)
    ensures
        s@ == match reason {
            Some(e) => e.message@,
            None => "ok"@,
        },
{
    match reason {
        Some(e) => e.message.clone(),
        None => "ok".to_owned(),
    }
}

/// Each kind of failure that has a name on the wire is called by it; any other is a failed
/// name resolution where its words say so, and nameless where they do not.
pub proof fn law_failure_has_its_name(error: &Error, k: ConnectErrorKind)
    requires
        call_ensures(classify_error, (error,), k),
    ensures
        k == ConnectErrorKind::TimedOut <==> error.kind == ErrorKind::TimedOut,
        k == ConnectErrorKind::ConnectionRefused <==> error.kind == ErrorKind::ConnectionRefused,
        k == ConnectErrorKind::NetworkUnreachable <==> error.kind == ErrorKind::NetworkUnreachable,
        k == ConnectErrorKind::HostUnreachable <==> error.kind == ErrorKind::HostUnreachable,
        k == ConnectErrorKind::DnsResolutionFailed <==> {
            &&& error.kind != ErrorKind::TimedOut
            &&& error.kind != ErrorKind::ConnectionRefused
            &&& error.kind != ErrorKind::NetworkUnreachable
            &&& error.kind != ErrorKind::HostUnreachable
            &&& if error.kind == ErrorKind::NotFound {
                is_substring(error.message@, "could not be resolved"@)
            } else {
                ||| is_substring(lowercase(error.message@), "dns"@)
                ||| is_substring(lowercase(error.message@), "resolve"@)
                ||| is_substring(lowercase(error.message@), "lookup"@)
            }
        },
{
}

/// A client is told that it is connected exactly where connecting came to a good end.
pub proof fn law_connected_is_told_only_when_connected(
    guard: &mut StreamGuard,
    event: StreamEvent,
    r: StreamStep,
)
    requires
        call_ensures(StreamGuard::handle_connect, (guard, event), r),
    ensures
        (r matches StreamStep::Answer(ServerConnectResponse::Connected)) <==> (event
            matches StreamEvent::Connected(Some(Ok(_)))),
        r is Answer <==> event is Connected,
{
}

/// Whatever keeps a stream from being connected is told to the client: the kind by its name
/// on the wire, and the very words.
pub proof fn law_failure_to_connect_is_told(
    guard: &mut StreamGuard,
    e: Error,
    r: StreamStep,
    k: ConnectErrorKind,
)
    requires
        call_ensures(
            StreamGuard::handle_connect,
            (guard, StreamEvent::Connected(Some(Err::<(), Error>(e)))),
            r,
        ),
        call_ensures(classify_error, (&e,), k),
    ensures
        r matches StreamStep::Answer(ServerConnectResponse::Failed { kind, message }) && kind == k
            && message@ == e.message@ && (e.kind == ErrorKind::TimedOut <==> kind
            == ConnectErrorKind::TimedOut) && (e.kind == ErrorKind::ConnectionRefused <==> kind
            == ConnectErrorKind::ConnectionRefused) && (e.kind == ErrorKind::NetworkUnreachable
            <==> kind == ConnectErrorKind::NetworkUnreachable) && (e.kind
            == ErrorKind::HostUnreachable <==> kind == ConnectErrorKind::HostUnreachable),
        final(guard).refused == Some(e),
        final(guard).destination == old(guard).destination,
{
}

/// Where connecting takes too long, the client is told of a timeout.
pub proof fn law_timeout_is_told(guard: &mut StreamGuard, r: StreamStep)
    requires
        call_ensures(StreamGuard::handle_connect, (guard, StreamEvent::Connected(None)), r),
    ensures
        r matches StreamStep::Answer(ServerConnectResponse::Failed { kind, message }) && kind
            == ConnectErrorKind::TimedOut && message@ == "Connection timeout"@,
        final(guard).refused matches Some(e) && e.kind == ErrorKind::TimedOut && e.message@
            == "Connection timeout"@,
{
}

/// In every run of a stream the client is told that it is connected only after connecting
/// came to a good end, and a connection that failed is told as a failure: in its words,
/// and by the name of its kind.
pub proof fn law_answer_says_how_connecting_went(
    known: Seq<StreamGuard>,
    events: Seq<StreamEvent>,
    steps: Seq<StreamStep>,
    i: int,
)
    requires
        is_stream(known, events, steps),
        0 <= i < events.len(),
    ensures
        steps[i] == StreamStep::Answer(ServerConnectResponse::Connected) ==> {
            &&& i > 0
            &&& steps[i - 1] is Connect
            &&& events[i] matches StreamEvent::Connected(Some(Ok(_)))
        },
        events[i] matches StreamEvent::Connected(Some(Err(e))) ==> {
            &&& steps[i] matches StreamStep::Answer(
                ServerConnectResponse::Failed { kind, message },
            )
            &&& message@ == e.message@
            &&& e.kind == ErrorKind::TimedOut ==> kind == ConnectErrorKind::TimedOut
            &&& e.kind == ErrorKind::ConnectionRefused ==> kind
                == ConnectErrorKind::ConnectionRefused
            &&& e.kind == ErrorKind::NetworkUnreachable ==> kind
                == ConnectErrorKind::NetworkUnreachable
            &&& e.kind == ErrorKind::HostUnreachable ==> kind == ConnectErrorKind::HostUnreachable
        },
{
    if i > 0 {
        assert(comes_of(steps[i - 1], events[i]));
    }
    assert(stream_follows(known[i], events[i], steps[i], known[i + 1]));
}

/// A stream that was refused ends as soon as the client has been told, with what kept it
/// from being connected as the reason; every other one goes on to the relay, and what
/// arrived behind the message goes first and is counted.
pub proof fn law_told_client_is_relayed_or_dropped(
    guard: &mut StreamGuard,
    pending: u64,
    r: StreamStep,
)
    requires
        call_ensures(
            StreamGuard::handle_connect,
            (guard, StreamEvent::Answered(Ok::<u64, Error>(pending))),
            r,
        ),
    ensures
        old(guard).refused matches Some(why) ==> {
            &&& r matches StreamStep::Finish(Err(e))
            &&& e.kind == ErrorKind::ConnectionRefused
            &&& e.message@ == "Failed to connect to destination"@
            &&& final(guard).reason == Some(why)
        },
        old(guard).refused is None ==> {
            &&& pending == 0 <==> r is Relay
            &&& pending > 0 <==> r is Forward
            &&& final(guard).initial_upstream_bytes == pending
            &&& final(guard).reason == old(guard).reason
        },
        final(guard).refused is None,
        final(guard).destination == old(guard).destination,
        final(guard).stats == old(guard).stats,
{
}

/// A stream that asks for a destination is looked up, connected to the address that was
/// found, and relayed once its bytes were forwarded. What else its client says ends it.
pub proof fn law_stream_goes_where_it_was_asked_to(
    guard: &mut StreamGuard,
    event: StreamEvent,
    r: StreamStep,
)
    requires
        call_ensures(StreamGuard::handle_connect, (guard, event), r),
    ensures
        event matches StreamEvent::Message(Some(Ok(UpstreamMessage::Connect(a)))) ==> r
            == StreamStep::Resolve(a),
        event matches StreamEvent::Message(Some(Ok(UpstreamMessage::Hello(_)))) ==> (r
            matches StreamStep::Finish(Err(e)) && e.kind == ErrorKind::InvalidData && e.message@
            == "expected connect message"@),
        event == StreamEvent::Message(None) ==> (r matches StreamStep::Finish(Err(e)) && e.kind
            == ErrorKind::UnexpectedEof && e.message@
            == "failed to read connect message on stream"@),
        event matches StreamEvent::Resolved(a, Ok(addr)) ==> r == StreamStep::Connect(addr)
            && final(guard).destination == Some(a),
        event matches StreamEvent::Forwarded(Ok(_)) ==> r is Relay,
        event matches StreamEvent::Message(Some(Err(e))) ==> r == StreamStep::Finish(Err(e)),
        event matches StreamEvent::Resolved(_, Err(e)) ==> r == StreamStep::Finish(Err(e)),
        event matches StreamEvent::Answered(Err(e)) ==> r == StreamStep::Finish(Err(e)),
        event matches StreamEvent::Forwarded(Err(e)) ==> r == StreamStep::Finish(Err(e)),
        !(event is Resolved) ==> final(guard).destination == old(guard).destination,
        !(event is Answered) ==> final(guard).reason == old(guard).reason && final(guard).initial_upstream_bytes == old(guard).initial_upstream_bytes,
        !(event is Relayed) ==> final(guard).stats == old(guard).stats,
{
}

/// What the log says of a stream are all the bytes that it carried: those that came
/// before the relay, and those that the relay moved.
pub proof fn law_log_counts_every_byte(
    guard: &mut StreamGuard,
    up: u64,
    down: u64,
    result: Result<(), Error>,
    r: StreamStep,
    totals: (u64, u64),
)
    requires
        call_ensures(
            StreamGuard::handle_connect,
            (guard, StreamEvent::Relayed { up, down, result }),
            r,
        ),
        up + old(guard).initial_upstream_bytes <= u64::MAX,
        call_ensures(StreamGuard::totals, (final(guard),), totals),
    ensures
        r == StreamStep::Finish(result),
        totals.0 == old(guard).initial_upstream_bytes + up,
        totals.1 == down,
{
}

/// A stream that failed is logged with the words of what it failed on, and one that did
/// not as well ended.
pub proof fn law_log_says_why(guard: &mut StreamGuard, result: Result<(), Error>, s: String)
    requires
        call_ensures(StreamGuard::finish, (guard, result), ()),
        call_ensures(disconnect_reason, (&final(guard).reason,), s),
    ensures
        result matches Err(e) ==> s@ == e.message@,
        result is Ok ==> final(guard).reason == old(guard).reason,
        result is Ok && old(guard).reason is None ==> s@ == seq!['o', 'k'],
{
    reveal_strlit("ok");
    assert("ok"@ =~= seq!['o', 'k']);
}

/// A stream of which nothing is known has carried nothing, and has no reason to have ended.
pub proof fn law_new_stream_has_carried_nothing(guard: StreamGuard, totals: (u64, u64), s: String)
    requires
        call_ensures(StreamGuard::new, (), guard),
        call_ensures(StreamGuard::totals, (&guard,), totals),
        call_ensures(disconnect_reason, (&guard.reason,), s),
    ensures
        totals.0 == 0,
        totals.1 == 0,
        s@ == "ok"@,
        guard.destination is None,
        guard.refused is None,
{
}

/// Before the relay has ended, the log counts what came before it.
pub proof fn law_unrelayed_stream_counts_its_first_bytes(guard: &StreamGuard, totals: (u64, u64))
    requires
        guard.stats is None,
        call_ensures(StreamGuard::totals, (guard,), totals),
    ensures
        totals.0 == guard.initial_upstream_bytes,
        totals.1 == 0,
{
}

/// In every run of a stream a connection that failed is told to the client by the name that
/// its failure has, whatever that is, and in its words; then the stream ends.
pub proof fn law_failed_run_is_told_and_ends(
    known: Seq<StreamGuard>,
    events: Seq<StreamEvent>,
    steps: Seq<StreamStep>,
    i: int,
    e: Error,
    k: ConnectErrorKind,
)
    requires
        is_stream(known, events, steps),
        0 <= i < events.len(),
        events[i] == StreamEvent::Connected(Some(Err::<(), Error>(e))),
        call_ensures(classify_error, (&e,), k),
    ensures
        steps[i] matches StreamStep::Answer(ServerConnectResponse::Failed { kind, message }) && kind
            == k && message@ == e.message@,
        i + 1 < events.len() ==> steps[i + 1] matches StreamStep::Finish(Err(_)),
        events.len() <= i + 2,
{
    assert(stream_follows(known[i], events[i], steps[i], known[i + 1]));
    if i + 1 < events.len() {
        assert(comes_of(steps[i], events[i + 1]));
        assert(stream_follows(known[i + 1], events[i + 1], steps[i + 1], known[i + 2]));
        if i + 2 < events.len() {
            assert(comes_of(steps[i + 1], events[i + 2]));
        }
    }
}

} // verus!
