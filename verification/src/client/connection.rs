//! The connection to the server: the handshake, streams to destinations, and
//! when to connect again.
use bytes::Bytes;
use vstd::prelude::*;

use crate::error::{Error, ErrorKind};
use crate::text::{
    decimal_text, is_numeral, lemma_digits_read_back, number_of, push_decimal,
};
use crate::time::{Duration, NANOS_PER_SEC};
use crate::tunnel::{
    Address, ClientHello, ConnectErrorKind, DownstreamMessage, HandshakeError, Secret, ServerConnectResponse,
    ServerHandshakeResponse, UpstreamMessage,
};

verus! {

/// Timeout for the initial handshake with the server, in seconds.
pub const HANDSHAKE_TIMEOUT_SECS: u64 = 10;

/// Maximum size of a response message: 8 MiB.
pub const MAX_RESPONSE_MESSAGE_SIZE: u32 = 8 * 1024 * 1024;

/// Shortest time between two attempts to connect again, in seconds.
pub const INITIAL_RECONNECT_BACKOFF_SECS: u64 = 1;

/// Longest time between two attempts to connect again, in seconds.
pub const MAX_RECONNECT_BACKOFF_SECS: u64 = 60;

/// Twice the pause, up to a minute.
pub open spec fn next_backoff(nanos: int) -> int {
    if nanos * 2 < 60 * NANOS_PER_SEC {
        nanos * 2
    } else {
        60 * NANOS_PER_SEC
    }
}

/// When the last attempt to connect again was made, how long to wait after it, and
/// the number of the connection that is in use. Instants are lengths of time since
/// some fixed moment.
#[derive(Clone, Copy, Debug)]
pub struct ReconnectState {
    pub last_attempt: Option<Duration>,
    pub backoff: Duration,
    pub current: u64,
}

/// What happened to an attempt to connect again.
pub enum ReconnectEvent {
    /// The connection with this number was lost. Somebody else may have replaced it
    /// meanwhile.
    Lost { connection: u64, now: Duration },
    /// The transport was bound to a new socket, or was not.
    Rebound(Result<(), Error>),
    /// The handshake over the new socket came to an end.
    Shaken(Result<(), Error>),
}

/// What to do about it.
pub enum ReconnectAction {
    /// The attempt is over; after a successful handshake the new connection takes the
    /// place of the old one, under the number that is then the current one.
    Finish(Result<(), Error>),
    /// Wait, then the attempt is over with this failure.
    WaitThenFail(Duration, Error),
    /// Bind the transport to a new socket.
    Rebind,
    /// Perform the handshake.
    Handshake,
}

/// The number of the connection that comes after the one with this number. After the
/// last number they start over.
pub open spec fn next_connection(n: u64) -> u64 {
    if n == u64::MAX {
        0
    } else {
        (n + 1) as u64
    }
}

/// Whether an event of an attempt to connect again asks for `r` and leaves `after`. A
/// connection that was replaced already needs no attempt, and an attempt that comes
/// too soon is not made. A failed attempt doubles the pause; a successful one replaces
/// the connection and starts over.
pub open spec fn reconnect_follows(
    before: ReconnectState,
    event: ReconnectEvent,
    r: ReconnectAction,
    after: ReconnectState,
) -> bool {
    match event {
        ReconnectEvent::Lost { connection, now } => if connection != before.current {
            (r matches ReconnectAction::Finish(Ok(_))) && after == before
        } else if before.throttled(now) {
            &&& after == before
            &&& r matches ReconnectAction::WaitThenFail(wait, e) && wait.nanos
                == before.backoff.nanos - before.elapsed(now) && e.reads(
                ErrorKind::Other,
                "reconnect throttled"@,
            )
        } else {
            &&& r is Rebind
            &&& after == (ReconnectState { last_attempt: Some(now), ..before })
        },
        ReconnectEvent::Rebound(Ok(_)) => r is Handshake && after == before,
        ReconnectEvent::Shaken(Ok(_)) => {
            &&& r matches ReconnectAction::Finish(Ok(_))
            &&& after.last_attempt is None
            &&& after.backoff.nanos == NANOS_PER_SEC
            &&& after.current == next_connection(before.current)
        },
        ReconnectEvent::Rebound(Err(e)) | ReconnectEvent::Shaken(Err(e)) => {
            &&& r == ReconnectAction::Finish(Err(e))
            &&& after.last_attempt == before.last_attempt
            &&& after.backoff.nanos == next_backoff(before.backoff.nanos as int)
            &&& after.current == before.current
        },
    }
}

impl ReconnectState {
    /// The pause is between a second and a minute.
    pub open spec fn wf(&self) -> bool {
        NANOS_PER_SEC <= self.backoff.nanos <= 60 * NANOS_PER_SEC
    }

    /// How long ago the last attempt was.
    pub open spec fn elapsed(&self, now: Duration) -> int {
        match self.last_attempt {
            Some(last) if last.nanos <= now.nanos => now.nanos - last.nanos,
            _ => 0,
        }
    }

    /// Whether the last attempt is too recent.
    pub open spec fn throttled(&self, now: Duration) -> bool {
        self.last_attempt is Some && self.elapsed(now) < self.backoff.nanos
    }

    /// No attempt yet.
    pub fn new() -> (r: ReconnectState)
        ensures
            r.wf(),
            r.last_attempt is None,
            r.backoff.nanos == NANOS_PER_SEC,
            r.current == 0,
    {
        ReconnectState {
            last_attempt: None,
            backoff: Duration::from_secs(INITIAL_RECONNECT_BACKOFF_SECS),
            current: 0,
        }
    }

    fn back_off(&mut self)
        requires
            old(self).wf(),
        ensures
            final(self).wf(),
            final(self).last_attempt == old(self).last_attempt,
            final(self).current == old(self).current,
            final(self).backoff.nanos == next_backoff(old(self).backoff.nanos as int),
    {
        self.backoff = self.backoff.doubled().min(Duration::from_secs(MAX_RECONNECT_BACKOFF_SECS));
    }

    /// Takes one event of an attempt to connect again.
    pub fn reconnect(&mut self, event: ReconnectEvent) -> (r: ReconnectAction)
        requires
            old(self).wf(),
        ensures
            final(self).wf(),
            reconnect_follows(*old(self), event, r, *final(self)),
    {
        match event {
            ReconnectEvent::Lost { connection, now } => {
                if connection != self.current {
                    return ReconnectAction::Finish(Ok(()));
                }
                if let Some(last) = self.last_attempt {
                    let elapsed: u128 = now.nanos.saturating_sub(last.nanos);
                    if elapsed < self.backoff.nanos {
                        let wait = Duration { nanos: self.backoff.nanos - elapsed };
                        return ReconnectAction::WaitThenFail(
                            wait,
                            Error::new(ErrorKind::Other, "reconnect throttled"),
                        );
                    }
                }
                self.last_attempt = Some(now);
                ReconnectAction::Rebind
            },
            ReconnectEvent::Rebound(Ok(())) => ReconnectAction::Handshake,
            ReconnectEvent::Rebound(Err(e)) => {
                self.back_off();
                ReconnectAction::Finish(Err(e))
            },
            ReconnectEvent::Shaken(Ok(())) => {
                self.backoff = Duration::from_secs(INITIAL_RECONNECT_BACKOFF_SECS);
                self.last_attempt = None;
                self.current = self.current.wrapping_add(1);
                ReconnectAction::Finish(Ok(()))
            },
            ReconnectEvent::Shaken(Err(e)) => {
                self.back_off();
                ReconnectAction::Finish(Err(e))
            },
        }
    }
}

impl Default for ReconnectState {
    fn default() -> (r: ReconnectState)
        ensures
            r.wf(),
            r.last_attempt is None,
            r.backoff.nanos == NANOS_PER_SEC,
            r.current == 0,
    {
        ReconnectState::new()
    }
}

/// The pause after `failures` attempts in a row have failed.
pub open spec fn backoff_after(failures: nat) -> int
    decreases failures,
{
    if failures == 0 {
        NANOS_PER_SEC as int
    } else {
        next_backoff(backoff_after((failures - 1) as nat))
    }
}

/// However many attempts have failed, the pause is at least a second and at most
/// a minute, and it is a minute from the sixth failure on.
pub proof fn law_backoff_is_bounded(failures: nat)
    ensures
        NANOS_PER_SEC <= backoff_after(failures) <= 60 * NANOS_PER_SEC,
        failures >= 6 ==> backoff_after(failures) == 60 * NANOS_PER_SEC,
    decreases failures,
{
    if failures > 0 {
        law_backoff_is_bounded((failures - 1) as nat);
    }
    if failures == 6 {
        reveal_with_fuel(backoff_after, 8);
        assert(backoff_after(6) == 60 * NANOS_PER_SEC);
    }
}

/// The pause never shrinks while attempts keep failing.
pub proof fn law_backoff_grows(failures: nat)
    ensures
        backoff_after(failures) <= backoff_after(failures + 1),
{
    law_backoff_is_bounded(failures);
}

/// Whether an event can be what came of an action. After the end of an attempt a
/// connection is lost again.
pub open spec fn reconnect_goes_on(action: ReconnectAction, event: ReconnectEvent) -> bool {
    match action {
        ReconnectAction::Rebind => event is Rebound,
        ReconnectAction::Handshake => event is Shaken,
        ReconnectAction::Finish(_) | ReconnectAction::WaitThenFail(..) => event is Lost,
    }
}

/// Attempts to connect again, one after the other, from the beginning: `states` is
/// the state before each event, and at last.
pub open spec fn is_reconnect_run(
    states: Seq<ReconnectState>,
    events: Seq<ReconnectEvent>,
    actions: Seq<ReconnectAction>,
) -> bool {
    &&& events.len() == actions.len()
    &&& states.len() == events.len() + 1
    &&& states[0].last_attempt is None
    &&& states[0].backoff.nanos == NANOS_PER_SEC
    &&& events.len() > 0 ==> events[0] is Lost
    &&& forall|i: int|
        0 <= i < events.len() ==> reconnect_follows(
            states[i],
            #[trigger] events[i],
            actions[i],
            states[i + 1],
        )
    &&& forall|i: int|
        0 < i < events.len() ==> reconnect_goes_on(actions[i - 1], #[trigger] events[i])
}

/// How many attempts in a row have failed after the first `n` events.
pub open spec fn failures(events: Seq<ReconnectEvent>, n: nat) -> nat
    decreases n,
{
    if n == 0 {
        0
    } else {
        match events[n - 1] {
            ReconnectEvent::Shaken(Ok(_)) => 0,
            ReconnectEvent::Rebound(Err(_)) | ReconnectEvent::Shaken(Err(_)) => 1 + failures(
                events,
                (n - 1) as nat,
            ),
            _ => failures(events, (n - 1) as nat),
        }
    }
}

/// At any time the pause is the one for the attempts in a row that have failed: a
/// second before any has, twice as long after each, up to a minute, and a second
/// again after a success.
pub proof fn law_pause_follows_failures(
    states: Seq<ReconnectState>,
    events: Seq<ReconnectEvent>,
    actions: Seq<ReconnectAction>,
    n: nat,
)
    requires
        is_reconnect_run(states, events, actions),
        n <= events.len(),
    ensures
        states[n as int].backoff.nanos == backoff_after(failures(events, n)),
    decreases n,
{
    if n > 0 {
        law_pause_follows_failures(states, events, actions, (n - 1) as nat);
        assert(reconnect_follows(states[n - 1], events[n - 1], actions[n - 1], states[n as int]));
    }
}

/// Whether an attempt ends with this action.
pub open spec fn ends_attempt(action: ReconnectAction) -> bool {
    action is Finish || action is WaitThenFail
}

/// A call that begins with the loss of a connection and ends with `actions[j]` takes
/// at most two events more. If it ends well, the connection in use is not the lost
/// one; if it fails, it leaves the connection in use as it was. Where the connection
/// was replaced already, and where the last attempt is too recent, the transport is
/// not called.
pub proof fn law_reconnect_replaces_the_lost(
    states: Seq<ReconnectState>,
    events: Seq<ReconnectEvent>,
    actions: Seq<ReconnectAction>,
    i: int,
    j: int,
    lost: u64,
    now: Duration,
)
    requires
        is_reconnect_run(states, events, actions),
        0 <= i <= j < events.len(),
        events[i] == (ReconnectEvent::Lost { connection: lost, now }),
        forall|k: int| i <= k < j ==> !ends_attempt(#[trigger] actions[k]),
        ends_attempt(actions[j]),
    ensures
        j <= i + 2,
        match actions[j] {
            ReconnectAction::Finish(Ok(_)) => states[j + 1].current != lost,
            _ => states[j + 1].current == states[i].current,
        },
        states[i].current != lost ==> j == i && (actions[j] matches ReconnectAction::Finish(Ok(_))),
        states[i].current == lost && states[i].throttled(now) ==> j == i && actions[j]
            is WaitThenFail,
{
    assert(reconnect_follows(states[i], events[i], actions[i], states[i + 1]));
    if j > i {
        assert(!ends_attempt(actions[i]));
        assert(reconnect_goes_on(actions[i], events[i + 1]));
        assert(reconnect_follows(states[i + 1], events[i + 1], actions[i + 1], states[i + 2]));
        if j > i + 1 {
            assert(!ends_attempt(actions[i + 1]));
            assert(reconnect_goes_on(actions[i + 1], events[i + 2]));
            assert(reconnect_follows(states[i + 2], events[i + 2], actions[i + 2], states[i + 3]));
        }
    }
}

proof fn lemma_last_attempt(
    states: Seq<ReconnectState>,
    events: Seq<ReconnectEvent>,
    actions: Seq<ReconnectAction>,
    i: int,
    n: int,
)
    requires
        is_reconnect_run(states, events, actions),
        0 <= i < n <= events.len(),
        actions[i] is Rebind,
        forall|k: int| i < k < n ==> !(#[trigger] actions[k] is Rebind),
        forall|k: int| i < k < n ==> !(#[trigger] events[k] matches ReconnectEvent::Shaken(Ok(_))),
    ensures
        events[i] matches ReconnectEvent::Lost { now, .. } && states[n].last_attempt == Some(now),
    decreases n,
{
    assert(reconnect_follows(states[n - 1], events[n - 1], actions[n - 1], states[n]));
    if n - 1 > i {
        lemma_last_attempt(states, events, actions, i, n - 1);
        assert(!(actions[n - 1] is Rebind));
    }
}

/// Between two attempts one after the other, without a success between them, there
/// is at least the pause for the attempts in a row that have failed.
pub proof fn law_attempts_are_apart(
    states: Seq<ReconnectState>,
    events: Seq<ReconnectEvent>,
    actions: Seq<ReconnectAction>,
    i: int,
    j: int,
)
    requires
        is_reconnect_run(states, events, actions),
        0 <= i < j < events.len(),
        actions[i] is Rebind,
        actions[j] is Rebind,
        forall|k: int| i < k < j ==> !(#[trigger] actions[k] is Rebind),
        forall|k: int| i < k < j ==> !(#[trigger] events[k] matches ReconnectEvent::Shaken(Ok(_))),
    ensures
        events[i] matches ReconnectEvent::Lost { now: first, .. }
            && events[j] matches ReconnectEvent::Lost { now: second, .. } && second.nanos
            >= first.nanos + backoff_after(failures(events, j as nat)),
{
    lemma_last_attempt(states, events, actions, i, j);
    law_pause_follows_failures(states, events, actions, j as nat);
    law_backoff_is_bounded(failures(events, j as nat));
    assert(reconnect_follows(states[j], events[j], actions[j], states[j + 1]));
}

/// Whether a failure means that the connection is lost.
pub open spec fn lost_connection(kind: ErrorKind) -> bool {
    ||| kind is ConnectionReset
    ||| kind is BrokenPipe
    ||| kind is NotConnected
    ||| kind is TimedOut
    ||| kind is UnexpectedEof
    ||| kind is NetworkUnreachable
}

/// Whether a failure means that the connection is lost.
pub fn is_connection_error(e: &Error) -> (r: bool)
    ensures
        r == lost_connection(e.kind),
{
    match e.kind {
        ErrorKind::ConnectionReset
        | ErrorKind::BrokenPipe
        | ErrorKind::NotConnected
        | ErrorKind::TimedOut
        | ErrorKind::UnexpectedEof
        | ErrorKind::NetworkUnreachable => true,
        _ => false,
    }
}

/// An operation that is tried again once, on a new connection.
#[derive(Clone, Copy, Debug, PartialEq, Eq, Structural)]
pub struct Retry {
    pub retried: bool,
}

/// What follows.
#[derive(Clone, Copy, Debug, PartialEq, Eq, Structural)]
pub enum RetryStep {
    /// What was told last is the outcome of it all.
    Finish,
    /// Connect again.
    Reconnect,
    /// Try the operation.
    Again,
}

/// What was told of an operation: the kind of failure, if it was one.
pub enum RetryEvent {
    /// The operation was tried.
    Tried(Option<ErrorKind>),
    /// Connecting again came to an end.
    Reconnected(Option<ErrorKind>),
}

/// The kind of a failure, if there is one.
pub open spec fn failure_kind(failure: Option<&Error>) -> Option<ErrorKind> {
    match failure {
        Some(e) => Some(e.kind),
        None => None,
    }
}

/// Whether an event asks for `r` and leaves `after`. A lost connection is replaced
/// once; a failure to replace it stands, and the operation is not tried again then.
pub open spec fn retry_follows(before: Retry, event: RetryEvent, r: RetryStep, after: Retry) -> bool {
    match event {
        RetryEvent::Tried(failure) => if !before.retried && (failure matches Some(kind)
            && lost_connection(kind)) {
            r == RetryStep::Reconnect && after.retried
        } else {
            r == RetryStep::Finish && after == before
        },
        RetryEvent::Reconnected(failure) => {
            &&& r == if failure is Some {
                RetryStep::Finish
            } else {
                RetryStep::Again
            }
            &&& after == before
        },
    }
}

impl Retry {
    /// Before the first try.
    pub fn new() -> (r: Retry)
        ensures
            !r.retried,
    {
        Retry { retried: false }
    }

    /// Takes the outcome of a try.
    pub fn with_retry(&mut self, failure: Option<&Error>) -> (r: RetryStep)
        ensures
            retry_follows(*old(self), RetryEvent::Tried(failure_kind(failure)), r, *final(self)),
    {
        match failure {
            Some(e) => {
                if !self.retried && is_connection_error(e) {
                    self.retried = true;
                    RetryStep::Reconnect
                } else {
                    RetryStep::Finish
                }
            },
            None => RetryStep::Finish,
        }
    }

    /// Takes the outcome of connecting again. A failure is the outcome of it all.
    pub fn reconnected(&mut self, failure: Option<&Error>) -> (r: RetryStep)
        ensures
            retry_follows(
                *old(self),
                RetryEvent::Reconnected(failure_kind(failure)),
                r,
                *final(self),
            ),
    {
        match failure {
            Some(_) => RetryStep::Finish,
            None => RetryStep::Again,
        }
    }
}

/// An operation from its first try on: `states` is the state before each event, and at
/// last, and each further event comes of the step before it.
pub open spec fn is_retry_run(
    states: Seq<Retry>,
    events: Seq<RetryEvent>,
    steps: Seq<RetryStep>,
) -> bool {
    &&& events.len() == steps.len() > 0
    &&& states.len() == events.len() + 1
    &&& !states[0].retried
    &&& events[0] is Tried
    &&& forall|i: int|
        0 <= i < events.len() ==> retry_follows(
            states[i],
            #[trigger] events[i],
            steps[i],
            states[i + 1],
        )
    &&& forall|i: int|
        0 < i < events.len() ==> match steps[i - 1] {
            RetryStep::Finish => false,
            RetryStep::Reconnect => #[trigger] events[i] is Reconnected,
            RetryStep::Again => events[i] is Tried,
        }
}

/// An operation is tried at most twice. The second try comes only after the first lost
/// its connection and a new one was made; where none could be made, that failure ends
/// it without a second try.
pub proof fn law_operation_is_retried_once(
    states: Seq<Retry>,
    events: Seq<RetryEvent>,
    steps: Seq<RetryStep>,
)
    requires
        is_retry_run(states, events, steps),
    ensures
        events.len() <= 3,
        events.len() > 1 ==> (events[0] matches RetryEvent::Tried(Some(kind)) && lost_connection(
            kind,
        )) && events[1] is Reconnected,
        events.len() == 3 ==> events[1] == RetryEvent::Reconnected(None) && events[2] is Tried
            && steps[2] is Finish,
{
    assert(retry_follows(states[0], events[0], steps[0], states[1]));
    if events.len() > 1 {
        assert(events[1] is Reconnected);
        assert(retry_follows(states[1], events[1], steps[1], states[2]));
        if events.len() > 2 {
            assert(events[2] is Tried || events[2] is Reconnected);
            assert(retry_follows(states[2], events[2], steps[2], states[3]));
            if events.len() > 3 {
                assert(events[3] is Tried || events[3] is Reconnected);
            }
        }
    }
}

/// Where a handshake stands.
pub enum HandshakeEvent {
    /// The transport connected, or did not.
    Connected(Result<(), Error>),
    /// The control stream was opened, or was not.
    Opened(Result<(), Error>),
    /// The hello was encoded and sent, or was not.
    Sent(Result<(), Error>),
    /// The server's answer arrived, or could not be read or understood, or the
    /// server closed the stream (`None`).
    Answered(Option<Result<ServerHandshakeResponse, Error>>),
    /// The control stream was shut down, or was not.
    ShutDown(Result<(), Error>),
    /// The time for the handshake is up.
    TimedOut,
}

/// What a handshake does next.
pub enum HandshakeStep {
    /// Open the control stream.
    OpenStream,
    /// Encode and send this message.
    Send(UpstreamMessage),
    /// Wait for the server's answer.
    AwaitAnswer,
    /// Shut the control stream down.
    ShutDown,
    /// The handshake is over, successfully or not.
    Finish(Result<(), Error>),
}

/// The name of a server's reason.
pub open spec fn reason_text(e: HandshakeError) -> Seq<char> {
    match e {
        HandshakeError::InvalidSecret => "InvalidSecret"@,
        HandshakeError::Other(name) => name@,
    }
}

/// The failure that a server's reason turns into: a wrong secret is a matter of
/// permission, anything else of invalid data.
pub open spec fn is_rejection(e: Error, reason: HandshakeError) -> bool {
    e.reads(
        if reason is InvalidSecret {
            ErrorKind::PermissionDenied
        } else {
            ErrorKind::InvalidData
        },
        "server rejected handshake: "@ + reason_text(reason),
    )
}

fn rejection(reason: HandshakeError) -> (e: Error)
    ensures
        is_rejection(e, reason),
{
    let mut message = "server rejected handshake: ".to_owned();
    match reason {
        HandshakeError::InvalidSecret => {
            message.append("InvalidSecret");
            Error::with_message(ErrorKind::PermissionDenied, message)
        },
        HandshakeError::Other(name) => {
            message.append(name.as_str());
            Error::with_message(ErrorKind::InvalidData, message)
        },
    }
}

/// Whether this is the step that follows an event of a handshake.
pub open spec fn handshake_follows(
    event: HandshakeEvent,
    r: HandshakeStep,
    version: u8,
    secret: Secret,
    options: Bytes,
) -> bool {
    match event {
        HandshakeEvent::Connected(Ok(())) => r is OpenStream,
        HandshakeEvent::Opened(Ok(())) => r == HandshakeStep::Send(
            UpstreamMessage::Hello(ClientHello { version, secret, options }),
        ),
        HandshakeEvent::Sent(Ok(())) => r is AwaitAnswer,
        HandshakeEvent::Answered(Some(Ok(ServerHandshakeResponse::Accepted))) => r is ShutDown,
        HandshakeEvent::Answered(Some(Ok(ServerHandshakeResponse::Rejected(reason)))) => r matches
            HandshakeStep::Finish(Err(e)) && is_rejection(e, reason),
        HandshakeEvent::Answered(None) => r matches HandshakeStep::Finish(Err(e)) && e.reads(
            ErrorKind::UnexpectedEof,
            "Connection closed by server during handshake"@,
        ),
        HandshakeEvent::ShutDown(Ok(())) => r == HandshakeStep::Finish(Ok(())),
        HandshakeEvent::TimedOut => r matches HandshakeStep::Finish(Err(e)) && e.reads(
            ErrorKind::TimedOut,
            "client hello timed out"@,
        ),
        HandshakeEvent::Connected(Err(e)) | HandshakeEvent::Opened(Err(e))
        | HandshakeEvent::Sent(Err(e)) | HandshakeEvent::Answered(Some(Err(e)))
        | HandshakeEvent::ShutDown(Err(e)) => r == HandshakeStep::Finish(Err(e)),
    }
}

/// Takes one event of the handshake with the server: connect, open the control
/// stream, say hello, have it answered, shut the stream down. The first failure
/// ends it.
pub fn handshake(event: HandshakeEvent, version: u8, secret: Secret, options: Bytes) -> (r:
    HandshakeStep)
    ensures
        handshake_follows(event, r, version, secret, options),
{
    match event {
        HandshakeEvent::Connected(Ok(())) => HandshakeStep::OpenStream,
        HandshakeEvent::Connected(Err(e)) => HandshakeStep::Finish(Err(e)),
        HandshakeEvent::Opened(Ok(())) => HandshakeStep::Send(
            UpstreamMessage::Hello(ClientHello { version, secret, options }),
        ),
        HandshakeEvent::Opened(Err(e)) => HandshakeStep::Finish(Err(e)),
        HandshakeEvent::Sent(Ok(())) => HandshakeStep::AwaitAnswer,
        HandshakeEvent::Sent(Err(e)) => HandshakeStep::Finish(Err(e)),
        HandshakeEvent::Answered(Some(Ok(ServerHandshakeResponse::Accepted))) => HandshakeStep::ShutDown,
        HandshakeEvent::Answered(Some(Ok(ServerHandshakeResponse::Rejected(reason)))) => {
            HandshakeStep::Finish(Err(rejection(reason)))
        },
        HandshakeEvent::Answered(Some(Err(e))) => HandshakeStep::Finish(Err(e)),
        HandshakeEvent::Answered(None) => HandshakeStep::Finish(
            Err(
                Error::new(
                    ErrorKind::UnexpectedEof,
                    "Connection closed by server during handshake",
                ),
            ),
        ),
        HandshakeEvent::ShutDown(Ok(())) => HandshakeStep::Finish(Ok(())),
        HandshakeEvent::ShutDown(Err(e)) => HandshakeStep::Finish(Err(e)),
        HandshakeEvent::TimedOut => HandshakeStep::Finish(
            Err(Error::new(ErrorKind::TimedOut, "client hello timed out")),
        ),
    }
}

/// Whether an event can be what came of a step.
pub open spec fn comes_of(step: HandshakeStep, event: HandshakeEvent) -> bool {
    match step {
        HandshakeStep::OpenStream => event is Opened || event is TimedOut,
        HandshakeStep::Send(_) => event is Sent || event is TimedOut,
        HandshakeStep::AwaitAnswer => event is Answered || event is TimedOut,
        HandshakeStep::ShutDown => event is ShutDown || event is TimedOut,
        HandshakeStep::Finish(_) => false,
    }
}

/// A handshake from its beginning: it connects, and each further event comes of
/// the step before it.
pub open spec fn is_handshake(
    events: Seq<HandshakeEvent>,
    steps: Seq<HandshakeStep>,
    version: u8,
    secret: Secret,
    options: Bytes,
) -> bool {
    &&& events.len() == steps.len() > 0
    &&& events[0] is Connected || events[0] is TimedOut
    &&& forall|i: int|
        0 <= i < events.len() ==> handshake_follows(
            #[trigger] events[i],
            steps[i],
            version,
            secret,
            options,
        )
    &&& forall|i: int| 0 < i < events.len() ==> comes_of(steps[i - 1], #[trigger] events[i])
}

/// A handshake succeeds only where the server has accepted a hello that carries
/// the client's version and secret.
pub proof fn law_handshake_needs_acceptance(
    events: Seq<HandshakeEvent>,
    steps: Seq<HandshakeStep>,
    version: u8,
    secret: Secret,
    options: Bytes,
)
    requires
        is_handshake(events, steps, version, secret, options),
        steps.last() == HandshakeStep::Finish(Ok(())),
    ensures
        events.len() == 5,
        steps[1] == HandshakeStep::Send(
            UpstreamMessage::Hello(ClientHello { version, secret, options }),
        ),
        events[3] == HandshakeEvent::Answered(Some(Ok(ServerHandshakeResponse::Accepted))),
{
    let n = events.len() as int - 1;
    assert(events[n] is ShutDown);
    assert(comes_of(steps[n - 1], events[n]));
    assert(events[n - 1] is Answered);
    assert(comes_of(steps[n - 2], events[n - 1]));
    assert(events[n - 2] is Sent);
    assert(comes_of(steps[n - 3], events[n - 2]));
    assert(events[n - 3] is Opened);
    assert(comes_of(steps[n - 4], events[n - 3]));
    assert(events[n - 4] is Connected);
    if n - 4 > 0 {
        assert(comes_of(steps[n - 5], events[n - 4]));
    }
}

/// The four bytes that announce a message of `len` bytes, the highest first. Of a
/// longer message than they can announce, the low bits are.
pub fn length_prefix(len: usize) -> (p: [u8; 4])
    ensures
        crate::address::be32(p@) == len as int % 0x1_0000_0000,
{
    let n: u64 = len as u64 % 0x1_0000_0000;
    let p: [u8; 4] = [
        (n / 0x100_0000) as u8,
        (n / 0x1_0000 % 0x100) as u8,
        (n / 0x100 % 0x100) as u8,
        (n % 0x100) as u8,
    ];
    p
}

/// The message that asks the server for a destination.
pub fn connect_message(dest: Address) -> (m: UpstreamMessage)
    ensures
        m == UpstreamMessage::Connect(dest),
{
    UpstreamMessage::Connect(dest)
}

/// Whether a response of the announced length is read at all.
pub fn accept_response_length(len: u32) -> (r: Result<usize, Error>)
    ensures
        match r {
            Ok(n) => n == len && len <= MAX_RESPONSE_MESSAGE_SIZE,
            Err(e) => len > MAX_RESPONSE_MESSAGE_SIZE && e.reads(
                ErrorKind::InvalidData,
                "response message too large: "@ + decimal_text(len as nat) + " bytes"@,
            ),
        },
{
    if len > MAX_RESPONSE_MESSAGE_SIZE {
        let mut message = "response message too large: ".to_owned();
        push_decimal(&mut message, len as u64);
        message.append(" bytes");
        return Err(Error::with_message(ErrorKind::InvalidData, message));
    }
    Ok(len as usize)
}

/// What the server's response to a connect message means for the stream: it may
/// be used, or this is why not.
pub fn open_bidirectional(dest: &Address, response: DownstreamMessage) -> (r: Result<(), Error>)
    ensures
        match response {
            DownstreamMessage::ConnectResponse(ServerConnectResponse::Connected) => r is Ok,
            DownstreamMessage::ConnectResponse(ServerConnectResponse::Failed { kind, message }) => r
                matches Err(e) && e.reads(
                kind.io_kind(),
                "failed to connect to "@ + dest.text() + ": "@ + message@,
            ),
            DownstreamMessage::Other => r matches Err(e) && e.reads(
                ErrorKind::InvalidData,
                "expected connect response message"@,
            ),
        },
{
    match response {
        DownstreamMessage::ConnectResponse(ServerConnectResponse::Connected) => Ok(()),
        DownstreamMessage::ConnectResponse(ServerConnectResponse::Failed { kind, message }) => {
            let mut text = "failed to connect to ".to_owned();
            text.append(dest.to_text().as_str());
            text.append(": ");
            text.append(message.as_str());
            Err(Error::with_message(kind.to_io_kind(), text))
        },
        DownstreamMessage::Other => Err(
            Error::new(ErrorKind::InvalidData, "expected connect response message"),
        ),
    }
}

/// These six kinds of failure mean that the connection is lost, and no other.
pub proof fn law_six_failures_lose_the_connection(e: &Error, r: bool)
    requires
        call_ensures(is_connection_error, (e,), r),
    ensures
        e.kind == ErrorKind::ConnectionReset ==> r,
        e.kind == ErrorKind::BrokenPipe ==> r,
        e.kind == ErrorKind::NotConnected ==> r,
        e.kind == ErrorKind::TimedOut ==> r,
        e.kind == ErrorKind::UnexpectedEof ==> r,
        e.kind == ErrorKind::NetworkUnreachable ==> r,
        r ==> e.kind == ErrorKind::ConnectionReset || e.kind == ErrorKind::BrokenPipe || e.kind
            == ErrorKind::NotConnected || e.kind == ErrorKind::TimedOut || e.kind
            == ErrorKind::UnexpectedEof || e.kind == ErrorKind::NetworkUnreachable,
{
}

/// A first try that fails because the connection is lost (it was reset, its pipe is
/// broken, it is not connected, it timed out, it ended early, or the network is out of
/// reach) is followed by connecting again. With any other failure, and with none, the
/// operation is over, and so it is after the second try.
pub proof fn law_lost_connection_is_replaced(retry: &mut Retry, failure: Option<&Error>, r: RetryStep)
    requires
        call_ensures(Retry::with_retry, (retry, failure), r),
    ensures
        failure matches Some(e) ==> match e.kind {
            ErrorKind::ConnectionReset
            | ErrorKind::BrokenPipe
            | ErrorKind::NotConnected
            | ErrorKind::TimedOut
            | ErrorKind::UnexpectedEof
            | ErrorKind::NetworkUnreachable => {
                &&& !old(retry).retried ==> r == RetryStep::Reconnect && final(retry).retried
                &&& old(retry).retried ==> r == RetryStep::Finish
            },
            _ => r == RetryStep::Finish && final(retry).retried == old(retry).retried,
        },
        failure is None ==> r == RetryStep::Finish,
        old(retry).retried ==> final(retry).retried,
{
}

/// A new connection is followed by the second try, and a failure to make one by none.
pub proof fn law_new_connection_is_used(retry: &mut Retry, failure: Option<&Error>, r: RetryStep)
    requires
        call_ensures(Retry::reconnected, (retry, failure), r),
    ensures
        failure is None <==> r == RetryStep::Again,
        failure is Some <==> r == RetryStep::Finish,
        final(retry).retried == old(retry).retried,
{
}

/// In every run of an operation, a first try that fails because the connection is lost is
/// followed by connecting again, and one that fails otherwise ends it.
pub proof fn law_first_failure_decides(
    states: Seq<Retry>,
    events: Seq<RetryEvent>,
    steps: Seq<RetryStep>,
)
    requires
        is_retry_run(states, events, steps),
    ensures
        events[0] == RetryEvent::Tried(Some(ErrorKind::ConnectionReset)) ==> steps[0] is Reconnect,
        events[0] == RetryEvent::Tried(Some(ErrorKind::BrokenPipe)) ==> steps[0] is Reconnect,
        events[0] == RetryEvent::Tried(Some(ErrorKind::NotConnected)) ==> steps[0] is Reconnect,
        events[0] == RetryEvent::Tried(Some(ErrorKind::TimedOut)) ==> steps[0] is Reconnect,
        events[0] == RetryEvent::Tried(Some(ErrorKind::UnexpectedEof)) ==> steps[0] is Reconnect,
        events[0] == RetryEvent::Tried(Some(ErrorKind::NetworkUnreachable)) ==> steps[0]
            is Reconnect,
        events[0] matches RetryEvent::Tried(Some(kind)) ==> (steps[0] is Finish <==> !(kind
            is ConnectionReset || kind is BrokenPipe || kind is NotConnected || kind is TimedOut
            || kind is UnexpectedEof || kind is NetworkUnreachable)),
        events[0] == RetryEvent::Tried(None) ==> steps[0] is Finish,
{
    assert(retry_follows(states[0], events[0], steps[0], states[1]));
}

/// The pause is a second at first, and doubles with each failure until the next doubling
/// would exceed a minute.
pub proof fn law_pause_doubles(failures: nat)
    ensures
        failures == 0 ==> backoff_after(failures) == 1_000_000_000,
        backoff_after(failures) <= 30_000_000_000 ==> backoff_after(failures + 1) == 2
            * backoff_after(failures),
        backoff_after(failures) > 30_000_000_000 ==> backoff_after(failures + 1) == 60_000_000_000,
{
}

/// A failed attempt to connect again doubles the pause, up to a minute; a successful one
/// makes it a second again, and the connection another one.
pub proof fn law_attempt_sets_the_pause(
    state: &mut ReconnectState,
    event: ReconnectEvent,
    r: ReconnectAction,
)
    requires
        old(state).wf(),
        call_ensures(ReconnectState::reconnect, (state, event), r),
    ensures
        event matches ReconnectEvent::Rebound(Err(e)) ==> r == ReconnectAction::Finish(Err(e)),
        event matches ReconnectEvent::Shaken(Err(e)) ==> r == ReconnectAction::Finish(Err(e)),
        event matches ReconnectEvent::Rebound(Ok(_)) ==> r is Handshake,
        (event matches ReconnectEvent::Rebound(Err(_))) || (event matches ReconnectEvent::Shaken(
            Err(_),
        )) ==> {
            &&& old(state).backoff.nanos <= 30_000_000_000 ==> final(state).backoff.nanos == 2
                * old(state).backoff.nanos
            &&& old(state).backoff.nanos >= 30_000_000_000 ==> final(state).backoff.nanos
                == 60_000_000_000
            &&& final(state).current == old(state).current
            &&& final(state).last_attempt == old(state).last_attempt
        },
        event matches ReconnectEvent::Shaken(Ok(_)) ==> {
            &&& r matches ReconnectAction::Finish(Ok(_))
            &&& final(state).backoff.nanos == 1_000_000_000
            &&& final(state).last_attempt is None
            &&& final(state).current != old(state).current
            &&& old(state).current < u64::MAX ==> final(state).current == old(state).current + 1
        },
{
}

/// The connection in use is replaced where it is lost, unless the last attempt was so
/// recent that the pause is not over: then the rest of the pause is waited for. Another
/// connection that was lost needs no replacement.
pub proof fn law_lost_connection_is_rebound(
    state: &mut ReconnectState,
    connection: u64,
    now: Duration,
    r: ReconnectAction,
)
    requires
        old(state).wf(),
        call_ensures(
            ReconnectState::reconnect,
            (state, ReconnectEvent::Lost { connection, now }),
            r,
        ),
    ensures
        connection != old(state).current <==> (r matches ReconnectAction::Finish(Ok(_))),
        connection == old(state).current && old(state).last_attempt is None ==> r is Rebind,
        connection == old(state).current ==> (old(state).last_attempt matches Some(last) ==> {
            &&& now.nanos >= last.nanos + old(state).backoff.nanos ==> r is Rebind
            &&& last.nanos <= now.nanos < last.nanos + old(state).backoff.nanos ==> {
                &&& r matches ReconnectAction::WaitThenFail(wait, e)
                &&& now.nanos + wait.nanos == last.nanos + old(state).backoff.nanos
                &&& e.kind == ErrorKind::Other
                &&& e.message@ == "reconnect throttled"@
            }
            &&& now.nanos < last.nanos ==> (r matches ReconnectAction::WaitThenFail(wait, _)
                && wait.nanos == old(state).backoff.nanos)
        }),
        r is Rebind ==> final(state).last_attempt == Some(now),
        !(r is Rebind) ==> final(state).last_attempt == old(state).last_attempt,
        final(state).backoff == old(state).backoff,
        final(state).current == old(state).current,
{
}

/// A new state lets the first attempt through at once, and the next one after a second.
pub proof fn law_first_pause_is_a_second(state: ReconnectState)
    requires
        call_ensures(ReconnectState::new, (), state),
    ensures
        state.wf(),
        state.last_attempt is None,
        state.backoff.nanos == 1_000_000_000,
        state.current == 0,
{
}

/// A handshake connects, opens the control stream, says hello with the client's version
/// and secret, has it answered, and shuts the stream down: each step follows the success
/// of the one before.
pub proof fn law_handshake_steps_in_order(
    event: HandshakeEvent,
    version: u8,
    secret: Secret,
    options: Bytes,
    r: HandshakeStep,
)
    requires
        call_ensures(handshake, (event, version, secret, options), r),
    ensures
        r is OpenStream <==> (event matches HandshakeEvent::Connected(Ok(_))),
        r is Send <==> (event matches HandshakeEvent::Opened(Ok(_))),
        r is AwaitAnswer <==> (event matches HandshakeEvent::Sent(Ok(_))),
        r is ShutDown <==> (event matches HandshakeEvent::Answered(
            Some(Ok(ServerHandshakeResponse::Accepted)),
        )),
        (r matches HandshakeStep::Finish(Ok(_))) <==> (event matches HandshakeEvent::ShutDown(
            Ok(_),
        )),
        r matches HandshakeStep::Send(m) ==> {
            &&& m matches UpstreamMessage::Hello(hello)
            &&& hello.version == version
            &&& hello.secret == secret
            &&& hello.options == options
        },
{
}

/// A handshake that fails says why: a wrong secret is a matter of permission, another
/// rejection of invalid data, a closed stream of an early end, and no answer of time. What
/// failed otherwise is handed on.
pub proof fn law_failed_handshake_says_why(
    event: HandshakeEvent,
    version: u8,
    secret: Secret,
    options: Bytes,
    r: HandshakeStep,
)
    requires
        call_ensures(handshake, (event, version, secret, options), r),
    ensures
        event matches HandshakeEvent::Answered(
            Some(Ok(ServerHandshakeResponse::Rejected(HandshakeError::InvalidSecret))),
        ) ==> {
            &&& r matches HandshakeStep::Finish(Err(e))
            &&& e.kind == ErrorKind::PermissionDenied
            &&& e.message@ == "server rejected handshake: InvalidSecret"@
        },
        event matches HandshakeEvent::Answered(
            Some(Ok(ServerHandshakeResponse::Rejected(HandshakeError::Other(name)))),
        ) ==> {
            &&& r matches HandshakeStep::Finish(Err(e))
            &&& e.kind == ErrorKind::InvalidData
            &&& e.message@ == "server rejected handshake: "@ + name@
        },
        event == HandshakeEvent::Answered(None) ==> (r matches HandshakeStep::Finish(Err(e))
            && e.kind == ErrorKind::UnexpectedEof && e.message@
            == "Connection closed by server during handshake"@),
        event == HandshakeEvent::TimedOut ==> (r matches HandshakeStep::Finish(Err(e)) && e.kind
            == ErrorKind::TimedOut && e.message@ == "client hello timed out"@),
        event matches HandshakeEvent::Connected(Err(e)) ==> r == HandshakeStep::Finish(Err(e)),
        event matches HandshakeEvent::Opened(Err(e)) ==> r == HandshakeStep::Finish(Err(e)),
        event matches HandshakeEvent::Sent(Err(e)) ==> r == HandshakeStep::Finish(Err(e)),
        event matches HandshakeEvent::Answered(Some(Err(e))) ==> r == HandshakeStep::Finish(Err(e)),
        event matches HandshakeEvent::ShutDown(Err(e)) ==> r == HandshakeStep::Finish(Err(e)),
{
    reveal_strlit("server rejected handshake: InvalidSecret");
    reveal_strlit("server rejected handshake: ");
    reveal_strlit("InvalidSecret");
    assert("server rejected handshake: "@ + "InvalidSecret"@
        =~= "server rejected handshake: InvalidSecret"@);
}

/// A message is announced by its length, the highest byte first.
pub proof fn law_length_is_announced_highest_first(len: usize, p: [u8; 4])
    requires
        call_ensures(length_prefix, (len,), p),
        len < 0x1_0000_0000,
    ensures
        p[0] * 0x100_0000 + p[1] * 0x1_0000 + p[2] * 0x100 + p[3] == len,
{
    assert(p@[0] == p[0] && p@[1] == p[1] && p@[2] == p[2] && p@[3] == p[3]);
}

/// A response is read where it is announced with eight mebibytes or less.
pub proof fn law_responses_are_limited(len: u32, r: Result<usize, Error>)
    requires
        call_ensures(accept_response_length, (len,), r),
    ensures
        len <= 8_388_608 ==> (r matches Ok(n) && n == len),
        len > 8_388_608 ==> (r matches Err(e) && e.kind == ErrorKind::InvalidData && {
            let k = "response message too large: "@.len() as int;
            let end = e.message@.len() - " bytes"@.len();
            &&& k < end
            &&& e.message@.take(k) == "response message too large: "@
            &&& is_numeral(e.message@.subrange(k, end), 10)
            &&& number_of(e.message@.subrange(k, end), 10) == len
            &&& e.message@.skip(end) == " bytes"@
        }),
{
    if let Err(e) = r {
        let k = "response message too large: "@.len() as int;
        let end = e.message@.len() - " bytes"@.len();
        lemma_digits_read_back(len as nat, 10);
        assert(e.message@.take(k) =~= "response message too large: "@);
        assert(e.message@.subrange(k, end) =~= decimal_text(len as nat));
        assert(e.message@.skip(end) =~= " bytes"@);
    }
}

/// A stream may be used where the server connected it, and only there; its failure
/// reaches the application as the kind that the server named.
pub proof fn law_stream_opens_when_connected(
    dest: &Address,
    response: DownstreamMessage,
    r: Result<(), Error>,
    to: String,
)
    requires
        call_ensures(open_bidirectional, (dest, response), r),
        call_ensures(Address::to_text, (dest,), to),
    ensures
        r is Ok <==> response == DownstreamMessage::ConnectResponse(
            ServerConnectResponse::Connected,
        ),
        response is Other ==> (r matches Err(e) && e.kind == ErrorKind::InvalidData && e.message@
            == "expected connect response message"@),
        response matches DownstreamMessage::ConnectResponse(
            ServerConnectResponse::Failed { kind, message },
        ) ==> {
            &&& r matches Err(e)
            &&& kind == ConnectErrorKind::TimedOut <==> e.kind == ErrorKind::TimedOut
            &&& kind == ConnectErrorKind::ConnectionRefused <==> e.kind
                == ErrorKind::ConnectionRefused
            &&& kind == ConnectErrorKind::NetworkUnreachable <==> e.kind
                == ErrorKind::NetworkUnreachable
            &&& kind == ConnectErrorKind::HostUnreachable <==> e.kind == ErrorKind::HostUnreachable
            &&& kind == ConnectErrorKind::DnsResolutionFailed ==> e.kind == ErrorKind::Other
            &&& kind == ConnectErrorKind::Other ==> e.kind == ErrorKind::Other
            &&& e.message@ == "failed to connect to "@ + to@ + ": "@ + message@
        },
{
}

/// A destination is asked for as it is.
pub proof fn law_destination_is_asked_for(dest: Address, m: UpstreamMessage)
    requires
        call_ensures(connect_message, (dest,), m),
    ensures
        m == UpstreamMessage::Connect(dest),
{
}

/// An operation that has just begun is tried again after its connection was lost.
pub proof fn law_new_operation_can_be_retried(
    new: Retry,
    retry: &mut Retry,
    e: &Error,
    lost: bool,
    r: RetryStep,
)
    requires
        call_ensures(Retry::new, (), new),
        *old(retry) == new,
        call_ensures(is_connection_error, (e,), lost),
        call_ensures(Retry::with_retry, (retry, Some(e)), r),
    ensures
        lost <==> r == RetryStep::Reconnect,
        !lost <==> r == RetryStep::Finish,
{
}

/// The default state is the new one.
pub proof fn law_default_state_is_new(a: ReconnectState, b: ReconnectState)
    requires
        call_ensures(ReconnectState::new, (), a),
        call_ensures(<ReconnectState as Default>::default, (), b),
    ensures
        a == b,
{
}

} // verus!
