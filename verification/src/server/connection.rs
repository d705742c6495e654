//! Client connections: how many are taken on, and how each proves itself.
use rand::Rng;
use vstd::prelude::*;

use crate::error::{Error, ErrorKind};
use crate::secret::is_secret_of;
use crate::text::{
    digit_value, hex_byte_text, is_numeral, push_hex_byte, push_seconds, seconds_text,
};
use crate::time::{Duration, NANOS_PER_MILLI};
use crate::tunnel::{ClientHello, Secret, UpstreamMessage};

verus! {

/// Why a client is not let in.
#[derive(Clone, Debug, PartialEq, Eq)]
pub enum ConnectionAuthError {
    /// Client protocol version is not supported by the server.
    IncompatibleVersion,
    /// Authentication secret is invalid or incorrect.
    InvalidSecret,
    /// Internal server error during authentication processing.
    ServerError,
    /// Other error.
    Other(String),
}

impl ConnectionAuthError {
    /// The kind of failure that this is.
    pub open spec fn kind(&self) -> ErrorKind {
        match self {
            ConnectionAuthError::IncompatibleVersion => ErrorKind::Unsupported,
            ConnectionAuthError::InvalidSecret => ErrorKind::PermissionDenied,
            ConnectionAuthError::ServerError => ErrorKind::ConnectionAborted,
            ConnectionAuthError::Other(_) => ErrorKind::Other,
        }
    }

    /// The words for it.
    pub open spec fn text(&self) -> Seq<char> {
        match self {
            ConnectionAuthError::IncompatibleVersion => "incompatible protocol version"@,
            ConnectionAuthError::InvalidSecret => "invalid authentication secret"@,
            ConnectionAuthError::ServerError => "internal server error during auth"@,
            ConnectionAuthError::Other(message) => message@,
        }
    }

    /// The failure that this is.
    pub fn into_error(self) -> (e: Error)
        ensures
            e.reads(self.kind(), self.text()),
    {
        match self {
            ConnectionAuthError::IncompatibleVersion => Error::new(
                ErrorKind::Unsupported,
                "incompatible protocol version",
            ),
            ConnectionAuthError::InvalidSecret => Error::new(
                ErrorKind::PermissionDenied,
                "invalid authentication secret",
            ),
            ConnectionAuthError::ServerError => Error::new(
                ErrorKind::ConnectionAborted,
                "internal server error during auth",
            ),
            ConnectionAuthError::Other(message) => Error::with_message(ErrorKind::Other, message),
        }
    }
}

/// What a verifier that expects a secret makes of a hello.
pub open spec fn verified(expected: Secret, hello: ClientHello) -> Result<(), ConnectionAuthError> {
    if hello.secret@ == expected@ {
        Ok(())
    } else {
        Err(ConnectionAuthError::InvalidSecret)
    }
}

/// Lets a client in that knows the secret.
pub fn verify_secret(expected: &Secret, hello: &ClientHello) -> (r: Result<
    (),
    ConnectionAuthError,
>)
    ensures
        r == verified(*expected, *hello),
{
    let mut i: usize = 0;
    while i < 32
        invariant
            i <= 32,
            forall|j: int| 0 <= j < i ==> hello.secret@[j] == expected@[j],
        decreases 32 - i,
    {
        if hello.secret[i] != expected[i] {
            assert(hello.secret@[i as int] != expected@[i as int]);
            return Err(ConnectionAuthError::InvalidSecret);
        }
        i += 1;
    }
    assert(hello.secret@ =~= expected@);
    Ok(())
}

/// The first three bytes of a secret in hexadecimal: enough to tell secrets apart
/// in a log.
pub fn secret_tag(secret: &Secret) -> (s: String)
    ensures
        s@ == hex_byte_text(secret@[0]) + hex_byte_text(secret@[1]) + hex_byte_text(secret@[2]),
{
    let mut out = String::new();
    push_hex_byte(&mut out, secret[0]);
    push_hex_byte(&mut out, secret[1]);
    push_hex_byte(&mut out, secret[2]);
    assert(out@ =~= hex_byte_text(secret@[0]) + hex_byte_text(secret@[1]) + hex_byte_text(
        secret@[2],
    ));
    out
}

/// `Rng::random_range` on the thread's generator: a number from `low` to `high`,
/// both included. Which one is up to chance.
#[verifier::external_body]
fn random_in(low: u64, high: u64) -> (n: u64)
    requires
        low <= high,
    ensures
        low <= n <= high,
{
    rand::rng().random_range(low..=high)
}

/// How long a client that sent no hello, or one of another version, is kept waiting:
/// 100 to 500 milliseconds, so that the time taken does not tell which it was.
pub fn disconnect_delay() -> (d: Duration)
    ensures
        100 * NANOS_PER_MILLI <= d.nanos <= 500 * NANOS_PER_MILLI,
{
    Duration::from_millis(random_in(100, 500))
}

/// What happened while a client proves itself.
pub enum AuthEvent {
    /// The control stream was accepted, or was not.
    StreamAccepted(Result<(), Error>),
    /// No hello came in time.
    HelloTimedOut,
    /// The stream was closed before a hello.
    HelloClosed,
    /// Reading the hello failed.
    HelloFailed(Error),
    /// What was read could not be decoded; why not.
    HelloUndecodable(String),
    /// A message was read.
    Message(UpstreamMessage),
    /// The verifier took too long.
    VerifyTimedOut,
    /// The verifier has decided.
    Verified(Result<(), ConnectionAuthError>),
    /// The client was told in time, or telling it failed.
    Answered(Result<(), Error>),
    /// The client could not be told in time.
    AnswerTimedOut,
}

/// What to do about it.
pub enum AuthStep {
    /// Read the hello, within the timeout.
    ReadHello,
    /// Have this hello verified, within the timeout.
    Verify(ClientHello),
    /// Tell the client that it is let in, within the timeout.
    Answer,
    /// The client is in.
    Accept,
    /// Wait this long, shut the control stream down, and fail.
    DelayThenFail(Duration, Error),
    /// Fail.
    Fail(Error),
}

/// Whether this step keeps the client waiting before it fails.
pub open spec fn fails_late(step: AuthStep, kind: ErrorKind, message: Seq<char>) -> bool {
    step matches AuthStep::DelayThenFail(d, e) && 100 * NANOS_PER_MILLI <= d.nanos <= 500
        * NANOS_PER_MILLI && e.reads(kind, message)
}

/// Whether this step fails at once.
pub open spec fn fails(step: AuthStep, kind: ErrorKind, message: Seq<char>) -> bool {
    step matches AuthStep::Fail(e) && e.reads(kind, message)
}

/// Whether this is the step that follows an event of an authentication.
pub open spec fn authentication_follows(
    event: AuthEvent,
    r: AuthStep,
    timeout_secs: u64,
    version: u8,
) -> bool {
    match event {
        AuthEvent::StreamAccepted(Ok(())) => r is ReadHello,
        AuthEvent::StreamAccepted(Err(e)) => fails(
            r,
            ErrorKind::Other,
            "failed to accept bidirectional stream: "@ + e.message@,
        ),
        AuthEvent::HelloTimedOut => fails(
            r,
            ErrorKind::TimedOut,
            "authentication timeout: failed to receive hello message within "@
                + seconds_text(timeout_secs as nat),
        ),
        AuthEvent::HelloClosed => fails(
            r,
            ErrorKind::UnexpectedEof,
            "stream closed before hello"@,
        ),
        AuthEvent::HelloFailed(e) => r == AuthStep::Fail(e),
        AuthEvent::HelloUndecodable(why) => fails(
            r,
            ErrorKind::InvalidData,
            "failed to decode client message: "@ + why@,
        ),
        AuthEvent::Message(UpstreamMessage::Hello(hello)) => if hello.version != version {
            fails_late(r, ErrorKind::PermissionDenied, "incompatible version"@)
        } else {
            r == AuthStep::Verify(hello)
        },
        AuthEvent::Message(UpstreamMessage::Connect(_)) => fails_late(
            r,
            ErrorKind::InvalidData,
            "authentication failed: invalid message type (expected Hello)"@,
        ),
        AuthEvent::VerifyTimedOut => fails(r, ErrorKind::TimedOut, "timed out"@),
        AuthEvent::Verified(Ok(())) => r is Answer,
        AuthEvent::Verified(Err(e)) => fails(r, e.kind(), e.text()),
        AuthEvent::Answered(Ok(())) => r is Accept,
        AuthEvent::Answered(Err(e)) => r == AuthStep::Fail(e),
        AuthEvent::AnswerTimedOut => fails(
            r,
            ErrorKind::TimedOut,
            "authentication timeout: failed to send response within "@ + seconds_text(
                timeout_secs as nat,
            ),
        ),
    }
}

/// Takes one event of a client's authentication: accept the control stream, read
/// a hello, hold its version against `version`, have it verified, answer.
pub fn perform_authentication(event: AuthEvent, timeout_secs: u64, version: u8) -> (r: AuthStep)
    ensures
        authentication_follows(event, r, timeout_secs, version),
{
    match event {
        AuthEvent::StreamAccepted(Ok(())) => AuthStep::ReadHello,
        AuthEvent::StreamAccepted(Err(e)) => {
            let mut message = "failed to accept bidirectional stream: ".to_owned();
            message.append(e.message.as_str());
            AuthStep::Fail(Error::with_message(ErrorKind::Other, message))
        },
        AuthEvent::HelloTimedOut => {
            let mut message =
                "authentication timeout: failed to receive hello message within ".to_owned();
            push_seconds(&mut message, timeout_secs);
            AuthStep::Fail(Error::with_message(ErrorKind::TimedOut, message))
        },
        AuthEvent::HelloClosed => AuthStep::Fail(
            Error::new(ErrorKind::UnexpectedEof, "stream closed before hello"),
        ),
        AuthEvent::HelloFailed(e) => AuthStep::Fail(e),
        AuthEvent::HelloUndecodable(why) => {
            let mut message = "failed to decode client message: ".to_owned();
            message.append(why.as_str());
            AuthStep::Fail(Error::with_message(ErrorKind::InvalidData, message))
        },
        AuthEvent::Message(UpstreamMessage::Hello(hello)) => {
            if hello.version != version {
                return AuthStep::DelayThenFail(
                    disconnect_delay(),
                    Error::new(ErrorKind::PermissionDenied, "incompatible version"),
                );
            }
            AuthStep::Verify(hello)
        },
        AuthEvent::Message(UpstreamMessage::Connect(_)) => AuthStep::DelayThenFail(
            disconnect_delay(),
            Error::new(
                ErrorKind::InvalidData,
                "authentication failed: invalid message type (expected Hello)",
            ),
        ),
        AuthEvent::VerifyTimedOut => AuthStep::Fail(
            Error::new(ErrorKind::TimedOut, "timed out"),
        ),
        AuthEvent::Verified(Ok(())) => AuthStep::Answer,
        AuthEvent::Verified(Err(e)) => AuthStep::Fail(e.into_error()),
        AuthEvent::Answered(Ok(())) => AuthStep::Accept,
        AuthEvent::Answered(Err(e)) => AuthStep::Fail(e),
        AuthEvent::AnswerTimedOut => {
            let mut message = "authentication timeout: failed to send response within ".to_owned();
            push_seconds(&mut message, timeout_secs);
            AuthStep::Fail(Error::with_message(ErrorKind::TimedOut, message))
        },
    }
}

/// Whether an event can be what came of a step.
pub open spec fn comes_of(step: AuthStep, event: AuthEvent) -> bool {
    match step {
        AuthStep::ReadHello => event is HelloTimedOut || event is HelloClosed || event
            is HelloFailed || event is HelloUndecodable || event is Message,
        AuthStep::Verify(_) => event is VerifyTimedOut || event is Verified,
        AuthStep::Answer => event is Answered || event is AnswerTimedOut,
        AuthStep::Accept => false,
        AuthStep::DelayThenFail(_, _) => false,
        AuthStep::Fail(_) => false,
    }
}

/// An authentication from its beginning: the control stream is accepted, and each
/// further event comes of the step before it.
pub open spec fn is_authentication(
    events: Seq<AuthEvent>,
    steps: Seq<AuthStep>,
    timeout_secs: u64,
    version: u8,
) -> bool {
    &&& events.len() == steps.len() > 0
    &&& events[0] is StreamAccepted
    &&& forall|i: int|
        0 <= i < events.len() ==> authentication_follows(
            #[trigger] events[i],
            steps[i],
            timeout_secs,
            version,
        )
    &&& forall|i: int| 0 < i < events.len() ==> comes_of(steps[i - 1], #[trigger] events[i])
}

/// A client is let in only where its hello is of the server's version and the
/// verifier was given that very hello and has let it in.
pub proof fn law_admission_needs_verification(
    events: Seq<AuthEvent>,
    steps: Seq<AuthStep>,
    timeout_secs: u64,
    version: u8,
)
    requires
        is_authentication(events, steps, timeout_secs, version),
        steps.last() is Accept,
    ensures
        events.len() == 4,
        events[1] matches AuthEvent::Message(UpstreamMessage::Hello(hello)) && hello.version
            == version && steps[1] == AuthStep::Verify(hello),
        events[2] matches AuthEvent::Verified(Ok(_)),
{
    let n = events.len() as int - 1;
    assert(events[n] is Answered);
    assert(comes_of(steps[n - 1], events[n]));
    assert(events[n - 1] is Verified);
    assert(comes_of(steps[n - 2], events[n - 1]));
    assert(events[n - 2] is Message);
    assert(comes_of(steps[n - 3], events[n - 2]));
    assert(events[n - 3] is StreamAccepted);
    if n - 3 > 0 {
        assert(comes_of(steps[n - 4], events[n - 3]));
    }
}

/// A client that was configured with the server's passphrase and speaks its version is
/// let in: its hello goes to the verifier, which lets it in, and it is told so.
pub proof fn law_shared_secret_is_admitted(
    passphrase: Seq<char>,
    client: Secret,
    server: Secret,
    hello: ClientHello,
    timeout_secs: u64,
    first: AuthStep,
    second: AuthStep,
)
    requires
        is_secret_of(client, passphrase),
        is_secret_of(server, passphrase),
        hello.secret == client,
        authentication_follows(
            AuthEvent::Message(UpstreamMessage::Hello(hello)),
            first,
            timeout_secs,
            hello.version,
        ),
        authentication_follows(
            AuthEvent::Verified(verified(server, hello)),
            second,
            timeout_secs,
            hello.version,
        ),
    ensures
        first == AuthStep::Verify(hello),
        second is Answer,
{
}

/// How many connections there are, and may be.
#[derive(Clone, Copy, Debug, PartialEq, Eq, Structural)]
pub struct ConnectionLimit {
    pub max: usize,
    pub active: usize,
}

/// What becomes of an incoming connection.
pub enum Admission {
    /// It is processed, and holds a place until it is closed.
    Process,
    /// There are as many as there may be.
    Full(usize),
    /// Accepting it failed.
    Failed(Error),
}

impl ConnectionLimit {
    /// There are never more than there may be.
    pub open spec fn wf(&self) -> bool {
        self.active <= self.max
    }

    /// No connection yet.
    pub fn new(max_connections: usize) -> (r: ConnectionLimit)
        ensures
            r.wf(),
            r.max == max_connections,
            r.active == 0,
    {
        ConnectionLimit { max: max_connections, active: 0 }
    }

    /// Takes an incoming connection on, if there is a place.
    pub fn handle_incoming_connection(&mut self, accepted: Result<(), Error>) -> (r: Admission)
        requires
            old(self).wf(),
        ensures
            final(self).wf(),
            final(self).max == old(self).max,
            match accepted {
                Err(e) => r == Admission::Failed(e) && final(self).active == old(self).active,
                Ok(()) => if old(self).active < old(self).max {
                    r is Process && final(self).active == old(self).active + 1
                } else {
                    r == Admission::Full(old(self).max) && final(self).active == old(self).active
                },
            },
    {
        match accepted {
            Err(e) => Admission::Failed(e),
            Ok(()) => {
                if self.active < self.max {
                    self.active += 1;
                    Admission::Process
                } else {
                    Admission::Full(self.max)
                }
            },
        }
    }

    /// A connection that was taken on has closed.
    pub fn release(&mut self)
        requires
            old(self).wf(),
            old(self).active > 0,
        ensures
            final(self).wf(),
            final(self).max == old(self).max,
            final(self).active == old(self).active - 1,
    {
        self.active -= 1;
    }
}

/// A place that was given back is a place again: after one connection has closed,
/// the next one is taken on.
pub proof fn law_released_place_is_free(before: ConnectionLimit, after: ConnectionLimit)
    requires
        before.wf(),
        before.active > 0,
        after.max == before.max,
        after.active == before.active - 1,
    ensures
        after.active < after.max,
{
}

/// How a kind of failure that means the client is gone is usually written.
pub open spec fn gone_text(kind: ErrorKind) -> Option<Seq<char>> {
    match kind {
        ErrorKind::ConnectionReset => Some("connection reset"@),
        ErrorKind::BrokenPipe => Some("broken pipe"@),
        ErrorKind::UnexpectedEof => Some("unexpected end of file"@),
        _ => None,
    }
}

/// Why a connection was closed, for the log: a client that is gone is no error.
pub fn close_reason(result: &Result<(), Error>) -> (s: String)
    ensures
        s@ == match result {
            Ok(()) => "ok"@,
            Err(e) => match gone_text(e.kind) {
                Some(t) => "client disconnect: "@ + t,
                None => "error: "@ + e.message@,
            },
        },
{
    match result {
        Ok(()) => "ok".to_owned(),
        Err(e) => {
            let mut text = "client disconnect: ".to_owned();
            match e.kind {
                ErrorKind::ConnectionReset => text.append("connection reset"),
                ErrorKind::BrokenPipe => text.append("broken pipe"),
                ErrorKind::UnexpectedEof => text.append("unexpected end of file"),
                _ => {
                    text = "error: ".to_owned();
                    text.append(e.message.as_str());
                },
            }
            text
        },
    }
}

/// A verifier lets a hello in exactly where each byte of its secret is the expected one.
pub proof fn law_every_byte_of_the_secret_counts(
    expected: &Secret,
    hello: &ClientHello,
    r: Result<(), ConnectionAuthError>,
)
    requires
        call_ensures(verify_secret, (expected, hello), r),
    ensures
        r is Ok <==> forall|i: int| 0 <= i < 32 ==> hello.secret@[i] == #[trigger] expected@[i],
        r matches Err(e) ==> e is InvalidSecret,
{
    if forall|i: int| 0 <= i < 32 ==> hello.secret@[i] == #[trigger] expected@[i] {
        assert(hello.secret@ =~= expected@);
    }
}

/// A client goes through its authentication step by step: only an accepted stream has its
/// hello read, only a hello of the server's version is verified, only a verified one is
/// answered, and only an answered client is in.
pub proof fn law_authentication_steps_in_order(
    event: AuthEvent,
    timeout_secs: u64,
    version: u8,
    r: AuthStep,
)
    requires
        call_ensures(perform_authentication, (event, timeout_secs, version), r),
    ensures
        r is ReadHello <==> (event matches AuthEvent::StreamAccepted(Ok(_))),
        r is Verify <==> (event matches AuthEvent::Message(UpstreamMessage::Hello(hello))
            && hello.version == version),
        r matches AuthStep::Verify(hello) ==> event == AuthEvent::Message(
            UpstreamMessage::Hello(hello),
        ),
        r is Answer <==> (event matches AuthEvent::Verified(Ok(_))),
        r is Accept <==> (event matches AuthEvent::Answered(Ok(_))),
        r is DelayThenFail <==> (event matches AuthEvent::Message(m) && !(
        m matches UpstreamMessage::Hello(hello) && hello.version == version)),
        r matches AuthStep::DelayThenFail(d, _) ==> 100_000_000 <= d.nanos <= 500_000_000,
{
}

/// A client that is not let in is told nothing, but its failure says why: what kind it is,
/// and in which words.
pub proof fn law_failed_authentication_says_why(
    event: AuthEvent,
    timeout_secs: u64,
    version: u8,
    r: AuthStep,
)
    requires
        call_ensures(perform_authentication, (event, timeout_secs, version), r),
    ensures
        event matches AuthEvent::StreamAccepted(Err(e)) ==> (r matches AuthStep::Fail(f) && f.kind
            == ErrorKind::Other && f.message@ == "failed to accept bidirectional stream: "@
            + e.message@),
        event is HelloTimedOut ==> (r matches AuthStep::Fail(f) && f.kind == ErrorKind::TimedOut
            && f.message@ == "authentication timeout: failed to receive hello message within "@
            + seconds_text(timeout_secs as nat)),
        event is HelloClosed ==> (r matches AuthStep::Fail(f) && f.kind
            == ErrorKind::UnexpectedEof && f.message@ == "stream closed before hello"@),
        event matches AuthEvent::HelloFailed(e) ==> r == AuthStep::Fail(e),
        event matches AuthEvent::HelloUndecodable(why) ==> (r matches AuthStep::Fail(f) && f.kind
            == ErrorKind::InvalidData && f.message@ == "failed to decode client message: "@
            + why@),
        event matches AuthEvent::Message(UpstreamMessage::Connect(_)) ==> (r
            matches AuthStep::DelayThenFail(_, f) && f.kind == ErrorKind::InvalidData && f.message@
            == "authentication failed: invalid message type (expected Hello)"@),
        event matches AuthEvent::Message(UpstreamMessage::Hello(hello)) ==> (hello.version
            != version ==> (r matches AuthStep::DelayThenFail(_, f) && f.kind
            == ErrorKind::PermissionDenied && f.message@ == "incompatible version"@)),
        event is VerifyTimedOut ==> (r matches AuthStep::Fail(f) && f.kind == ErrorKind::TimedOut
            && f.message@ == "timed out"@),
        event matches AuthEvent::Verified(Err(ConnectionAuthError::IncompatibleVersion)) ==> (r
            matches AuthStep::Fail(f) && f.kind == ErrorKind::Unsupported),
        event matches AuthEvent::Verified(Err(ConnectionAuthError::InvalidSecret)) ==> (r
            matches AuthStep::Fail(f) && f.kind == ErrorKind::PermissionDenied),
        event matches AuthEvent::Verified(Err(ConnectionAuthError::ServerError)) ==> (r
            matches AuthStep::Fail(f) && f.kind == ErrorKind::ConnectionAborted),
        event matches AuthEvent::Verified(Err(ConnectionAuthError::Other(why))) ==> (r
            matches AuthStep::Fail(f) && f.kind == ErrorKind::Other && f.message@ == why@),
        event matches AuthEvent::Answered(Err(e)) ==> r == AuthStep::Fail(e),
        event is AnswerTimedOut ==> (r matches AuthStep::Fail(f) && f.kind == ErrorKind::TimedOut
            && f.message@ == "authentication timeout: failed to send response within "@
            + seconds_text(timeout_secs as nat)),
{
}

/// A failure of authentication is the kind that its cause is, and each cause has words of
/// its own.
pub proof fn law_auth_failures_have_kinds(cause: ConnectionAuthError, e: Error)
    requires
        call_ensures(ConnectionAuthError::into_error, (cause,), e),
    ensures
        e.kind == ErrorKind::Unsupported <==> cause is IncompatibleVersion,
        e.kind == ErrorKind::PermissionDenied <==> cause is InvalidSecret,
        e.kind == ErrorKind::ConnectionAborted <==> cause is ServerError,
        e.kind == ErrorKind::Other <==> cause is Other,
        cause is IncompatibleVersion ==> e.message@ == "incompatible protocol version"@,
        cause is InvalidSecret ==> e.message@ == "invalid authentication secret"@,
        cause is ServerError ==> e.message@ == "internal server error during auth"@,
        cause matches ConnectionAuthError::Other(m) ==> e.message@ == m@,
{
}

/// Connections are taken on one by one until there are as many as there may be, and no
/// further.
pub proof fn law_places_are_counted(
    limit: &mut ConnectionLimit,
    accepted: Result<(), Error>,
    r: Admission,
)
    requires
        old(limit).active <= old(limit).max,
        call_ensures(ConnectionLimit::handle_incoming_connection, (limit, accepted), r),
    ensures
        r is Process <==> accepted is Ok && old(limit).active < old(limit).max,
        r is Full <==> accepted is Ok && old(limit).active == old(limit).max,
        r matches Admission::Full(n) ==> n == old(limit).max,
        accepted matches Err(e) ==> r == Admission::Failed(e),
        final(limit).active - old(limit).active == if r is Process {
            1int
        } else {
            0
        },
        final(limit).max == old(limit).max,
{
}

/// A connection that was taken on and closed leaves the count as it was.
pub proof fn law_closed_connection_gives_its_place_back(
    limit: &mut ConnectionLimit,
    r: Admission,
    later: &mut ConnectionLimit,
)
    requires
        old(limit).wf(),
        old(limit).active < old(limit).max,
        call_ensures(ConnectionLimit::handle_incoming_connection, (limit, Ok::<(), Error>(())), r),
        *old(later) == *final(limit),
        call_ensures(ConnectionLimit::release, (later,), ()),
    ensures
        *final(later) == *old(limit),
{
}

/// A client that is gone is logged as such, in three cases, and any other failure in its
/// own words.
pub proof fn law_gone_clients_are_no_errors(result: &Result<(), Error>, s: String)
    requires
        call_ensures(close_reason, (result,), s),
    ensures
        result is Ok ==> s@ == "ok"@,
        result matches Err(e) ==> match e.kind {
            ErrorKind::ConnectionReset => s@ == "client disconnect: connection reset"@,
            ErrorKind::BrokenPipe => s@ == "client disconnect: broken pipe"@,
            ErrorKind::UnexpectedEof => s@ == "client disconnect: unexpected end of file"@,
            _ => s@ == "error: "@ + e.message@,
        },
{
    reveal_strlit("client disconnect: ");
    reveal_strlit("connection reset");
    reveal_strlit("broken pipe");
    reveal_strlit("unexpected end of file");
    reveal_strlit("client disconnect: connection reset");
    reveal_strlit("client disconnect: broken pipe");
    reveal_strlit("client disconnect: unexpected end of file");
    assert("client disconnect: "@ + "connection reset"@ =~= "client disconnect: connection reset"@);
    assert("client disconnect: "@ + "broken pipe"@ =~= "client disconnect: broken pipe"@);
    assert("client disconnect: "@ + "unexpected end of file"@
        =~= "client disconnect: unexpected end of file"@);
}

/// The tag of a secret are its first three bytes, each as two hexadecimal digits.
pub proof fn law_tag_is_three_bytes(secret: &Secret, s: String, i: int)
    requires
        call_ensures(secret_tag, (secret,), s),
    ensures
        s@.len() == 6,
        is_numeral(s@, 16),
        0 <= i < 3 ==> digit_value(s@[2 * i]) * 16 + digit_value(s@[2 * i + 1]) == secret@[i],
{
    lemma_hex_byte(secret@[0]);
    lemma_hex_byte(secret@[1]);
    lemma_hex_byte(secret@[2]);
    let t = s@;
    assert(t[0] == hex_byte_text(secret@[0])[0] && t[1] == hex_byte_text(secret@[0])[1]);
    assert(t[2] == hex_byte_text(secret@[1])[0] && t[3] == hex_byte_text(secret@[1])[1]);
    assert(t[4] == hex_byte_text(secret@[2])[0] && t[5] == hex_byte_text(secret@[2])[1]);
    if 0 <= i < 3 {
        assert(i == 0 || i == 1 || i == 2);
    }
}

proof fn lemma_hex_byte(b: u8)
    ensures
        hex_byte_text(b).len() == 2,
        is_numeral(hex_byte_text(b), 16),
        '0' <= hex_byte_text(b)[0] <= '9' || 'a' <= hex_byte_text(b)[0] <= 'f',
        '0' <= hex_byte_text(b)[1] <= '9' || 'a' <= hex_byte_text(b)[1] <= 'f',
        digit_value(hex_byte_text(b)[0]) < 16,
        digit_value(hex_byte_text(b)[1]) < 16,
        digit_value(hex_byte_text(b)[0]) * 16 + digit_value(hex_byte_text(b)[1]) == b,
{
}

/// A client is kept waiting for a tenth of a second at least and half a second at most.
pub proof fn law_delay_is_short(d: Duration)
    requires
        call_ensures(disconnect_delay, (), d),
    ensures
        100_000_000 <= d.nanos <= 500_000_000,
{
}

/// A new limit has all its places.
pub proof fn law_new_limit_has_all_its_places(max: usize, limit: ConnectionLimit)
    requires
        call_ensures(ConnectionLimit::new, (max,), limit),
    ensures
        limit.max == max,
        limit.active == 0,
{
}

} // verus!
