//! Failures, as the kind that callers act on and the message that is shown.
use vstd::prelude::*;

verus! {

/// The kinds of I/O failure that the library tells apart.
#[derive(Clone, Copy, Debug, PartialEq, Eq, Structural)]
pub enum ErrorKind {
    NotFound,
    PermissionDenied,
    ConnectionRefused,
    ConnectionReset,
    ConnectionAborted,
    HostUnreachable,
    NetworkUnreachable,
    NotConnected,
    BrokenPipe,
    InvalidInput,
    InvalidData,
    TimedOut,
    Unsupported,
    UnexpectedEof,
    Other,
}

/// A failure.
#[derive(Clone, Debug, PartialEq, Eq)]
pub struct Error {
    pub kind: ErrorKind,
    pub message: String,
}

impl Error {
    /// Whether this is the failure of that kind with that message.
    pub open spec fn reads(&self, kind: ErrorKind, message: Seq<char>) -> bool {
        self.kind == kind && self.message@ == message
    }

    /// A failure of `kind`, described by `message`.
    pub fn new(kind: ErrorKind, message: &str) -> (e: Error)
        ensures
            e.reads(kind, message@),
    {
        Error { kind, message: message.to_owned() }
    }

    /// A failure of `kind` that takes its message over.
    pub fn with_message(kind: ErrorKind, message: String) -> (e: Error)
        ensures
            e.reads(kind, message@),
    {
        Error { kind, message }
    }
}

/// A failure is of the kind that it was made with, and says what it was made with.
pub proof fn law_failure_is_what_it_was_made_with(
    kind: ErrorKind,
    message: &str,
    a: Error,
    owned: String,
    b: Error,
)
    requires
        call_ensures(Error::new, (kind, message), a),
        call_ensures(Error::with_message, (kind, owned), b),
    ensures
        a.kind == kind,
        a.message@ == message@,
        b.kind == kind,
        b.message@ == owned@,
{
}

} // verus!
