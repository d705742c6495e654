//! What client and server say to each other through the tunnel.
use bytes::Bytes;
use vstd::prelude::*;

use crate::address::{socket_text, SocketAddr, SocketAddrV4, SocketAddrV6};
use crate::buf::{as_slice, bytes_seq};
use crate::error::ErrorKind;
use crate::text::{
    decimal_text, from_utf8_lossy, is_numeral, lemma_digits_read_back, number_of, push_decimal,
    utf8_lossy,
};

verus! {

/// A destination as the tunnel carries it.
#[derive(Clone, Debug, PartialEq, Eq)]
pub enum Address {
    SocketV4(SocketAddrV4),
    SocketV6(SocketAddrV6),
    Domain(Bytes, u16),
}

/// A domain and a port as they are usually written.
pub open spec fn domain_text(domain: Seq<u8>, port: u16) -> Seq<char> {
    utf8_lossy(domain) + ":"@ + decimal_text(port as nat)
}

/// A domain and a port as they are usually written.
pub fn domain_to_text(domain: &Bytes, port: u16) -> (s: String)
    ensures
        s@ == domain_text(bytes_seq(*domain), port),
{
    let mut out = from_utf8_lossy(as_slice(domain));
    out.append(":");
    push_decimal(&mut out, port as u64);
    out
}

impl Address {
    /// The destination as it is usually written.
    pub open spec fn text(&self) -> Seq<char> {
        match self {
            Address::SocketV4(a) => socket_text(SocketAddr::V4(*a)),
            Address::SocketV6(a) => socket_text(SocketAddr::V6(*a)),
            Address::Domain(d, port) => domain_text(bytes_seq(*d), *port),
        }
    }

    /// The destination as it is usually written.
    pub fn to_text(&self) -> (s: String)
        ensures
            s@ == self.text(),
    {
        match self {
            Address::SocketV4(a) => SocketAddr::V4(*a).to_text(),
            Address::SocketV6(a) => SocketAddr::V6(*a).to_text(),
            Address::Domain(d, port) => domain_to_text(d, *port),
        }
    }
}

/// The hash of the shared secret.
pub type Secret = [u8; 32];

/// What a client says first.
#[derive(Clone, Debug, PartialEq, Eq)]
pub struct ClientHello {
    pub version: u8,
    pub secret: Secret,
    pub options: Bytes,
}

/// Why a server turns a client down.
#[derive(Clone, Debug, PartialEq, Eq)]
pub enum HandshakeError {
    InvalidSecret,
    /// Any other reason, by its name.
    Other(String),
}

/// What a server says to a client's hello.
#[derive(Clone, Debug, PartialEq, Eq)]
pub enum ServerHandshakeResponse {
    Accepted,
    Rejected(HandshakeError),
}

/// Why a server could not reach a destination.
#[derive(Clone, Copy, Debug, PartialEq, Eq, Structural)]
pub enum ConnectErrorKind {
    ConnectionRefused,
    TimedOut,
    NetworkUnreachable,
    HostUnreachable,
    DnsResolutionFailed,
    Other,
}

impl ConnectErrorKind {
    /// The kind of failure that the client reports. A name that does not resolve
    /// has no kind of its own.
    pub open spec fn io_kind(self) -> ErrorKind {
        match self {
            ConnectErrorKind::ConnectionRefused => ErrorKind::ConnectionRefused,
            ConnectErrorKind::TimedOut => ErrorKind::TimedOut,
            ConnectErrorKind::NetworkUnreachable => ErrorKind::NetworkUnreachable,
            ConnectErrorKind::HostUnreachable => ErrorKind::HostUnreachable,
            ConnectErrorKind::DnsResolutionFailed => ErrorKind::Other,
            ConnectErrorKind::Other => ErrorKind::Other,
        }
    }

    /// The kind of failure that the client reports.
    pub fn to_io_kind(self) -> (k: ErrorKind)
        ensures
            k == self.io_kind(),
    {
        match self {
            ConnectErrorKind::ConnectionRefused => ErrorKind::ConnectionRefused,
            ConnectErrorKind::TimedOut => ErrorKind::TimedOut,
            ConnectErrorKind::NetworkUnreachable => ErrorKind::NetworkUnreachable,
            ConnectErrorKind::HostUnreachable => ErrorKind::HostUnreachable,
            ConnectErrorKind::DnsResolutionFailed => ErrorKind::Other,
            ConnectErrorKind::Other => ErrorKind::Other,
        }
    }
}

/// What a server says once it has tried to reach a destination.
#[derive(Clone, Debug, PartialEq, Eq)]
pub enum ServerConnectResponse {
    Connected,
    Failed { kind: ConnectErrorKind, message: String },
}

/// What a client says.
#[derive(Clone, Debug, PartialEq, Eq)]
pub enum UpstreamMessage {
    Hello(ClientHello),
    Connect(Address),
}

/// What a server says on a stream.
#[derive(Clone, Debug, PartialEq, Eq)]
pub enum DownstreamMessage {
    ConnectResponse(ServerConnectResponse),
    /// A message that has no place on a stream.
    Other,
}

/// A destination is written as its address and port, and a name as the text of its bytes,
/// a colon and the port.
pub proof fn law_destination_text_reads_back(
    a: &Address,
    s: String,
    socket: &SocketAddr,
    t: String,
) -> (port: Seq<char>)
    requires
        call_ensures(Address::to_text, (a,), s),
        call_ensures(SocketAddr::to_text, (socket,), t),
    ensures
        a matches Address::SocketV4(x) ==> (*socket == SocketAddr::V4(*x) ==> s@ == t@),
        a matches Address::SocketV6(x) ==> (*socket == SocketAddr::V6(*x) ==> s@ == t@),
        a matches Address::Domain(d, n) ==> s@ == utf8_lossy(bytes_seq(*d)) + seq![':'] + port
            && is_numeral(port, 10) && number_of(port, 10) == *n,
{
    reveal_strlit(":");
    assert(":"@ =~= seq![':']);
    let n = match a {
        Address::Domain(_, n) => *n as nat,
        _ => 0,
    };
    lemma_digits_read_back(n, 10);
    decimal_text(n)
}

/// Each reason that a server names is a kind of failure of its own, but for names that do
/// not resolve, which have none.
pub proof fn law_named_reasons_are_kinds(kind: ConnectErrorKind, k: ErrorKind)
    requires
        call_ensures(ConnectErrorKind::to_io_kind, (kind,), k),
    ensures
        k == ErrorKind::ConnectionRefused <==> kind == ConnectErrorKind::ConnectionRefused,
        k == ErrorKind::TimedOut <==> kind == ConnectErrorKind::TimedOut,
        k == ErrorKind::NetworkUnreachable <==> kind == ConnectErrorKind::NetworkUnreachable,
        k == ErrorKind::HostUnreachable <==> kind == ConnectErrorKind::HostUnreachable,
        k == ErrorKind::Other <==> kind == ConnectErrorKind::DnsResolutionFailed || kind
            == ConnectErrorKind::Other,
{
}

} // verus!
