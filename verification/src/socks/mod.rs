//! The SOCKS5 endpoint: a no-authentication server that turns `CONNECT` and
//! `UDP ASSOCIATE` into tunnel streams and tunnel datagrams. Sockets belong to
//! the caller; here is what to write to them and what to do next.
use bytes::{Bytes, BytesMut};
use vstd::prelude::*;

use crate::address::{IpAddr, Ipv4Addr, Ipv6Addr, SocketAddr, SocketAddrV4, SocketAddrV6};
use crate::buf::{bytes_mut_seq, bytes_seq};
use crate::error::{Error, ErrorKind};
use crate::tunnel;

use protocol::{
    decode_udp, encode_reply, from_tunnel, method, reply_wire, udp_wire, Address, AddressView, Reply,
    Request, UdpPacket, VERSION,
};

pub mod protocol;

verus! {

/// Where the method selection stands.
pub enum Negotiation {
    /// This many further bytes are needed.
    Need(usize),
    /// The client does not speak SOCKS5: close without an answer.
    Invalid(Error),
    /// `used` bytes were read: write `answer`, then go on or close.
    Answer { used: usize, answer: [u8; 2], verdict: Result<(), Error> },
}

/// Whether the `n` methods behind the header hold the one that is supported.
pub open spec fn offers_no_auth(s: Seq<u8>) -> bool {
    exists|i: int| 2 <= i < 2 + s[1] && s[i] == method::NO_AUTHENTICATION
}

/// Reads the client's method list and selects no-authentication.
///
/// ```text
///  +----+----------+----------+        +----+--------+
///  |VER | NMETHODS | METHODS  |  --->  |VER | METHOD |
///  +----+----------+----------+        +----+--------+
/// ```
pub fn negotiate_method(input: &[u8]) -> (r: Negotiation)
    ensures
        input@.len() < 2 ==> r == Negotiation::Need((2 - input@.len()) as usize),
        input@.len() >= 2 && input@[0] != VERSION ==> (r matches Negotiation::Invalid(e)
            && e.reads(ErrorKind::InvalidData, "unsupported SOCKS version"@)),
        input@.len() >= 2 && input@[0] == VERSION && input@.len() < 2 + input@[1] ==> r
            == Negotiation::Need((2 + input@[1] - input@.len()) as usize),
        input@.len() >= 2 && input@[0] == VERSION && input@.len() >= 2 + input@[1] ==> {
            &&& r matches Negotiation::Answer { used, answer, verdict }
            &&& used == 2 + input@[1]
            &&& if offers_no_auth(input@) {
                answer@ == seq![VERSION, method::NO_AUTHENTICATION] && verdict is Ok
            } else {
                answer@ == seq![VERSION, method::NO_ACCEPTABLE_METHOD] && (verdict matches Err(e)
                    && e.reads(
                    ErrorKind::PermissionDenied,
                    "no acceptable authentication method"@,
                ))
            }
        },
{
    let len: usize = input.len();
    if len < 2 {
        return Negotiation::Need(2 - len);
    }
    if input[0] != VERSION {
        return Negotiation::Invalid(
            Error::new(ErrorKind::InvalidData, "unsupported SOCKS version"),
        );
    }
    let used: usize = 2 + input[1] as usize;
    if len < used {
        return Negotiation::Need(used - len);
    }
    let mut i: usize = 2;
    while i < used
        invariant
            2 <= i <= used <= input@.len(),
            input@[0] == VERSION,
            used == 2 + input@[1],
            forall|j: int| 2 <= j < i ==> input@[j] != method::NO_AUTHENTICATION,
        decreases used - i,
    {
        if input[i] == method::NO_AUTHENTICATION {
            return Negotiation::Answer {
                used,
                answer: [VERSION, method::NO_AUTHENTICATION],
                verdict: Ok(()),
            };
        }
        i += 1;
    }
    Negotiation::Answer {
        used,
        answer: [VERSION, method::NO_ACCEPTABLE_METHOD],
        verdict: Err(
            Error::new(ErrorKind::PermissionDenied, "no acceptable authentication method"),
        ),
    }
}

/// What a request asks the endpoint to do.
pub enum Command {
    /// Open a tunnel stream to this destination.
    Connect(tunnel::Address),
    /// Relay datagrams.
    Associate,
    /// Write this reply and close.
    Refuse(BytesMut),
}

/// The unspecified address that stands in replies.
pub open spec fn unspecified() -> AddressView {
    AddressView::IPv4(seq![0u8, 0, 0, 0], 0)
}

/// A reply that carries no bound address.
pub fn reply_failure(reply: Reply) -> (r: BytesMut)
    ensures
        bytes_mut_seq(r) == reply_wire(reply, unspecified()),
{
    encode_reply(reply, &Address::unspecified())
}

/// Dispatches a request. `BIND` is not supported.
pub fn dispatch(request: Request) -> (r: Command)
    ensures
        match request {
            Request::Connect(a) => r == Command::Connect(a.to_tunnel()),
            Request::Associate(_) => r is Associate,
            Request::Bind(_) => r matches Command::Refuse(b) && bytes_mut_seq(b) == reply_wire(
                Reply::CommandNotSupported,
                unspecified(),
            ),
        },
{
    match request {
        Request::Connect(address) => Command::Connect(tunnel::Address::from(address)),
        Request::Associate(_) => Command::Associate,
        Request::Bind(_) => Command::Refuse(reply_failure(Reply::CommandNotSupported)),
    }
}

/// The reply to `CONNECT` once the tunnel has tried: the code reflects the real
/// outcome. After a failure the connection ends with that failure.
pub fn connect_reply(failure: Option<&Error>) -> (r: BytesMut)
    ensures
        bytes_mut_seq(r) == match failure {
            None => reply_wire(Reply::Succeeded, unspecified()),
            Some(e) => reply_wire(Reply::of_kind(e.kind), unspecified()),
        },
{
    match failure {
        None => encode_reply(Reply::Succeeded, &Address::unspecified()),
        Some(err) => reply_failure(Reply::from_connect_error(err)),
    }
}

/// The unspecified address of the same family, with port zero.
pub fn bind_addr_for(ip: IpAddr) -> (r: SocketAddr)
    ensures
        match ip {
            IpAddr::V4(_) => r matches SocketAddr::V4(a) && a.ip@ == seq![0u8, 0, 0, 0] && a.port
                == 0,
            IpAddr::V6(_) => r matches SocketAddr::V6(a) && a.ip@ == Seq::new(16, |i: int| 0u8)
                && a.port == 0 && a.flowinfo == 0 && a.scope_id == 0,
        },
{
    match ip {
        IpAddr::V4(_) => SocketAddr::V4(SocketAddrV4 { ip: Ipv4Addr::unspecified(), port: 0 }),
        IpAddr::V6(_) => SocketAddr::V6(
            SocketAddrV6 { ip: Ipv6Addr::unspecified(), port: 0, flowinfo: 0, scope_id: 0 },
        ),
    }
}

/// The address that a relay on `port` of the control connection's own `ip` has.
pub open spec fn relay_view(ip: IpAddr, port: u16) -> AddressView {
    match ip {
        IpAddr::V4(a) => AddressView::IPv4(a@, port),
        IpAddr::V6(a) => AddressView::IPv6(a@, port, 0, 0),
    }
}

/// The reply to `UDP ASSOCIATE`: where the client is to send its datagrams.
pub fn associate_reply(local_ip: IpAddr, relay_port: u16) -> (r: BytesMut)
    ensures
        bytes_mut_seq(r) == reply_wire(Reply::Succeeded, relay_view(local_ip, relay_port)),
{
    let relay = match local_ip {
        IpAddr::V4(ip) => SocketAddr::V4(SocketAddrV4 { ip, port: relay_port }),
        IpAddr::V6(ip) => SocketAddr::V6(
            SocketAddrV6 { ip, port: relay_port, flowinfo: 0, scope_id: 0 },
        ),
    };
    encode_reply(Reply::Succeeded, &Address::from(relay))
}

/// What happened to a UDP association.
pub enum RelayEvent<'a> {
    /// A byte arrived on the control connection.
    Control,
    /// The control connection is gone.
    ControlClosed,
    /// The tunnel delivered `data`, sent by `from`.
    Tunnel { data: &'a [u8], from: tunnel::Address },
    /// `src` sent a datagram to the relay socket.
    Client { datagram: &'a [u8], src: SocketAddr },
}

/// What to do about it.
pub enum RelayAction {
    /// Nothing.
    Ignore,
    /// The association is over.
    End,
    /// Send these bytes from the relay socket.
    ToClient(Bytes, SocketAddr),
    /// Send these bytes through the tunnel.
    ToTunnel(Bytes, tunnel::Address),
}

/// The relay of one UDP association. The first peer that sends a datagram is its
/// client; the closure of the control connection ends it, as RFC 1928 mandates.
pub struct UdpRelay {
    pub client: Option<SocketAddr>,
}

impl UdpRelay {
    /// An association that has heard from no client yet.
    pub fn new() -> (r: UdpRelay)
        ensures
            r.client is None,
    {
        UdpRelay { client: None }
    }

    /// The client after `event`: the first sender, once there is one.
    pub open spec fn client_after(self, event: RelayEvent) -> Option<SocketAddr> {
        match (self.client, event) {
            (None, RelayEvent::Client { src, .. }) => Some(src),
            (c, _) => c,
        }
    }

    /// Takes one event. An error ends the association: a datagram of the client
    /// that does not parse, or a sender that SOCKS cannot name. Fragmented
    /// datagrams are dropped, and so is what the tunnel delivers before a client
    /// is known.
    pub fn step(&mut self, event: RelayEvent) -> (r: Result<RelayAction, Error>)
        requires
            event matches RelayEvent::Tunnel { data, .. } ==> data@.len() + 262 <= isize::MAX,
        ensures
            final(self).client == old(self).client_after(event),
            match event {
                RelayEvent::Control => r matches Ok(RelayAction::Ignore),
                RelayEvent::ControlClosed => r matches Ok(RelayAction::End),
                RelayEvent::Tunnel { data, from } => match (old(self).client, from_tunnel(from)) {
                    (None, _) => r matches Ok(RelayAction::Ignore),
                    (Some(_), None) => r matches Err(e) && e.reads(
                        ErrorKind::InvalidData,
                        "domain exceeds maximum length"@,
                    ),
                    (Some(client), Some(a)) => r matches Ok(RelayAction::ToClient(b, to)) && to
                        == client && bytes_seq(b) == udp_wire(a@, data@),
                },
                RelayEvent::Client { datagram, .. } => match decode_udp(datagram@) {
                    Err(m) => r matches Err(e) && e.reads(ErrorKind::InvalidData, m),
                    Ok((frag, a, data)) => if frag != 0 {
                        r matches Ok(RelayAction::Ignore)
                    } else {
                        r matches Ok(RelayAction::ToTunnel(b, to)) && bytes_seq(b) == data && (
                        from_tunnel(to) matches Some(x) && x@ == a)
                    },
                },
            },
    {
        match event {
            RelayEvent::Control => Ok(RelayAction::Ignore),
            RelayEvent::ControlClosed => Ok(RelayAction::End),
            RelayEvent::Tunnel { data, from } => {
                match self.client {
                    None => Ok(RelayAction::Ignore),
                    Some(client) => {
                        let from = match Address::try_from(from) {
                            Ok(a) => a,
                            Err(e) => return Err(e),
                        };
                        Ok(
                            RelayAction::ToClient(
                                UdpPacket::encode_unfragmented(&from, data),
                                client,
                            ),
                        )
                    },
                }
            },
            RelayEvent::Client { datagram, src } => {
                if self.client.is_none() {
                    self.client = Some(src);
                }
                let packet = match UdpPacket::from_buf(Bytes::copy_from_slice(datagram)) {
                    Ok(p) => p,
                    Err(e) => return Err(e),
                };
                if packet.frag != 0 {
                    return Ok(RelayAction::Ignore);
                }
                proof {
                    protocol::laws::law_decoded_address_is_canonical(datagram@.skip(3));
                }
                Ok(RelayAction::ToTunnel(packet.data, tunnel::Address::from(packet.address)))
            },
        }
    }
}

/// Once a client is known it stays the client.
pub proof fn law_client_sticks(relay: UdpRelay, event: RelayEvent)
    ensures
        relay.client is Some ==> relay.client_after(event) == relay.client,
{
}

/// A greeting is version 5, a number, and as many methods. It is answered once all of it
/// is there: with method 0 where that is among them, and with 255 and a refusal where it
/// is not.
pub proof fn law_greeting_is_answered(input: &[u8], r: Negotiation)
    requires
        call_ensures(negotiate_method, (input,), r),
    ensures
        input@.len() < 2 ==> (r matches Negotiation::Need(n) && n == 2 - input@.len()),
        input@.len() >= 2 && input@[0] != 5 ==> (r matches Negotiation::Invalid(e) && e.kind
            == ErrorKind::InvalidData),
        input@.len() >= 2 && input@[0] == 5 && input@.len() < 2 + input@[1] ==> (r
            matches Negotiation::Need(n) && n == 2 + input@[1] - input@.len()),
        input@.len() >= 2 && input@[0] == 5 && input@.len() >= 2 + input@[1] ==> {
            &&& r matches Negotiation::Answer { used, answer, verdict }
            &&& used == 2 + input@[1]
            &&& answer[0] == 5
            &&& verdict is Ok <==> exists|i: int| 2 <= i < 2 + input@[1] && input@[i] == 0
            &&& verdict is Ok <==> answer[1] == 0
            &&& verdict matches Err(e) ==> answer[1] == 255 && e.kind == ErrorKind::PermissionDenied
        },
{
    if let Negotiation::Answer { used, answer, verdict } = r {
        assert(answer[0] == answer@[0] && answer[1] == answer@[1]);
    }
}

/// A request to connect opens a stream to the very destination that it names, a request
/// to associate relays datagrams, and `BIND` is refused with code 7.
pub proof fn law_requests_are_dispatched(request: Request, r: Command)
    requires
        call_ensures(dispatch, (request,), r),
    ensures
        request matches Request::Connect(Address::IPv4(a)) ==> r == Command::Connect(
            tunnel::Address::SocketV4(a),
        ),
        request matches Request::Connect(Address::IPv6(a)) ==> r == Command::Connect(
            tunnel::Address::SocketV6(a),
        ),
        request matches Request::Connect(Address::Domain(d, port)) ==> r == Command::Connect(
            tunnel::Address::Domain(d, port),
        ),
        request is Associate <==> r is Associate,
        request is Bind ==> (r matches Command::Refuse(b) && bytes_mut_seq(b) == seq![
            5u8,
            7,
            0,
            1,
            0,
            0,
            0,
            0,
            0,
            0,
        ]),
{
    if let Command::Refuse(b) = r {
        assert(bytes_mut_seq(b) =~= seq![5u8, 7, 0, 1, 0, 0, 0, 0, 0, 0]);
    }
}

/// The reply to `CONNECT` has code 0 exactly where the tunnel connected. A failure has the
/// code that is closest to it, and 1 where none is. No address is told.
pub proof fn law_connect_reply_tells_the_outcome(failure: Option<&Error>, r: BytesMut)
    requires
        call_ensures(connect_reply, (failure,), r),
    ensures
        ({
            let s = bytes_mut_seq(r);
            &&& s.len() == 10
            &&& s[0] == 5
            &&& s[1] == 0 <==> failure is None
            &&& failure matches Some(e) ==> s[1] == match e.kind {
                ErrorKind::PermissionDenied => 2u8,
                ErrorKind::NetworkUnreachable => 3,
                ErrorKind::HostUnreachable => 4,
                ErrorKind::ConnectionRefused => 5,
                ErrorKind::TimedOut => 6,
                _ => 1,
            }
            &&& s[2] == 0
            &&& s[3] == 1
            &&& forall|i: int| 4 <= i < 10 ==> s[i] == 0
        }),
{
}

/// The reply to `UDP ASSOCIATE` tells the relay's own address and port.
pub proof fn law_associate_reply_tells_the_relay(ip: IpAddr, port: u16, r: BytesMut)
    requires
        call_ensures(associate_reply, (ip, port), r),
    ensures
        ({
            let s = bytes_mut_seq(r);
            &&& s.len() >= 5
            &&& s[0] == 5 && s[1] == 0 && s[2] == 0
            &&& s[s.len() - 2] * 256 + s[s.len() - 1] == port
            &&& ip matches IpAddr::V4(a) ==> s.len() == 10 && s[3] == 1 && forall|i: int|
                0 <= i < 4 ==> s[4 + i] == #[trigger] a.octets[i]
            &&& ip matches IpAddr::V6(a) ==> s.len() == 22 && s[3] == 4 && forall|i: int|
                0 <= i < 16 ==> s[4 + i] == #[trigger] a.octets[i]
        }),
{
    let s = bytes_mut_seq(r);
    match ip {
        IpAddr::V4(a) => {
            assert forall|i: int| 0 <= i < 4 implies s[4 + i] == #[trigger] a.octets[i] by {
                assert(a@[i] == a.octets[i]);
            }
        },
        IpAddr::V6(a) => {
            assert forall|i: int| 0 <= i < 16 implies s[4 + i] == #[trigger] a.octets[i] by {
                assert(a@[i] == a.octets[i]);
            }
        },
    }
}

/// A relay is bound to every address of the family, at a port of the system's choice.
pub proof fn law_relay_is_bound_in_the_family(ip: IpAddr, r: SocketAddr)
    requires
        call_ensures(bind_addr_for, (ip,), r),
    ensures
        ip is V4 ==> (r matches SocketAddr::V4(a) && a.port == 0 && forall|i: int|
            0 <= i < 4 ==> #[trigger] a.ip.octets[i] == 0),
        ip is V6 ==> (r matches SocketAddr::V6(a) && a.port == 0 && a.flowinfo == 0 && a.scope_id
            == 0 && forall|i: int| 0 <= i < 16 ==> #[trigger] a.ip.octets[i] == 0),
{
    match r {
        SocketAddr::V4(a) => {
            assert forall|i: int| 0 <= i < 4 implies #[trigger] a.ip.octets[i] == a.ip@[i] by {}
        },
        SocketAddr::V6(a) => {
            assert forall|i: int| 0 <= i < 16 implies #[trigger] a.ip.octets[i] == a.ip@[i] by {}
        },
    }
}

/// The first peer that sends a datagram is the client from then on, and nothing else makes
/// one.
pub proof fn law_first_sender_is_the_client(
    relay: &mut UdpRelay,
    event: RelayEvent,
    r: Result<RelayAction, Error>,
)
    requires
        call_ensures(UdpRelay::step, (relay, event), r),
    ensures
        old(relay).client is Some ==> final(relay).client == old(relay).client,
        old(relay).client is None ==> match event {
            RelayEvent::Client { src, .. } => final(relay).client == Some(src),
            _ => final(relay).client is None,
        },
        (r matches Ok(RelayAction::End)) <==> event is ControlClosed,
        event is Control ==> (r matches Ok(RelayAction::Ignore)),
{
}

/// What the tunnel delivers goes to the client, with its sender in front, once there is a
/// client; until then it is dropped.
pub proof fn law_tunnel_datagram_reaches_the_client(
    relay: &mut UdpRelay,
    data: &[u8],
    from: tunnel::Address,
    r: Result<RelayAction, Error>,
    sender: Result<Address, Error>,
    expected: Bytes,
)
    requires
        data@.len() + 262 <= isize::MAX,
        call_ensures(UdpRelay::step, (relay, RelayEvent::Tunnel { data, from }), r),
        call_ensures(Address::try_from, (from,), sender),
        sender matches Ok(a) ==> call_ensures(
            UdpPacket::encode_unfragmented,
            (&a, data),
            expected,
        ),
    ensures
        old(relay).client is None ==> (r matches Ok(RelayAction::Ignore)),
        old(relay).client matches Some(client) ==> (r is Ok <==> sender is Ok),
        old(relay).client matches Some(client) && sender is Ok ==> {
            &&& r matches Ok(RelayAction::ToClient(b, to))
            &&& Some(to) == old(relay).client
            &&& bytes_seq(b) == bytes_seq(expected)
        },
{
}

/// A datagram of a client goes through the tunnel, without its header, to the destination
/// that the header names. A fragment is dropped, and what has no such header ends the
/// association.
pub proof fn law_client_datagram_reaches_the_tunnel(
    relay: &mut UdpRelay,
    datagram: &[u8],
    src: SocketAddr,
    r: Result<RelayAction, Error>,
    buf: Bytes,
    parsed: Result<UdpPacket, Error>,
)
    requires
        call_ensures(UdpRelay::step, (relay, RelayEvent::Client { datagram, src }), r),
        bytes_seq(buf) == datagram@,
        call_ensures(UdpPacket::from_buf, (buf,), parsed),
    ensures
        parsed is Ok <==> r is Ok,
        parsed matches Ok(p) ==> {
            &&& p.frag != 0 <==> (r matches Ok(RelayAction::Ignore))
            &&& p.frag == 0 ==> {
                &&& r matches Ok(RelayAction::ToTunnel(b, to))
                &&& bytes_seq(b) == bytes_seq(p.data)
                &&& match (p.address, to) {
                    (Address::IPv4(a), tunnel::Address::SocketV4(t)) => a.ip@ == t.ip@ && a.port
                        == t.port,
                    (Address::IPv6(a), tunnel::Address::SocketV6(t)) => a.ip@ == t.ip@ && a.port
                        == t.port,
                    (Address::Domain(d, port), tunnel::Address::Domain(t, to_port)) => bytes_seq(d)
                        == bytes_seq(t) && port == to_port,
                    _ => false,
                }
            }
        },
        parsed matches Err(e) ==> (r matches Err(f) && f.kind == ErrorKind::InvalidData
            && f.message@ == e.message@),
{
}

/// A failure is told by its code alone: no address is.
pub proof fn law_failure_tells_no_address(reply: Reply, r: BytesMut, code: u8)
    requires
        call_ensures(reply_failure, (reply,), r),
        call_ensures(Reply::as_u8, (&reply,), code),
    ensures
        bytes_mut_seq(r) == seq![5u8, code, 0, 1, 0, 0, 0, 0, 0, 0],
{
    assert(bytes_mut_seq(r) =~= seq![5u8, code, 0, 1, 0, 0, 0, 0, 0, 0]);
}

/// A greeting that is not taken says why.
pub proof fn law_refused_greeting_says_why(input: &[u8], r: Negotiation)
    requires
        call_ensures(negotiate_method, (input,), r),
    ensures
        r matches Negotiation::Invalid(e) ==> e.message@ == "unsupported SOCKS version"@,
        r matches Negotiation::Answer { verdict: Err(e), .. } ==> e.message@
            == "no acceptable authentication method"@,
{
}

/// A new association has no client, and drops what the tunnel delivers.
pub proof fn law_new_association_has_no_client(
    new: UdpRelay,
    relay: &mut UdpRelay,
    data: &[u8],
    from: tunnel::Address,
    r: Result<RelayAction, Error>,
)
    requires
        call_ensures(UdpRelay::new, (), new),
        *old(relay) == new,
        data@.len() + 262 <= isize::MAX,
        call_ensures(UdpRelay::step, (relay, RelayEvent::Tunnel { data, from }), r),
    ensures
        new.client is None,
        r matches Ok(RelayAction::Ignore),
        final(relay).client is None,
{
}

} // verus!
