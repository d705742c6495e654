//! The SOCKS5 wire format of RFC 1928, as far as the endpoint needs it: the
//! method selection, the requests, the replies and the UDP header. `BIND` is
//! parsed, and left for the endpoint to reject.
use bytes::{Bytes, BytesMut};
use vstd::prelude::*;

use crate::address::{socket_text, Ipv4Addr, Ipv6Addr, SocketAddr, SocketAddrV4, SocketAddrV6};
use crate::buf::{
    advance, as_slice, be16, be16_bytes, bytes_mut_seq, bytes_seq, get_array, get_u16, get_u8,
    put_u16, put_u8,
};
use crate::error::{Error, ErrorKind};
use crate::text::{decimal_text, push_decimal};
use crate::tunnel;

pub mod laws;
pub mod method;

verus! {

/// SOCKS protocol version 5.
pub const VERSION: u8 = 0x05;

/// Address type tag of an IPv4 address.
pub const ATYP_IPV4: u8 = 0x01;

/// Address type tag of a domain name.
pub const ATYP_DOMAIN: u8 = 0x03;

/// Address type tag of an IPv6 address.
pub const ATYP_IPV6: u8 = 0x04;

/// Request command: open a stream.
pub const CMD_CONNECT: u8 = 0x01;

/// Request command: wait for a stream.
pub const CMD_BIND: u8 = 0x02;

/// Request command: relay datagrams.
pub const CMD_ASSOCIATE: u8 = 0x03;

/// A SOCKS5 address (`ATYP` + `DST.ADDR` + `DST.PORT`). Domains are raw bytes.
#[derive(Clone, Debug, PartialEq, Eq)]
pub enum Address {
    IPv4(SocketAddrV4),
    IPv6(SocketAddrV6),
    Domain(Bytes, u16),
}

/// An address as a mathematical value: octets, port and, for IPv6, the flow
/// information and the scope, which the wire does not carry.
pub enum AddressView {
    IPv4(Seq<u8>, u16),
    IPv6(Seq<u8>, u16, u32, u32),
    Domain(Seq<u8>, u16),
}

impl View for Address {
    type V = AddressView;

    open spec fn view(&self) -> AddressView {
        match self {
            Address::IPv4(a) => AddressView::IPv4(a.ip@, a.port),
            Address::IPv6(a) => AddressView::IPv6(a.ip@, a.port, a.flowinfo, a.scope_id),
            Address::Domain(d, port) => AddressView::Domain(bytes_seq(*d), *port),
        }
    }
}

impl AddressView {
    /// Whether the wire format can carry this address and give it back: octets
    /// of the family's size, nothing that has no place on the wire, and a domain
    /// whose length fits its octet and is not zero.
    pub open spec fn wire_safe(self) -> bool {
        match self {
            AddressView::IPv4(ip, _) => ip.len() == 4,
            AddressView::IPv6(ip, _, flowinfo, scope_id) => {
                ip.len() == 16 && flowinfo == 0 && scope_id == 0
            },
            AddressView::Domain(d, _) => 1 <= d.len() <= 255,
        }
    }

    /// The bytes of the address on the wire. The length octet of a domain holds
    /// the low eight bits of its length.
    pub open spec fn wire(self) -> Seq<u8> {
        match self {
            AddressView::IPv4(ip, port) => seq![ATYP_IPV4] + ip + be16_bytes(port),
            AddressView::IPv6(ip, port, _, _) => seq![ATYP_IPV6] + ip + be16_bytes(port),
            AddressView::Domain(d, port) => {
                seq![ATYP_DOMAIN, (d.len() % 256) as u8] + d + be16_bytes(port)
            },
        }
    }

    /// How many bytes that is.
    pub open spec fn wire_len(self) -> nat {
        match self {
            AddressView::IPv4(..) => 7,
            AddressView::IPv6(..) => 19,
            AddressView::Domain(d, _) => 4 + d.len(),
        }
    }
}

/// The port in the two bytes of `s` at `i`.
pub open spec fn port_at(s: Seq<u8>, i: int) -> u16 {
    be16(s[i], s[i + 1]) as u16
}

/// The address that starts at `s`, or the message of what is wrong with it, and
/// how many bytes were taken to find out.
pub open spec fn decode_address(s: Seq<u8>) -> (Result<AddressView, Seq<char>>, int) {
    if s.len() < 1 {
        (Err("insufficient data for address type"@), 0)
    } else if s[0] == ATYP_IPV4 {
        if s.len() < 7 {
            (Err("insufficient data for IPv4 address"@), 1)
        } else {
            (Ok(AddressView::IPv4(s.subrange(1, 5), port_at(s, 5))), 7)
        }
    } else if s[0] == ATYP_IPV6 {
        if s.len() < 19 {
            (Err("insufficient data for IPv6 address"@), 1)
        } else {
            (Ok(AddressView::IPv6(s.subrange(1, 17), port_at(s, 17), 0, 0)), 19)
        }
    } else if s[0] == ATYP_DOMAIN {
        if s.len() < 2 {
            (Err("insufficient data for domain length"@), 1)
        } else if s[1] == 0 {
            (Err("empty domain"@), 2)
        } else if s.len() < s[1] + 4 {
            (Err("insufficient data for domain name"@), 2)
        } else {
            (
                Ok(AddressView::Domain(s.subrange(2, s[1] + 2), port_at(s, s[1] + 2))),
                s[1] + 4,
            )
        }
    } else {
        (Err("invalid address type: "@ + decimal_text(s[0] as nat)), 1)
    }
}

fn invalid_data(message: &str) -> (e: Error)
    ensures
        e.reads(ErrorKind::InvalidData, message@),
{
    Error::new(ErrorKind::InvalidData, message)
}

fn invalid_number(message: &str, n: u8) -> (e: Error)
    ensures
        e.reads(ErrorKind::InvalidData, message@ + decimal_text(n as nat)),
{
    let mut text = message.to_owned();
    push_decimal(&mut text, n as u64);
    Error::with_message(ErrorKind::InvalidData, text)
}

impl Address {
    /// The unspecified IPv4 address (`0.0.0.0:0`), used for replies whose bound
    /// address is irrelevant.
    pub fn unspecified() -> (a: Address)
        ensures
            a@ == AddressView::IPv4(seq![0u8, 0, 0, 0], 0),
    {
        Address::IPv4(SocketAddrV4 { ip: Ipv4Addr::unspecified(), port: 0 })
    }

    /// Takes an address off the front of an in-memory buffer.
    pub fn from_buf(buf: &mut Bytes) -> (r: Result<Address, Error>)
        ensures
            match decode_address(bytes_seq(*old(buf))).0 {
                Ok(a) => r matches Ok(x) && x@ == a,
                Err(m) => r matches Err(e) && e.reads(ErrorKind::InvalidData, m),
            },
            bytes_seq(*final(buf)) == bytes_seq(*old(buf)).skip(
                decode_address(bytes_seq(*old(buf))).1,
            ),
    {
        let ghost s = bytes_seq(*buf);
        if buf.len() < 1 {
            assert(s.skip(0) =~= s);
            return Err(invalid_data("insufficient data for address type"));
        }
        let atyp: u8 = get_u8(buf);
        if atyp == ATYP_IPV4 {
            if buf.len() < 6 {
                return Err(invalid_data("insufficient data for IPv4 address"));
            }
            let octets: [u8; 4] = get_array(buf);
            let port: u16 = get_u16(buf);
            assert(octets@ =~= s.subrange(1, 5));
            assert(bytes_seq(*buf) =~= s.skip(7));
            Ok(Address::IPv4(SocketAddrV4 { ip: Ipv4Addr { octets }, port }))
        } else if atyp == ATYP_IPV6 {
            if buf.len() < 18 {
                return Err(invalid_data("insufficient data for IPv6 address"));
            }
            let octets: [u8; 16] = get_array(buf);
            let port: u16 = get_u16(buf);
            assert(octets@ =~= s.subrange(1, 17));
            assert(bytes_seq(*buf) =~= s.skip(19));
            Ok(
                Address::IPv6(
                    SocketAddrV6 { ip: Ipv6Addr { octets }, port, flowinfo: 0, scope_id: 0 },
                ),
            )
        } else if atyp == ATYP_DOMAIN {
            if buf.len() < 1 {
                return Err(invalid_data("insufficient data for domain length"));
            }
            let len: usize = get_u8(buf) as usize;
            assert(bytes_seq(*buf) =~= s.skip(2));
            if len == 0 {
                return Err(invalid_data("empty domain"));
            }
            if buf.len() < len + 2 {
                return Err(invalid_data("insufficient data for domain name"));
            }
            let domain = buf.split_to(len);
            let port: u16 = get_u16(buf);
            assert(bytes_seq(domain) =~= s.subrange(2, s[1] + 2));
            assert(bytes_seq(*buf) =~= s.skip(s[1] + 4));
            Ok(Address::Domain(domain, port))
        } else {
            Err(invalid_number("invalid address type: ", atyp))
        }
    }

    /// Appends the address to `dst`.
    pub fn encode(&self, dst: &mut BytesMut)
        requires
            bytes_mut_seq(*old(dst)).len() + self@.wire_len() <= isize::MAX,
        ensures
            bytes_mut_seq(*final(dst)) == bytes_mut_seq(*old(dst)) + self@.wire(),
    {
        match self {
            Address::IPv4(addr) => {
                put_u8(dst, ATYP_IPV4);
                dst.extend_from_slice(&addr.ip.octets);
                put_u16(dst, addr.port);
            },
            Address::IPv6(addr) => {
                put_u8(dst, ATYP_IPV6);
                dst.extend_from_slice(&addr.ip.octets);
                put_u16(dst, addr.port);
            },
            Address::Domain(domain, port) => {
                put_u8(dst, ATYP_DOMAIN);
                put_u8(dst, (domain.len() % 256) as u8);
                dst.extend_from_slice(as_slice(domain));
                put_u16(dst, *port);
            },
        }
        assert(bytes_mut_seq(*dst) =~= bytes_mut_seq(*old(dst)) + self@.wire());
    }

    /// The address as it is usually written.
    pub open spec fn text(&self) -> Seq<char> {
        match self {
            Address::IPv4(a) => socket_text(SocketAddr::V4(*a)),
            Address::IPv6(a) => socket_text(SocketAddr::V6(*a)),
            Address::Domain(d, port) => tunnel::domain_text(bytes_seq(*d), *port),
        }
    }

    /// The address as it is usually written.
    pub fn to_string(&self) -> (s: String)
        ensures
            s@ == self.text(),
    {
        match self {
            Address::IPv4(a) => SocketAddr::V4(*a).to_text(),
            Address::IPv6(a) => SocketAddr::V6(*a).to_text(),
            Address::Domain(d, port) => tunnel::domain_to_text(d, *port),
        }
    }

    /// Serialized length in bytes.
    pub fn encoded_len(&self) -> (n: usize)
        requires
            self@.wire_len() <= usize::MAX,
        ensures
            n == self@.wire_len(),
            n == self@.wire().len(),
    {
        match self {
            Address::IPv4(_) => 1 + 4 + 2,
            Address::IPv6(_) => 1 + 16 + 2,
            Address::Domain(domain, _) => 1 + 1 + domain.len() + 2,
        }
    }
}

/// How far a stream was understood.
pub enum Read<T> {
    /// A value, and the number of bytes it took.
    Ready(T, usize),
    /// At least this many further bytes are needed.
    Need(usize),
    /// The bytes are no value.
    Invalid(Error),
}

/// [`Read`] as a mathematical value.
pub enum ReadView<T> {
    Ready(T, int),
    Need(int),
    Invalid(Seq<char>),
}

/// What the bytes of a stream received so far say of the address that starts
/// there. Nothing beyond the address is asked for.
pub open spec fn read_address(s: Seq<u8>) -> ReadView<AddressView> {
    let total: int = if s.len() < 1 {
        1
    } else if s[0] == ATYP_IPV4 {
        7
    } else if s[0] == ATYP_IPV6 {
        19
    } else if s[0] != ATYP_DOMAIN {
        1
    } else if s.len() < 2 {
        2
    } else if s[1] == 0 {
        2
    } else {
        s[1] + 4
    };
    if s.len() < total {
        ReadView::Need(total - s.len())
    } else {
        match decode_address(s).0 {
            Ok(a) => ReadView::Ready(a, total),
            Err(m) => ReadView::Invalid(m),
        }
    }
}

impl Read<Address> {
    /// Whether the outcome is the one described.
    pub open spec fn agrees(&self, v: ReadView<AddressView>) -> bool {
        match v {
            ReadView::Ready(a, n) => self matches Read::Ready(x, k) && x@ == a && k == n,
            ReadView::Need(n) => self matches Read::Need(k) && k == n,
            ReadView::Invalid(m) => self matches Read::Invalid(e) && e.reads(
                ErrorKind::InvalidData,
                m,
            ),
        }
    }
}

impl Address {
    /// Reads an address from what a stream has delivered so far.
    pub fn read(input: &[u8]) -> (r: Read<Address>)
        ensures
            r.agrees(read_address(input@)),
    {
        let len: usize = input.len();
        if len < 1 {
            return Read::Need(1);
        }
        let atyp: u8 = input[0];
        let total: usize = if atyp == ATYP_IPV4 {
            7
        } else if atyp == ATYP_IPV6 {
            19
        } else if atyp != ATYP_DOMAIN {
            1
        } else if len < 2 {
            2
        } else if input[1] == 0 {
            2
        } else {
            input[1] as usize + 4
        };
        if len < total {
            return Read::Need(total - len);
        }
        let mut buf = Bytes::copy_from_slice(input);
        match Address::from_buf(&mut buf) {
            Ok(address) => Read::Ready(address, total),
            Err(e) => Read::Invalid(e),
        }
    }

    /// The tunnel form of the address.
    pub open spec fn to_tunnel(self) -> tunnel::Address {
        match self {
            Address::IPv4(a) => tunnel::Address::SocketV4(a),
            Address::IPv6(a) => tunnel::Address::SocketV6(a),
            Address::Domain(d, port) => tunnel::Address::Domain(d, port),
        }
    }

    /// The SOCKS form of a tunnel address. A domain whose length does not fit
    /// its octet has none.
    pub fn try_from(value: tunnel::Address) -> (r: Result<Address, Error>)
        ensures
            match from_tunnel(value) {
                Some(a) => r == Ok::<Address, Error>(a),
                None => r matches Err(e) && e.reads(
                    ErrorKind::InvalidData,
                    "domain exceeds maximum length"@,
                ),
            },
    {
        match value {
            tunnel::Address::SocketV4(addr) => Ok(Address::IPv4(addr)),
            tunnel::Address::SocketV6(addr) => Ok(Address::IPv6(addr)),
            tunnel::Address::Domain(domain, port) => {
                if domain.len() > 255 {
                    return Err(invalid_data("domain exceeds maximum length"));
                }
                Ok(Address::Domain(domain, port))
            },
        }
    }
}

/// The SOCKS form of a tunnel address, where it has one.
pub open spec fn from_tunnel(value: tunnel::Address) -> Option<Address> {
    match value {
        tunnel::Address::SocketV4(a) => Some(Address::IPv4(a)),
        tunnel::Address::SocketV6(a) => Some(Address::IPv6(a)),
        tunnel::Address::Domain(d, port) => if bytes_seq(d).len() > 255 {
            None
        } else {
            Some(Address::Domain(d, port))
        },
    }
}

impl From<SocketAddr> for Address {
    fn from(value: SocketAddr) -> (r: Address) {
        match value {
            SocketAddr::V4(addr) => Address::IPv4(addr),
            SocketAddr::V6(addr) => Address::IPv6(addr),
        }
    }
}

impl vstd::std_specs::convert::FromSpecImpl<SocketAddr> for Address {
    open spec fn obeys_from_spec() -> bool {
        true
    }

    open spec fn from_spec(value: SocketAddr) -> Address {
        match value {
            SocketAddr::V4(addr) => Address::IPv4(addr),
            SocketAddr::V6(addr) => Address::IPv6(addr),
        }
    }
}

impl From<Address> for tunnel::Address {
    fn from(value: Address) -> (r: tunnel::Address) {
        match value {
            Address::IPv4(addr) => tunnel::Address::SocketV4(addr),
            Address::IPv6(addr) => tunnel::Address::SocketV6(addr),
            Address::Domain(domain, port) => tunnel::Address::Domain(domain, port),
        }
    }
}

impl vstd::std_specs::convert::FromSpecImpl<Address> for tunnel::Address {
    open spec fn obeys_from_spec() -> bool {
        true
    }

    open spec fn from_spec(value: Address) -> tunnel::Address {
        value.to_tunnel()
    }
}

/// A SOCKS5 client request.
#[derive(Clone, Debug, PartialEq, Eq)]
pub enum Request {
    Connect(Address),
    Bind(Address),
    Associate(Address),
}

/// What the bytes of a stream received so far say of the request
/// `VER CMD RSV ATYP ADDR PORT`. The version is looked at once the three bytes
/// of the header are there, the command only behind a whole address.
pub open spec fn read_request(s: Seq<u8>) -> ReadView<(u8, AddressView)> {
    if s.len() < 3 {
        ReadView::Need(3 - s.len())
    } else if s[0] != VERSION {
        ReadView::Invalid("unsupported SOCKS version"@)
    } else {
        match read_address(s.skip(3)) {
            ReadView::Need(n) => ReadView::Need(n),
            ReadView::Invalid(m) => ReadView::Invalid(m),
            ReadView::Ready(a, n) => if CMD_CONNECT <= s[1] <= CMD_ASSOCIATE {
                ReadView::Ready((s[1], a), n + 3)
            } else {
                ReadView::Invalid("invalid request command: "@ + decimal_text(s[1] as nat))
            },
        }
    }
}

impl Request {
    /// The command octet and the address.
    pub open spec fn parts(&self) -> (u8, AddressView) {
        match self {
            Request::Connect(a) => (CMD_CONNECT, a@),
            Request::Bind(a) => (CMD_BIND, a@),
            Request::Associate(a) => (CMD_ASSOCIATE, a@),
        }
    }
}

impl Read<Request> {
    /// Whether the outcome is the one described.
    pub open spec fn agrees(&self, v: ReadView<(u8, AddressView)>) -> bool {
        match v {
            ReadView::Ready(p, n) => self matches Read::Ready(x, k) && x.parts() == p && k == n,
            ReadView::Need(n) => self matches Read::Need(k) && k == n,
            ReadView::Invalid(m) => self matches Read::Invalid(e) && e.reads(
                ErrorKind::InvalidData,
                m,
            ),
        }
    }
}

impl Request {
    /// Reads a request from what a stream has delivered so far.
    pub fn read(input: &[u8]) -> (r: Read<Request>)
        ensures
            r.agrees(read_request(input@)),
    {
        let len: usize = input.len();
        if len < 3 {
            return Read::Need(3 - len);
        }
        if input[0] != VERSION {
            return Read::Invalid(invalid_data("unsupported SOCKS version"));
        }
        let rest = vstd::slice::slice_subrange(input, 3, len);
        assert(rest@ =~= input@.skip(3));
        match Address::read(rest) {
            Read::Need(n) => Read::Need(n),
            Read::Invalid(e) => Read::Invalid(e),
            Read::Ready(address, n) => {
                let command: u8 = input[1];
                if command == CMD_CONNECT {
                    Read::Ready(Request::Connect(address), n + 3)
                } else if command == CMD_BIND {
                    Read::Ready(Request::Bind(address), n + 3)
                } else if command == CMD_ASSOCIATE {
                    Read::Ready(Request::Associate(address), n + 3)
                } else {
                    Read::Invalid(invalid_number("invalid request command: ", command))
                }
            },
        }
    }
}

/// A SOCKS5 server reply code.
#[derive(Clone, Copy, Debug, PartialEq, Eq, Structural)]
pub enum Reply {
    Succeeded,
    GeneralFailure,
    ConnectionNotAllowed,
    NetworkUnreachable,
    HostUnreachable,
    ConnectionRefused,
    TtlExpired,
    CommandNotSupported,
}

impl Reply {
    /// The reply's octet.
    pub open spec fn code(self) -> u8 {
        match self {
            Reply::Succeeded => 0x00,
            Reply::GeneralFailure => 0x01,
            Reply::ConnectionNotAllowed => 0x02,
            Reply::NetworkUnreachable => 0x03,
            Reply::HostUnreachable => 0x04,
            Reply::ConnectionRefused => 0x05,
            Reply::TtlExpired => 0x06,
            Reply::CommandNotSupported => 0x07,
        }
    }

    /// The reply's octet.
    pub fn as_u8(&self) -> (n: u8)
        ensures
            n == self.code(),
    {
        match self {
            Reply::Succeeded => 0x00,
            Reply::GeneralFailure => 0x01,
            Reply::ConnectionNotAllowed => 0x02,
            Reply::NetworkUnreachable => 0x03,
            Reply::HostUnreachable => 0x04,
            Reply::ConnectionRefused => 0x05,
            Reply::TtlExpired => 0x06,
            Reply::CommandNotSupported => 0x07,
        }
    }

    /// The reply that comes closest to a failure of that kind.
    pub open spec fn of_kind(kind: ErrorKind) -> Reply {
        match kind {
            ErrorKind::ConnectionRefused => Reply::ConnectionRefused,
            ErrorKind::TimedOut => Reply::TtlExpired,
            ErrorKind::HostUnreachable => Reply::HostUnreachable,
            ErrorKind::NetworkUnreachable => Reply::NetworkUnreachable,
            ErrorKind::PermissionDenied => Reply::ConnectionNotAllowed,
            _ => Reply::GeneralFailure,
        }
    }

    /// Maps a failure met while connecting to the closest reply code.
    pub fn from_connect_error(err: &Error) -> (r: Reply)
        ensures
            r == Reply::of_kind(err.kind),
    {
        match err.kind {
            ErrorKind::ConnectionRefused => Reply::ConnectionRefused,
            ErrorKind::TimedOut => Reply::TtlExpired,
            ErrorKind::HostUnreachable => Reply::HostUnreachable,
            ErrorKind::NetworkUnreachable => Reply::NetworkUnreachable,
            ErrorKind::PermissionDenied => Reply::ConnectionNotAllowed,
            _ => Reply::GeneralFailure,
        }
    }
}

/// The bytes of a server reply `VER REP RSV ATYP BND.ADDR BND.PORT`.
pub open spec fn reply_wire(reply: Reply, address: AddressView) -> Seq<u8> {
    seq![VERSION, reply.code(), 0x00u8] + address.wire()
}

/// Encodes a server reply.
pub fn encode_reply(reply: Reply, address: &Address) -> (bytes: BytesMut)
    requires
        3 + address@.wire_len() <= isize::MAX,
    ensures
        bytes_mut_seq(bytes) == reply_wire(reply, address@),
{
    let mut bytes = BytesMut::with_capacity(3 + address.encoded_len());
    put_u8(&mut bytes, VERSION);
    put_u8(&mut bytes, reply.as_u8());
    put_u8(&mut bytes, 0x00);
    assert(bytes_mut_seq(bytes) =~= seq![VERSION, reply.code(), 0x00u8]);
    address.encode(&mut bytes);
    bytes
}

/// A SOCKS5 UDP request/response header plus payload.
///
/// ```text
///  +-----+------+------+----------+----------+----------+
///  | RSV | FRAG | ATYP | DST.ADDR | DST.PORT |   DATA   |
///  +-----+------+------+----------+----------+----------+
///  |  2  |  1   |  1   | Variable |    2     | Variable |
///  +-----+------+------+----------+----------+----------+
/// ```
#[derive(Clone, Debug)]
pub struct UdpPacket {
    pub frag: u8,
    pub address: Address,
    pub data: Bytes,
}

/// The fragment number, the address and the payload of a UDP datagram, or the
/// message of what is wrong with it.
pub open spec fn decode_udp(s: Seq<u8>) -> Result<(u8, AddressView, Seq<u8>), Seq<char>> {
    if s.len() < 3 {
        Err("insufficient data for UDP header"@)
    } else {
        match decode_address(s.skip(3)) {
            (Ok(a), n) => Ok((s[2], a, s.skip(3 + n))),
            (Err(m), _) => Err(m),
        }
    }
}

/// The bytes of an unfragmented UDP datagram.
pub open spec fn udp_wire(address: AddressView, data: Seq<u8>) -> Seq<u8> {
    seq![0u8, 0u8, 0u8] + address.wire() + data
}

impl UdpPacket {
    /// The packet as a mathematical value.
    pub open spec fn parts(&self) -> (u8, AddressView, Seq<u8>) {
        (self.frag, self.address@, bytes_seq(self.data))
    }

    /// Parses a UDP datagram.
    pub fn from_buf(buf: Bytes) -> (r: Result<UdpPacket, Error>)
        ensures
            match decode_udp(bytes_seq(buf)) {
                Ok(p) => r matches Ok(x) && x.parts() == p,
                Err(m) => r matches Err(e) && e.reads(ErrorKind::InvalidData, m),
            },
    {
        let ghost s = bytes_seq(buf);
        let mut buf = buf;
        if buf.len() < 3 {
            return Err(invalid_data("insufficient data for UDP header"));
        }
        advance(&mut buf, 2);
        let frag: u8 = get_u8(&mut buf);
        assert(bytes_seq(buf) =~= s.skip(3));
        match Address::from_buf(&mut buf) {
            Ok(address) => {
                assert(bytes_seq(buf) =~= s.skip(3 + decode_address(s.skip(3)).1));
                Ok(UdpPacket { frag, address, data: buf })
            },
            Err(e) => Err(e),
        }
    }

    /// Builds an unfragmented UDP datagram.
    pub fn encode_unfragmented(address: &Address, data: &[u8]) -> (r: Bytes)
        requires
            3 + address@.wire_len() + data@.len() <= isize::MAX,
        ensures
            bytes_seq(r) == udp_wire(address@, data@),
    {
        let mut bytes = BytesMut::with_capacity(3 + address.encoded_len() + data.len());
        put_u8(&mut bytes, 0x00);
        put_u8(&mut bytes, 0x00);
        put_u8(&mut bytes, 0x00);
        assert(bytes_mut_seq(bytes) =~= seq![0u8, 0u8, 0u8]);
        address.encode(&mut bytes);
        bytes.extend_from_slice(data);
        bytes.freeze()
    }
}

} // verus!
