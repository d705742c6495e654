//! What the wire format promises as a whole.
use bytes::{Bytes, BytesMut};
use vstd::prelude::*;

use crate::address::SocketAddr;
use crate::buf::{be16, be16_bytes, bytes_mut_seq, bytes_seq};
use crate::error::{Error, ErrorKind};
use crate::text::{decimal_text, is_numeral, lemma_digits_read_back, number_of};
use crate::tunnel;

use super::{
    decode_address, decode_udp, encode_reply, from_tunnel, read_address, read_request, reply_wire,
    udp_wire, Address, AddressView, Read, ReadView, Reply, Request, UdpPacket, CMD_ASSOCIATE,
    CMD_CONNECT, VERSION,
};

verus! {

proof fn lemma_port_round_trip(port: u16)
    ensures
        be16(be16_bytes(port)[0], be16_bytes(port)[1]) == port,
{
}

/// Decoding what was encoded gives the address back, takes exactly its bytes
/// and leaves what follows them.
pub proof fn law_address_round_trip(a: AddressView, rest: Seq<u8>)
    requires
        a.wire_safe(),
    ensures
        decode_address(a.wire() + rest) == (Ok::<AddressView, Seq<char>>(a), a.wire_len() as int),
        a.wire().len() == a.wire_len(),
        (a.wire() + rest).skip(a.wire_len() as int) == rest,
{
    let s = a.wire() + rest;
    match a {
        AddressView::IPv4(ip, port) => {
            lemma_port_round_trip(port);
            assert(s.subrange(1, 5) =~= ip);
            assert(s[5] == be16_bytes(port)[0] && s[6] == be16_bytes(port)[1]);
        },
        AddressView::IPv6(ip, port, _, _) => {
            lemma_port_round_trip(port);
            assert(s.subrange(1, 17) =~= ip);
            assert(s[17] == be16_bytes(port)[0] && s[18] == be16_bytes(port)[1]);
        },
        AddressView::Domain(d, port) => {
            lemma_port_round_trip(port);
            assert(s[1] == d.len());
            assert(s.subrange(2, s[1] + 2) =~= d);
            assert(s[s[1] + 2] == be16_bytes(port)[0] && s[s[1] + 3] == be16_bytes(port)[1]);
        },
    }
    assert(s.skip(a.wire_len() as int) =~= rest);
}

/// Whatever decodes is an address that the wire can carry, and encoding it gives
/// the bytes back that it was decoded from.
pub proof fn law_decoded_address_is_canonical(s: Seq<u8>)
    ensures
        decode_address(s).0 matches Ok(a) ==> a.wire_safe() && a.wire() == s.take(
            decode_address(s).1,
        ) && decode_address(s).1 == a.wire_len(),
{
    if let Ok(a) = decode_address(s).0 {
        assert(a.wire() =~= s.take(decode_address(s).1));
    }
}

/// A stream and a buffer that hold the same bytes give the same address.
pub proof fn law_read_agrees_with_decode(s: Seq<u8>)
    ensures
        read_address(s) matches ReadView::Ready(a, n) ==> decode_address(s) == (
            Ok::<AddressView, Seq<char>>(a),
            n,
        ),
        decode_address(s).0 matches Ok(a) ==> read_address(s) == ReadView::Ready(
            a,
            decode_address(s).1,
        ),
        read_address(s) matches ReadView::Invalid(m) ==> decode_address(s).0
            == Err::<AddressView, Seq<char>>(m),
{
}

/// Of an address that arrives piecemeal, every proper prefix asks for more, and
/// never for more than is still to come.
pub proof fn law_read_prefix_asks_for_more(a: AddressView, k: int)
    requires
        a.wire_safe(),
        0 <= k < a.wire_len(),
    ensures
        read_address(a.wire().take(k)) matches ReadView::Need(n) && 1 <= n <= a.wire_len() - k,
{
    let s = a.wire().take(k);
    assert(s.len() == k);
    if k >= 1 {
        assert(s[0] == a.wire()[0]);
    }
    if k >= 2 {
        assert(s[1] == a.wire()[1]);
    }
}

/// A request is read back from its bytes, and exactly its bytes are taken.
pub proof fn law_request_round_trip(command: u8, a: AddressView, rest: Seq<u8>)
    requires
        CMD_CONNECT <= command <= CMD_ASSOCIATE,
        a.wire_safe(),
    ensures
        read_request(seq![VERSION, command, 0u8] + a.wire() + rest) == ReadView::Ready(
            (command, a),
            a.wire_len() as int + 3,
        ),
{
    let s = seq![VERSION, command, 0u8] + a.wire() + rest;
    assert(s.skip(3) =~= a.wire() + rest);
    law_address_round_trip(a, rest);
    law_read_agrees_with_decode(a.wire() + rest);
}

/// A UDP datagram that was built unfragmented is parsed back as it was.
pub proof fn law_udp_round_trip(a: AddressView, data: Seq<u8>)
    requires
        a.wire_safe(),
    ensures
        decode_udp(udp_wire(a, data)) == Ok::<(u8, AddressView, Seq<u8>), Seq<char>>((0u8, a, data)),
{
    let s = udp_wire(a, data);
    assert(s.skip(3) =~= a.wire() + data);
    law_address_round_trip(a, data);
    assert(s.skip(3 + a.wire_len() as int) =~= data);
}

/// A SOCKS address that went into the tunnel comes out of it unchanged, unless
/// its domain is longer than a SOCKS address can say.
pub proof fn law_tunnel_round_trip(a: Address)
    requires
        a@ matches AddressView::Domain(d, _) ==> d.len() <= 255,
    ensures
        from_tunnel(a.to_tunnel()) == Some(a),
{
}

/// A tunnel address that has a SOCKS form is the tunnel form of it.
pub proof fn law_socks_round_trip(t: tunnel::Address)
    ensures
        from_tunnel(t) matches Some(a) ==> a.to_tunnel() == t,
{
}

/// Two replies with the same octet are the same reply.
pub proof fn law_reply_codes_differ(x: Reply, y: Reply)
    requires
        x.code() == y.code(),
    ensures
        x == y,
{
}

/// Only a failure is ever mapped to a reply, never success.
pub proof fn law_failure_is_never_success(kind: ErrorKind)
    ensures
        Reply::of_kind(kind) != Reply::Succeeded,
{
}

/// A client reads the reply's code and its bound address from the reply's bytes.
pub proof fn law_reply_carries_code_and_address(reply: Reply, a: AddressView)
    requires
        a.wire_safe(),
    ensures
        reply_wire(reply, a)[0] == VERSION,
        reply_wire(reply, a)[1] == reply.code(),
        decode_address(reply_wire(reply, a).skip(3)) == (
            Ok::<AddressView, Seq<char>>(a),
            a.wire_len() as int,
        ),
{
    assert(reply_wire(reply, a).skip(3) =~= a.wire() + Seq::<u8>::empty());
    law_address_round_trip(a, Seq::empty());
}

/// The port that two bytes stand for, the high one first.
pub open spec fn port_of(high: u8, low: u8) -> int {
    high * 256 + low
}

/// Whether these are the bytes that RFC 1928 has for an address: the type, the address
/// itself, and the port with the high byte first. A domain comes with its length.
pub open spec fn is_rfc1928(s: Seq<u8>, a: Address) -> bool {
    match a {
        Address::IPv4(x) => {
            &&& s.len() == 7
            &&& s[0] == 1
            &&& forall|i: int| 0 <= i < 4 ==> #[trigger] x.ip.octets[i] == s[1 + i]
            &&& port_of(s[5], s[6]) == x.port
        },
        Address::IPv6(x) => {
            &&& s.len() == 19
            &&& s[0] == 4
            &&& forall|i: int| 0 <= i < 16 ==> #[trigger] x.ip.octets[i] == s[1 + i]
            &&& port_of(s[17], s[18]) == x.port
        },
        Address::Domain(d, port) => {
            &&& s.len() == 4 + bytes_seq(d).len()
            &&& s[0] == 3
            &&& bytes_seq(d).len() <= 255 ==> s[1] == bytes_seq(d).len()
            &&& forall|i: int|
                0 <= i < bytes_seq(d).len() ==> #[trigger] bytes_seq(d)[i] == s[2 + i]
            &&& port_of(s[s.len() - 2], s[s.len() - 1]) == port
        },
    }
}

/// What an address is encoded as are the bytes of RFC 1928, behind what was there.
pub proof fn law_encoded_bytes_are_rfc1928(a: &Address, dst: &mut BytesMut)
    requires
        call_ensures(Address::encode, (a, dst), ()),
    ensures
        bytes_mut_seq(*final(dst)).take(bytes_mut_seq(*old(dst)).len() as int) == bytes_mut_seq(
            *old(dst),
        ),
        is_rfc1928(bytes_mut_seq(*final(dst)).skip(bytes_mut_seq(*old(dst)).len() as int), *a),
{
    let n = bytes_mut_seq(*old(dst)).len() as int;
    let s = bytes_mut_seq(*final(dst)).skip(n);
    assert(bytes_mut_seq(*final(dst)).take(n) =~= bytes_mut_seq(*old(dst)));
    assert(s =~= a@.wire());
    match *a {
        Address::IPv4(x) => {
            assert forall|i: int| 0 <= i < 4 implies #[trigger] x.ip.octets[i] == s[1 + i] by {
                assert(x.ip@[i] == x.ip.octets[i]);
            }
        },
        Address::IPv6(x) => {
            assert forall|i: int| 0 <= i < 16 implies #[trigger] x.ip.octets[i] == s[1 + i] by {
                assert(x.ip@[i] == x.ip.octets[i]);
            }
        },
        Address::Domain(..) => {},
    }
}

proof fn lemma_wire_is_rfc1928(a: Address)
    ensures
        is_rfc1928(a@.wire(), a),
{
    let s = a@.wire();
    match a {
        Address::IPv4(x) => {
            assert forall|i: int| 0 <= i < 4 implies #[trigger] x.ip.octets[i] == s[1 + i] by {
                assert(x.ip@[i] == x.ip.octets[i]);
            }
        },
        Address::IPv6(x) => {
            assert forall|i: int| 0 <= i < 16 implies #[trigger] x.ip.octets[i] == s[1 + i] by {
                assert(x.ip@[i] == x.ip.octets[i]);
            }
        },
        Address::Domain(..) => {},
    }
}

/// An IPv4 address is written as 1, its four octets, and the port, the high byte first.
pub proof fn law_ipv4_is_written_in_network_order(a: &Address, dst: &mut BytesMut)
    requires
        call_ensures(Address::encode, (a, dst), ()),
        a is IPv4,
    ensures
        ({
            let n = bytes_mut_seq(*old(dst)).len() as int;
            let s = bytes_mut_seq(*final(dst));
            &&& a matches Address::IPv4(x)
            &&& s.len() == n + 7
            &&& s[n] == 1
            &&& forall|i: int| 0 <= i < 4 ==> s[n + 1 + i] == #[trigger] x.ip.octets[i]
            &&& s[n + 5] == x.port as int / 256
            &&& s[n + 6] == x.port as int % 256
        }),
{
    let n = bytes_mut_seq(*old(dst)).len() as int;
    let s = bytes_mut_seq(*final(dst));
    law_encoded_bytes_are_rfc1928(a, dst);
    assert forall|i: int| 0 <= i < 7 implies s[n + i] == #[trigger] s.skip(n)[i] by {}
    assert(s.skip(n)[0] == 1 && port_of(s.skip(n)[5], s.skip(n)[6]) == a->IPv4_0.port);
    assert forall|i: int| 0 <= i < 4 implies s[n + 1 + i] == #[trigger] a->IPv4_0.ip.octets[i] by {
        assert(s.skip(n)[1 + i] == s[n + (1 + i)]);
    }
}

/// An IPv6 address is written as 4, its sixteen octets, and the port, the high byte first.
pub proof fn law_ipv6_is_written_in_network_order(a: &Address, dst: &mut BytesMut)
    requires
        call_ensures(Address::encode, (a, dst), ()),
        a is IPv6,
    ensures
        ({
            let n = bytes_mut_seq(*old(dst)).len() as int;
            let s = bytes_mut_seq(*final(dst));
            &&& a matches Address::IPv6(x)
            &&& s.len() == n + 19
            &&& s[n] == 4
            &&& forall|i: int| 0 <= i < 16 ==> s[n + 1 + i] == #[trigger] x.ip.octets[i]
            &&& s[n + 17] == x.port as int / 256
            &&& s[n + 18] == x.port as int % 256
        }),
{
    let n = bytes_mut_seq(*old(dst)).len() as int;
    let s = bytes_mut_seq(*final(dst));
    law_encoded_bytes_are_rfc1928(a, dst);
    assert forall|i: int| 0 <= i < 19 implies s[n + i] == #[trigger] s.skip(n)[i] by {}
    assert(s.skip(n)[0] == 4 && port_of(s.skip(n)[17], s.skip(n)[18]) == a->IPv6_0.port);
    assert forall|i: int| 0 <= i < 16 implies s[n + 1 + i] == #[trigger] a->IPv6_0.ip.octets[i] by {
        assert(s.skip(n)[1 + i] == s[n + (1 + i)]);
    }
}

/// A domain is written as 3, its length, its bytes, and the port, the high byte first.
pub proof fn law_domain_is_written_in_network_order(a: &Address, dst: &mut BytesMut)
    requires
        call_ensures(Address::encode, (a, dst), ()),
        a matches Address::Domain(d, _) && bytes_seq(*d).len() <= 255,
    ensures
        ({
            let n = bytes_mut_seq(*old(dst)).len() as int;
            let s = bytes_mut_seq(*final(dst));
            &&& a matches Address::Domain(d, port)
            &&& s.len() == n + 4 + bytes_seq(*d).len()
            &&& s[n] == 3
            &&& s[n + 1] == bytes_seq(*d).len()
            &&& s.subrange(n + 2, s.len() - 2) == bytes_seq(*d)
            &&& s[s.len() - 2] == *port as int / 256
            &&& s[s.len() - 1] == *port as int % 256
        }),
{
    let n = bytes_mut_seq(*old(dst)).len() as int;
    let s = bytes_mut_seq(*final(dst));
    law_encoded_bytes_are_rfc1928(a, dst);
    let t = s.skip(n);
    let d = bytes_seq(a->Domain_0);
    assert(s[n] == t[0] && s[n + 1] == t[1]);
    assert(s[s.len() - 2] == t[t.len() - 2] && s[s.len() - 1] == t[t.len() - 1]);
    assert(s.subrange(n + 2, s.len() - 2) =~= d) by {
        assert forall|i: int| 0 <= i < d.len() implies s[n + 2 + i] == #[trigger] d[i] by {
            assert(t[2 + i] == s[n + (2 + i)]);
        }
    }
}

/// Octets behind a 1 are an IPv4 address: four of them, and two of the port, the high one
/// first. What follows stays.
pub proof fn law_ipv4_is_read_in_network_order(buf: &mut Bytes, r: Result<Address, Error>)
    requires
        call_ensures(Address::from_buf, (buf,), r),
        bytes_seq(*old(buf)).len() >= 7,
        bytes_seq(*old(buf))[0] == 1,
    ensures
        ({
            let s = bytes_seq(*old(buf));
            &&& r matches Ok(Address::IPv4(x))
            &&& forall|i: int| 0 <= i < 4 ==> #[trigger] x.ip.octets[i] == s[1 + i]
            &&& x.port == s[5] * 256 + s[6]
            &&& bytes_seq(*final(buf)) == s.skip(7)
        }),
{
    law_decoded_bytes_are_rfc1928(buf, r);
    let s = bytes_seq(*old(buf));
    let n = s.len() - bytes_seq(*final(buf)).len();
    assert(s.take(n)[0] == s[0]);
    assert(bytes_seq(*final(buf)) =~= s.skip(7));
}

/// Octets behind a 4 are an IPv6 address: sixteen of them, and two of the port, the high
/// one first. What follows stays.
pub proof fn law_ipv6_is_read_in_network_order(buf: &mut Bytes, r: Result<Address, Error>)
    requires
        call_ensures(Address::from_buf, (buf,), r),
        bytes_seq(*old(buf)).len() >= 19,
        bytes_seq(*old(buf))[0] == 4,
    ensures
        ({
            let s = bytes_seq(*old(buf));
            &&& r matches Ok(Address::IPv6(x))
            &&& forall|i: int| 0 <= i < 16 ==> #[trigger] x.ip.octets[i] == s[1 + i]
            &&& x.port == s[17] * 256 + s[18]
            &&& x.flowinfo == 0
            &&& x.scope_id == 0
            &&& bytes_seq(*final(buf)) == s.skip(19)
        }),
{
    law_decoded_bytes_are_rfc1928(buf, r);
    let s = bytes_seq(*old(buf));
    let n = s.len() - bytes_seq(*final(buf)).len();
    assert(s.take(n)[0] == s[0]);
    assert(bytes_seq(*final(buf)) =~= s.skip(19));
}

/// Octets behind a 3 are a domain: its length, as many bytes, and two of the port, the
/// high one first. What follows stays.
pub proof fn law_domain_is_read_in_network_order(buf: &mut Bytes, r: Result<Address, Error>)
    requires
        call_ensures(Address::from_buf, (buf,), r),
        bytes_seq(*old(buf)).len() >= 5,
        bytes_seq(*old(buf))[0] == 3,
        0 < bytes_seq(*old(buf))[1] <= bytes_seq(*old(buf)).len() - 4,
    ensures
        ({
            let s = bytes_seq(*old(buf));
            let k = s[1] as int;
            &&& r matches Ok(Address::Domain(d, port))
            &&& bytes_seq(d) == s.subrange(2, 2 + k)
            &&& port == s[2 + k] * 256 + s[3 + k]
            &&& bytes_seq(*final(buf)) == s.skip(4 + k)
        }),
{
    law_decoded_bytes_are_rfc1928(buf, r);
    let s = bytes_seq(*old(buf));
    let k = s[1] as int;
    let n = s.len() - bytes_seq(*final(buf)).len();
    let t = s.take(n);
    assert(t[0] == s[0]);
    if let Ok(Address::Domain(d, port)) = r {
        assert(n == 4 + bytes_seq(d).len());
        assert(n == 4 + k) by {
            assert(decode_address(s).1 == n);
        }
        assert(bytes_seq(d) =~= s.subrange(2, 2 + k)) by {
            assert forall|i: int| 0 <= i < k implies #[trigger] bytes_seq(d)[i] == s[2 + i] by {
                assert(bytes_seq(d)[i] == t[2 + i]);
            }
        }
        assert(t[2 + k] == s[2 + k] && t[3 + k] == s[3 + k]);
        assert(bytes_seq(*final(buf)) =~= s.skip(4 + k));
    }
}

/// How many bytes RFC 1928 has for the address that begins here, as far as the bytes
/// tell: `None` where the type is none, or a domain is empty.
pub open spec fn rfc1928_len(s: Seq<u8>) -> Option<int> {
    if s.len() == 0 {
        Some(1)
    } else if s[0] == 1 {
        Some(7)
    } else if s[0] == 4 {
        Some(19)
    } else if s[0] == 3 && s.len() == 1 {
        Some(2)
    } else if s[0] == 3 && s[1] > 0 {
        Some(4 + s[1])
    } else {
        None
    }
}

/// What is decoded was there as the bytes of RFC 1928; they are taken off the buffer, and
/// what follows them stays. An address is decoded wherever all its bytes are there.
pub proof fn law_decoded_bytes_are_rfc1928(buf: &mut Bytes, r: Result<Address, Error>)
    requires
        call_ensures(Address::from_buf, (buf,), r),
    ensures
        ({
            let s = bytes_seq(*old(buf));
            let rest = bytes_seq(*final(buf));
            &&& r is Ok <==> (rfc1928_len(s) matches Some(n) && s.len() >= 7 && n <= s.len()) || (
            s.len() >= 5 && s[0] == 3 && s[1] > 0 && 4 + s[1] <= s.len())
            &&& r matches Ok(a) ==> {
                let n = s.len() - rest.len();
                &&& s == s.take(n) + rest
                &&& is_rfc1928(s.take(n), a)
                &&& a matches Address::IPv6(x) ==> x.flowinfo == 0 && x.scope_id == 0
            }
            &&& r matches Err(e) ==> e.kind == ErrorKind::InvalidData
        }),
{
    let s = bytes_seq(*old(buf));
    let rest = bytes_seq(*final(buf));
    if let Ok(a) = r {
        let n = decode_address(s).1;
        law_decoded_address_is_canonical(s);
        assert(rest == s.skip(n));
        assert(s.take(n) + s.skip(n) =~= s);
        assert(a@.wire() == s.take(n));
        lemma_wire_is_rfc1928(a);
    }
}

/// An address is read off a stream from the bytes of RFC 1928, as soon as the last of them
/// is there and not before; what is missing is asked for.
pub proof fn law_read_bytes_are_rfc1928(input: &[u8], r: Read<Address>)
    requires
        call_ensures(Address::read, (input,), r),
    ensures
        match rfc1928_len(input@) {
            None => r matches Read::Invalid(e) && e.kind == ErrorKind::InvalidData,
            Some(n) => if input@.len() < n {
                r matches Read::Need(k) && k == n - input@.len()
            } else {
                r matches Read::Ready(a, k) && k == n && is_rfc1928(input@.take(n), a)
            },
        },
{
    let s = input@;
    law_decoded_address_is_canonical(s);
    if let Read::Ready(a, k) = r {
        lemma_wire_is_rfc1928(a);
    }
}

/// A request is its version 5, a command, a byte that says nothing, and an address: 1 is
/// `CONNECT`, 2 is `BIND` and 3 is `UDP ASSOCIATE`.
pub proof fn law_request_bytes_are_rfc1928(input: &[u8], r: Read<Request>)
    requires
        call_ensures(Request::read, (input,), r),
    ensures
        input@.len() < 3 ==> (r matches Read::Need(k) && k == 3 - input@.len()),
        input@.len() >= 3 && input@[0] != 5 ==> r is Invalid,
        input@.len() >= 3 && input@[0] == 5 ==> match rfc1928_len(input@.skip(3)) {
            None => r is Invalid,
            Some(n) => if input@.len() < 3 + n {
                r matches Read::Need(k) && k == 3 + n - input@.len()
            } else if input@[1] == 1 {
                r matches Read::Ready(Request::Connect(a), k) && k == 3 + n && is_rfc1928(
                    input@.subrange(3, 3 + n),
                    a,
                )
            } else if input@[1] == 2 {
                r matches Read::Ready(Request::Bind(a), k) && k == 3 + n && is_rfc1928(
                    input@.subrange(3, 3 + n),
                    a,
                )
            } else if input@[1] == 3 {
                r matches Read::Ready(Request::Associate(a), k) && k == 3 + n && is_rfc1928(
                    input@.subrange(3, 3 + n),
                    a,
                )
            } else {
                r is Invalid
            },
        },
        r matches Read::Invalid(e) ==> e.kind == ErrorKind::InvalidData,
{
    let s = input@;
    if s.len() >= 3 && s[0] == 5 {
        let t = s.skip(3);
        law_decoded_address_is_canonical(t);
        if let Read::Ready(q, k) = r {
            let a = match q {
                Request::Connect(a) => a,
                Request::Bind(a) => a,
                Request::Associate(a) => a,
            };
            lemma_wire_is_rfc1928(a);
            assert(t.take(k - 3) =~= s.subrange(3, k as int));
        }
    }
}

/// A reply is version 5, its code, a zero and the bound address.
pub proof fn law_reply_bytes_are_rfc1928(reply: Reply, a: &Address, r: BytesMut)
    requires
        call_ensures(encode_reply, (reply, a), r),
    ensures
        ({
            let s = bytes_mut_seq(r);
            &&& s.len() >= 3
            &&& s[0] == 5
            &&& s[1] == match reply {
                Reply::Succeeded => 0u8,
                Reply::GeneralFailure => 1,
                Reply::ConnectionNotAllowed => 2,
                Reply::NetworkUnreachable => 3,
                Reply::HostUnreachable => 4,
                Reply::ConnectionRefused => 5,
                Reply::TtlExpired => 6,
                Reply::CommandNotSupported => 7,
            }
            &&& s[2] == 0
            &&& is_rfc1928(s.skip(3), *a)
        }),
{
    assert(bytes_mut_seq(r).skip(3) =~= a@.wire());
    lemma_wire_is_rfc1928(*a);
}

/// A failure to connect has the code that is closest to it.
pub proof fn law_failures_have_their_codes(e: &Error, r: Reply)
    requires
        call_ensures(Reply::from_connect_error, (e,), r),
    ensures
        r == Reply::ConnectionRefused <==> e.kind == ErrorKind::ConnectionRefused,
        r == Reply::TtlExpired <==> e.kind == ErrorKind::TimedOut,
        r == Reply::HostUnreachable <==> e.kind == ErrorKind::HostUnreachable,
        r == Reply::NetworkUnreachable <==> e.kind == ErrorKind::NetworkUnreachable,
        r == Reply::ConnectionNotAllowed <==> e.kind == ErrorKind::PermissionDenied,
        r != Reply::Succeeded,
        r != Reply::CommandNotSupported,
{
}

/// The code of a reply is the one that is written.
pub proof fn law_code_is_written(reply: &Reply, n: u8)
    requires
        call_ensures(Reply::as_u8, (reply,), n),
    ensures
        n <= 7,
        n == 0 <==> *reply == Reply::Succeeded,
        n == 1 <==> *reply == Reply::GeneralFailure,
        n == 2 <==> *reply == Reply::ConnectionNotAllowed,
        n == 3 <==> *reply == Reply::NetworkUnreachable,
        n == 4 <==> *reply == Reply::HostUnreachable,
        n == 5 <==> *reply == Reply::ConnectionRefused,
        n == 6 <==> *reply == Reply::TtlExpired,
        n == 7 <==> *reply == Reply::CommandNotSupported,
{
}

/// A UDP header is two bytes that say nothing, the number of the fragment, and the
/// address; the rest is the payload.
pub proof fn law_udp_bytes_are_rfc1928(buf: Bytes, r: Result<UdpPacket, Error>)
    requires
        call_ensures(UdpPacket::from_buf, (buf,), r),
    ensures
        ({
            let s = bytes_seq(buf);
            &&& s.len() < 3 ==> r is Err
            &&& r matches Ok(p) ==> {
                let n = s.len() - bytes_seq(p.data).len();
                &&& p.frag == s[2]
                &&& n >= 3
                &&& is_rfc1928(s.subrange(3, n), p.address)
                &&& s.skip(n) == bytes_seq(p.data)
            }
            &&& s.len() >= 10 && s[3] == 1 ==> r is Ok
            &&& s.len() >= 22 && s[3] == 4 ==> r is Ok
            &&& s.len() >= 8 && s[3] == 3 && s[4] > 0 && s.len() >= 7 + s[4] ==> r is Ok
            &&& r matches Err(e) ==> e.kind == ErrorKind::InvalidData
        }),
{
    let s = bytes_seq(buf);
    if s.len() >= 3 {
        let t = s.skip(3);
        law_decoded_address_is_canonical(t);
        if let Ok(p) = r {
            let k = decode_address(t).1;
            lemma_wire_is_rfc1928(p.address);
            assert(t.take(k) =~= s.subrange(3, 3 + k));
        }
    }
}

/// An unfragmented UDP datagram begins with three zeros; the address and the payload
/// follow.
pub proof fn law_written_udp_bytes_are_rfc1928(a: &Address, data: &[u8], r: Bytes)
    requires
        call_ensures(UdpPacket::encode_unfragmented, (a, data), r),
    ensures
        ({
            let s = bytes_seq(r);
            let n = s.len() - data@.len();
            &&& n >= 3
            &&& s[0] == 0 && s[1] == 0 && s[2] == 0
            &&& is_rfc1928(s.subrange(3, n), *a)
            &&& s.skip(n) == data@
        }),
{
    let s = bytes_seq(r);
    let n = s.len() - data@.len();
    assert(s.subrange(3, n) =~= a@.wire());
    assert(s.skip(n) =~= data@);
    lemma_wire_is_rfc1928(*a);
}

/// What the tunnel is asked for is what the SOCKS client asked for, and the other way
/// round; only a domain that is too long for SOCKS has no SOCKS form.
pub proof fn law_tunnel_form_keeps_the_address(t: tunnel::Address, r: Result<Address, Error>)
    requires
        call_ensures(Address::try_from, (t,), r),
    ensures
        match t {
            tunnel::Address::SocketV4(x) => r == Ok::<Address, Error>(Address::IPv4(x)),
            tunnel::Address::SocketV6(x) => r == Ok::<Address, Error>(Address::IPv6(x)),
            tunnel::Address::Domain(d, port) => if bytes_seq(d).len() <= 255 {
                r == Ok::<Address, Error>(Address::Domain(d, port))
            } else {
                r matches Err(e) && e.kind == ErrorKind::InvalidData
            },
        },
{
}

/// The length that is announced for an address is the number of bytes that RFC 1928 has
/// for it.
pub proof fn law_encoded_len_counts_the_bytes(a: &Address, n: usize, s: Seq<u8>)
    requires
        call_ensures(Address::encoded_len, (a,), n),
        is_rfc1928(s, *a),
    ensures
        n == s.len(),
{
}

/// A SOCKS address goes through the tunnel as the same address, and comes from a socket as
/// the same address.
pub proof fn law_conversions_keep_the_address(
    a: Address,
    t: tunnel::Address,
    s: SocketAddr,
    b: Address,
)
    requires
        call_ensures(<tunnel::Address as From<Address>>::from, (a,), t),
        call_ensures(<Address as From<SocketAddr>>::from, (s,), b),
    ensures
        match a {
            Address::IPv4(x) => t == tunnel::Address::SocketV4(x),
            Address::IPv6(x) => t == tunnel::Address::SocketV6(x),
            Address::Domain(d, port) => t == tunnel::Address::Domain(d, port),
        },
        match s {
            SocketAddr::V4(x) => b == Address::IPv4(x),
            SocketAddr::V6(x) => b == Address::IPv6(x),
        },
{
}

/// A SOCKS address is written like the tunnel's form of it.
pub proof fn law_socks_text_is_the_tunnels(
    a: &Address,
    s: String,
    form: &tunnel::Address,
    t: String,
)
    requires
        call_ensures(Address::to_string, (a,), s),
        match *a {
            Address::IPv4(x) => *form == tunnel::Address::SocketV4(x),
            Address::IPv6(x) => *form == tunnel::Address::SocketV6(x),
            Address::Domain(d, port) => *form == tunnel::Address::Domain(d, port),
        },
        call_ensures(tunnel::Address::to_text, (form,), t),
    ensures
        s@ == t@,
{
}

/// Bytes that are no address say what is missing or wrong, and of a wrong type which it is.
pub proof fn law_undecoded_address_says_why(buf: &mut Bytes, e: Error)
    requires
        call_ensures(Address::from_buf, (buf,), Err::<Address, Error>(e)),
    ensures
        ({
            let s = bytes_seq(*old(buf));
            let m = e.message@;
            &&& s.len() == 0 ==> m == "insufficient data for address type"@
            &&& s.len() > 0 && s[0] == 1 ==> m == "insufficient data for IPv4 address"@
            &&& s.len() > 0 && s[0] == 4 ==> m == "insufficient data for IPv6 address"@
            &&& s.len() == 1 && s[0] == 3 ==> m == "insufficient data for domain length"@
            &&& s.len() > 1 && s[0] == 3 && s[1] == 0 ==> m == "empty domain"@
            &&& s.len() > 1 && s[0] == 3 && s[1] > 0 ==> m == "insufficient data for domain name"@
            &&& s.len() > 0 && s[0] != 1 && s[0] != 3 && s[0] != 4 ==> {
                let k = "invalid address type: "@.len() as int;
                &&& m.take(k) == "invalid address type: "@
                &&& is_numeral(m.skip(k), 10)
                &&& number_of(m.skip(k), 10) == s[0]
            }
        }),
{
    let s = bytes_seq(*old(buf));
    let k = "invalid address type: "@.len() as int;
    if s.len() > 0 {
        lemma_digits_read_back(s[0] as nat, 10);
        if s[0] != 1 && s[0] != 3 && s[0] != 4 {
            assert(e.message@.take(k) =~= "invalid address type: "@);
            assert(e.message@.skip(k) =~= decimal_text(s[0] as nat));
        }
    }
}

/// A request that cannot be read says why: another version, another command, or no address.
pub proof fn law_unread_request_says_why(
    input: &[u8],
    e: Error,
    rest: &[u8],
    address: Read<Address>,
)
    requires
        call_ensures(Request::read, (input,), Read::Invalid(e)),
        input@.len() >= 3,
        rest@ == input@.skip(3),
        call_ensures(Address::read, (rest,), address),
    ensures
        input@[0] != 5 ==> e.message@ == "unsupported SOCKS version"@,
        input@[0] == 5 ==> match address {
            Read::Invalid(f) => e.message@ == f.message@,
            Read::Ready(..) => {
                let k = "invalid request command: "@.len() as int;
                &&& e.message@.take(k) == "invalid request command: "@
                &&& is_numeral(e.message@.skip(k), 10)
                &&& number_of(e.message@.skip(k), 10) == input@[1]
            },
            Read::Need(_) => false,
        },
{
    let k = "invalid request command: "@.len() as int;
    if input@[0] == 5 && address is Ready {
        lemma_digits_read_back(input@[1] as nat, 10);
        assert(e.message@.take(k) =~= "invalid request command: "@);
        assert(e.message@.skip(k) =~= decimal_text(input@[1] as nat));
    }
}

/// A datagram that cannot be read is too short for its header, or has no address, and a
/// name that SOCKS cannot carry is too long.
pub proof fn law_unread_datagram_says_why(
    buf: Bytes,
    e: Error,
    rest: &mut Bytes,
    address: Result<Address, Error>,
    t: tunnel::Address,
    f: Error,
)
    requires
        call_ensures(UdpPacket::from_buf, (buf,), Err::<UdpPacket, Error>(e)),
        bytes_seq(*old(rest)) == bytes_seq(buf).skip(3),
        call_ensures(Address::from_buf, (rest,), address),
        call_ensures(Address::try_from, (t,), Err::<Address, Error>(f)),
    ensures
        bytes_seq(buf).len() < 3 ==> e.message@ == "insufficient data for UDP header"@,
        bytes_seq(buf).len() >= 3 ==> (address matches Err(g) && e.message@ == g.message@),
        f.message@ == "domain exceeds maximum length"@,
{
}

} // verus!
