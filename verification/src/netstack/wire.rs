//! IP, UDP and TCP headers: read by `smoltcp`, written by `etherparse`.
use bytes::{BufMut, BytesMut};
use etherparse::PacketBuilder;
use smoltcp::wire::{IpVersion, Ipv4Packet, Ipv6Packet, TcpPacket, UdpPacket};
use vstd::prelude::*;

use crate::buf::{be16, be16_bytes, bytes_mut_seq};

verus! {

/// Length of an IPv6 header.
pub const IPV6_HEADER_LEN: usize = 40;

/// Length of a UDP header.
pub const UDP_HEADER_LEN: usize = 8;

/// The IP version that the first byte of a packet names.
pub open spec fn ip_version(s: Seq<u8>) -> int {
    s[0] as int / 16
}

/// The header length that an IPv4 packet names.
pub open spec fn ipv4_header_len(s: Seq<u8>) -> int {
    (s[0] as int % 16) * 4
}

/// Whether `s` is long enough for an IPv4 header and for the lengths that the
/// header names, and these fit each other.
pub open spec fn ipv4_ok(s: Seq<u8>) -> bool {
    20 <= s.len() && ipv4_header_len(s) <= be16(s[2], s[3]) <= s.len()
}

/// Whether `s` is long enough for an IPv6 header and the payload that it names.
pub open spec fn ipv6_ok(s: Seq<u8>) -> bool {
    40 <= s.len() && 40 + be16(s[4], s[5]) <= s.len()
}

/// Whether `s` is long enough for a UDP header and the length that it names.
pub open spec fn udp_ok(s: Seq<u8>) -> bool {
    8 <= s.len() && 8 <= be16(s[4], s[5]) <= s.len()
}

/// The header length that a TCP segment names.
pub open spec fn tcp_header_len(s: Seq<u8>) -> int {
    (s[12] as int / 16) * 4
}

/// Whether `s` is long enough for a TCP header and the length that it names.
pub open spec fn tcp_ok(s: Seq<u8>) -> bool {
    20 <= s.len() && 20 <= tcp_header_len(s) <= s.len()
}

/// `IpVersion::of_packet`: the version, where it is 4 or 6.
#[verifier::external_body]
pub(crate) fn version_of(packet: &[u8]) -> (v: Option<u8>)
    requires
        packet@.len() >= 1,
    ensures
        v is Some <==> ip_version(packet@) == 4 || ip_version(packet@) == 6,
        v matches Some(n) ==> n == ip_version(packet@),
{
    match IpVersion::of_packet(packet) {
        Ok(IpVersion::Ipv4) => Some(4),
        Ok(IpVersion::Ipv6) => Some(6),
        Err(_) => None,
    }
}

/// `Ipv4Packet::new_checked`: whether the packet's lengths are in order.
#[verifier::external_body]
pub(crate) fn ipv4_check(packet: &[u8]) -> (ok: bool)
    ensures
        ok == ipv4_ok(packet@),
{
    Ipv4Packet::new_checked(packet).is_ok()
}

/// `Ipv6Packet::new_checked`: whether the packet's lengths are in order.
#[verifier::external_body]
pub(crate) fn ipv6_check(packet: &[u8]) -> (ok: bool)
    ensures
        ok == ipv6_ok(packet@),
{
    Ipv6Packet::new_checked(packet).is_ok()
}

/// `Ipv4Packet::header_len`: the header length in bytes.
#[verifier::external_body]
pub(crate) fn ipv4_header(packet: &[u8]) -> (n: u8)
    requires
        ipv4_ok(packet@),
    ensures
        n == ipv4_header_len(packet@),
{
    Ipv4Packet::new_unchecked(packet).header_len()
}

/// `Ipv4Packet::src_addr`: the source address.
#[verifier::external_body]
pub(crate) fn ipv4_src(packet: &[u8]) -> (a: [u8; 4])
    requires
        ipv4_ok(packet@),
    ensures
        a@ == packet@.subrange(12, 16),
{
    Ipv4Packet::new_unchecked(packet).src_addr().octets()
}

/// `Ipv4Packet::dst_addr`: the destination address.
#[verifier::external_body]
pub(crate) fn ipv4_dst(packet: &[u8]) -> (a: [u8; 4])
    requires
        ipv4_ok(packet@),
    ensures
        a@ == packet@.subrange(16, 20),
{
    Ipv4Packet::new_unchecked(packet).dst_addr().octets()
}

/// `Ipv4Packet::next_header`: the number of the protocol inside.
#[verifier::external_body]
pub(crate) fn ipv4_protocol(packet: &[u8]) -> (n: u8)
    requires
        ipv4_ok(packet@),
    ensures
        n == packet@[9],
{
    Ipv4Packet::new_unchecked(packet).next_header().into()
}

/// `Ipv4Packet::payload`: what the header's length and the total length enclose.
#[verifier::external_body]
pub(crate) fn ipv4_payload(packet: &[u8]) -> (p: &[u8])
    requires
        ipv4_ok(packet@),
    ensures
        p@ == packet@.subrange(ipv4_header_len(packet@), be16(packet@[2], packet@[3])),
{
    Ipv4Packet::new_unchecked(packet).payload()
}

/// `Ipv6Packet::src_addr`: the source address.
#[verifier::external_body]
pub(crate) fn ipv6_src(packet: &[u8]) -> (a: [u8; 16])
    requires
        ipv6_ok(packet@),
    ensures
        a@ == packet@.subrange(8, 24),
{
    Ipv6Packet::new_unchecked(packet).src_addr().octets()
}

/// `Ipv6Packet::dst_addr`: the destination address.
#[verifier::external_body]
pub(crate) fn ipv6_dst(packet: &[u8]) -> (a: [u8; 16])
    requires
        ipv6_ok(packet@),
    ensures
        a@ == packet@.subrange(24, 40),
{
    Ipv6Packet::new_unchecked(packet).dst_addr().octets()
}

/// `Ipv6Packet::next_header`: the number of the protocol inside.
#[verifier::external_body]
pub(crate) fn ipv6_protocol(packet: &[u8]) -> (n: u8)
    requires
        ipv6_ok(packet@),
    ensures
        n == packet@[6],
{
    Ipv6Packet::new_unchecked(packet).next_header().into()
}

/// `Ipv6Packet::payload`: the bytes behind the header that its length names.
#[verifier::external_body]
pub(crate) fn ipv6_payload(packet: &[u8]) -> (p: &[u8])
    requires
        ipv6_ok(packet@),
    ensures
        p@ == packet@.subrange(40, 40 + be16(packet@[4], packet@[5])),
{
    Ipv6Packet::new_unchecked(packet).payload()
}

/// `UdpPacket::new_checked`: whether the datagram's length is in order.
#[verifier::external_body]
pub(crate) fn udp_check(segment: &[u8]) -> (ok: bool)
    ensures
        ok == udp_ok(segment@),
{
    UdpPacket::new_checked(segment).is_ok()
}

/// `UdpPacket::src_port`: the source port.
#[verifier::external_body]
pub(crate) fn udp_src_port(segment: &[u8]) -> (p: u16)
    requires
        udp_ok(segment@),
    ensures
        p == be16(segment@[0], segment@[1]),
{
    UdpPacket::new_unchecked(segment).src_port()
}

/// `UdpPacket::dst_port`: the destination port.
#[verifier::external_body]
pub(crate) fn udp_dst_port(segment: &[u8]) -> (p: u16)
    requires
        udp_ok(segment@),
    ensures
        p == be16(segment@[2], segment@[3]),
{
    UdpPacket::new_unchecked(segment).dst_port()
}

/// `UdpPacket::payload`: the bytes behind the header that its length names.
#[verifier::external_body]
pub(crate) fn udp_payload(segment: &[u8]) -> (p: &[u8])
    requires
        udp_ok(segment@),
    ensures
        p@ == segment@.subrange(8, be16(segment@[4], segment@[5])),
{
    UdpPacket::new_unchecked(segment).payload()
}

/// `TcpPacket::new_checked`: whether the segment's header length is in order.
#[verifier::external_body]
pub(crate) fn tcp_check(segment: &[u8]) -> (ok: bool)
    ensures
        ok == tcp_ok(segment@),
{
    TcpPacket::new_checked(segment).is_ok()
}

/// `TcpPacket::src_port`: the source port.
#[verifier::external_body]
pub(crate) fn tcp_src_port(segment: &[u8]) -> (p: u16)
    requires
        tcp_ok(segment@),
    ensures
        p == be16(segment@[0], segment@[1]),
{
    TcpPacket::new_unchecked(segment).src_port()
}

/// `TcpPacket::dst_port`: the destination port.
#[verifier::external_body]
pub(crate) fn tcp_dst_port(segment: &[u8]) -> (p: u16)
    requires
        tcp_ok(segment@),
    ensures
        p == be16(segment@[2], segment@[3]),
{
    TcpPacket::new_unchecked(segment).dst_port()
}

/// `TcpPacket::syn`: the flag that opens a connection.
#[verifier::external_body]
pub(crate) fn tcp_syn(segment: &[u8]) -> (b: bool)
    requires
        tcp_ok(segment@),
    ensures
        b == (segment@[13] as int / 2 % 2 == 1),
{
    TcpPacket::new_unchecked(segment).syn()
}

/// `TcpPacket::ack`: the flag that acknowledges.
#[verifier::external_body]
pub(crate) fn tcp_ack(segment: &[u8]) -> (b: bool)
    requires
        tcp_ok(segment@),
    ensures
        b == (segment@[13] as int / 16 % 2 == 1),
{
    TcpPacket::new_unchecked(segment).ack()
}

/// The UDP header and the payload behind an IP header: everything but the two
/// bytes of the checksum.
pub open spec fn is_udp_segment(
    s: Seq<u8>,
    src_port: u16,
    dst_port: u16,
    payload: Seq<u8>,
) -> bool {
    &&& s.len() == 8 + payload.len()
    &&& s.subrange(0, 2) == be16_bytes(src_port)
    &&& s.subrange(2, 4) == be16_bytes(dst_port)
    &&& s.subrange(4, 6) == be16_bytes((8 + payload.len()) as u16)
    &&& s.skip(8) == payload
}

/// An IPv4 packet without options, fragments or a fragment number that carries
/// this UDP datagram: everything but the bytes of the two checksums.
pub open spec fn is_ipv4_udp_frame(
    s: Seq<u8>,
    src: Seq<u8>,
    dst: Seq<u8>,
    ttl: u8,
    src_port: u16,
    dst_port: u16,
    payload: Seq<u8>,
) -> bool {
    &&& s.len() == 28 + payload.len()
    &&& s.take(2) == seq![0x45u8, 0u8]
    &&& s.subrange(2, 4) == be16_bytes((28 + payload.len()) as u16)
    &&& s.subrange(4, 10) == seq![0u8, 0u8, 0x40u8, 0u8, ttl, 17u8]
    &&& s.subrange(12, 16) == src
    &&& s.subrange(16, 20) == dst
    &&& is_udp_segment(s.skip(20), src_port, dst_port, payload)
}

/// An IPv6 packet without traffic class, flow label or extensions that carries
/// this UDP datagram: everything but the two bytes of the checksum.
pub open spec fn is_ipv6_udp_frame(
    s: Seq<u8>,
    src: Seq<u8>,
    dst: Seq<u8>,
    ttl: u8,
    src_port: u16,
    dst_port: u16,
    payload: Seq<u8>,
) -> bool {
    &&& s.len() == 48 + payload.len()
    &&& s.take(4) == seq![0x60u8, 0u8, 0u8, 0u8]
    &&& s.subrange(4, 6) == be16_bytes((8 + payload.len()) as u16)
    &&& s.subrange(6, 8) == seq![17u8, ttl]
    &&& s.subrange(8, 24) == src
    &&& s.subrange(24, 40) == dst
    &&& is_udp_segment(s.skip(40), src_port, dst_port, payload)
}

/// The frame that `etherparse` writes for a UDP datagram over IPv4, or its
/// message where the datagram is too long for one.
pub uninterp spec fn ipv4_udp_frame(
    src: Seq<u8>,
    dst: Seq<u8>,
    ttl: u8,
    src_port: u16,
    dst_port: u16,
    payload: Seq<u8>,
) -> Result<Seq<u8>, Seq<char>>;

/// The frame that `etherparse` writes for a UDP datagram over IPv6, or its
/// message where the datagram is too long for one.
pub uninterp spec fn ipv6_udp_frame(
    src: Seq<u8>,
    dst: Seq<u8>,
    ttl: u8,
    src_port: u16,
    dst_port: u16,
    payload: Seq<u8>,
) -> Result<Seq<u8>, Seq<char>>;

/// `PacketBuilder::ipv4(..).udp(..).write(..)`: appends a frame that carries the
/// payload. Where the IPv4 length field cannot hold the length, nothing is
/// written.
#[verifier::external_body]
pub(crate) fn write_ipv4_udp(
    out: &mut BytesMut,
    src: [u8; 4],
    dst: [u8; 4],
    ttl: u8,
    src_port: u16,
    dst_port: u16,
    payload: &[u8],
) -> (r: Result<(), String>)
    requires
        bytes_mut_seq(*old(out)).len() + 65535 <= isize::MAX,
    ensures
        r is Ok <==> payload@.len() <= 65507,
        match r {
            Ok(()) => {
                let frame = bytes_mut_seq(*final(out)).skip(bytes_mut_seq(*old(out)).len() as int);
                &&& bytes_mut_seq(*final(out)) == bytes_mut_seq(*old(out)) + frame
                &&& ipv4_udp_frame(src@, dst@, ttl, src_port, dst_port, payload@)
                    == Ok::<Seq<u8>, Seq<char>>(frame)
                &&& is_ipv4_udp_frame(frame, src@, dst@, ttl, src_port, dst_port, payload@)
            },
            Err(m) => {
                &&& bytes_mut_seq(*final(out)) == bytes_mut_seq(*old(out))
                &&& ipv4_udp_frame(src@, dst@, ttl, src_port, dst_port, payload@)
                    == Err::<Seq<u8>, Seq<char>>(m@)
            },
        },
{
    PacketBuilder::ipv4(src, dst, ttl)
        .udp(src_port, dst_port)
        .write(&mut out.writer(), payload)
        .map_err(|e| e.to_string())
}

/// `PacketBuilder::ipv6(..).udp(..).write(..)`: appends a frame that carries the
/// payload. Where the IPv6 length field cannot hold the length, nothing is
/// written.
#[verifier::external_body]
pub(crate) fn write_ipv6_udp(
    out: &mut BytesMut,
    src: [u8; 16],
    dst: [u8; 16],
    ttl: u8,
    src_port: u16,
    dst_port: u16,
    payload: &[u8],
) -> (r: Result<(), String>)
    requires
        bytes_mut_seq(*old(out)).len() + 65575 <= isize::MAX,
    ensures
        r is Ok <==> payload@.len() <= 65527,
        match r {
            Ok(()) => {
                let frame = bytes_mut_seq(*final(out)).skip(bytes_mut_seq(*old(out)).len() as int);
                &&& bytes_mut_seq(*final(out)) == bytes_mut_seq(*old(out)) + frame
                &&& ipv6_udp_frame(src@, dst@, ttl, src_port, dst_port, payload@)
                    == Ok::<Seq<u8>, Seq<char>>(frame)
                &&& is_ipv6_udp_frame(frame, src@, dst@, ttl, src_port, dst_port, payload@)
            },
            Err(m) => {
                &&& bytes_mut_seq(*final(out)) == bytes_mut_seq(*old(out))
                &&& ipv6_udp_frame(src@, dst@, ttl, src_port, dst_port, payload@)
                    == Err::<Seq<u8>, Seq<char>>(m@)
            },
        },
{
    PacketBuilder::ipv6(src, dst, ttl)
        .udp(src_port, dst_port)
        .write(&mut out.writer(), payload)
        .map_err(|e| e.to_string())
}

} // verus!
