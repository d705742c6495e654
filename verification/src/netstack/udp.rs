//! UDP datagrams in and out of IP packets.
use bytes::Bytes;
use vstd::prelude::*;

use crate::address::{IpAddr, SocketAddr, SocketAddrV4, SocketAddrV6, SocketView};
use crate::buf::{as_slice, be16, bytes_mut_seq, slice};
use crate::error::{Error, ErrorKind};

use super::buffer::BufferPool;
use super::stack::{ip_dst, ip_header_len, ip_ok, ip_src, IpPacket, Packet};
use super::wire::{
    ipv4_udp_frame, ipv6_udp_frame, is_ipv4_udp_frame, is_ipv6_udp_frame, udp_check, udp_dst_port,
    udp_ok, udp_payload, udp_src_port, write_ipv4_udp, write_ipv6_udp,
    UDP_HEADER_LEN,
};

verus! {

/// A UDP datagram and its two ends.
#[derive(Clone, Debug)]
pub struct UdpPacket {
    pub data: Packet,
    pub src_addr: SocketAddr,
    pub dst_addr: SocketAddr,
}

/// A datagram as a mathematical value.
pub struct UdpView {
    pub src: SocketView,
    pub dst: SocketView,
    pub data: Seq<u8>,
}

impl View for UdpPacket {
    type V = UdpView;

    open spec fn view(&self) -> UdpView {
        UdpView { src: self.src_addr@, dst: self.dst_addr@, data: self.data@ }
    }
}

/// The end of a datagram or a segment that has this address and this port. What IP carries knows
/// neither flow information nor a scope.
pub open spec fn wire_end(octets: Seq<u8>, port: int) -> SocketView {
    SocketView { octets, port: port as u16, flowinfo: 0, scope_id: 0 }
}

/// The datagram inside an IP packet, if it is one. The UDP header is looked for
/// behind the IP header, in all the bytes that there are.
pub open spec fn parse_udp(s: Seq<u8>) -> Option<UdpView> {
    let segment = s.skip(ip_header_len(s));
    if ip_ok(s) && udp_ok(segment) {
        Some(
            UdpView {
                src: wire_end(ip_src(s), be16(segment[0], segment[1])),
                dst: wire_end(ip_dst(s), be16(segment[2], segment[3])),
                data: segment.subrange(8, be16(segment[4], segment[5])),
            },
        )
    } else {
        None
    }
}

/// Whether `s` is a frame that carries this datagram. It does not tell flow
/// information or a scope.
pub open spec fn carries(s: Seq<u8>, v: UdpView, ttl: u8) -> bool {
    ||| {
        &&& v.src.octets.len() == 4
        &&& v.dst.octets.len() == 4
        &&& v.data.len() <= 65507
        &&& is_ipv4_udp_frame(s, v.src.octets, v.dst.octets, ttl, v.src.port, v.dst.port, v.data)
    }
    ||| {
        &&& v.src.octets.len() == 16
        &&& v.dst.octets.len() == 16
        &&& v.data.len() <= 65527
        &&& is_ipv6_udp_frame(s, v.src.octets, v.dst.octets, ttl, v.src.port, v.dst.port, v.data)
    }
}

/// The socket address of an IP address and a port.
pub fn socket_addr(ip: IpAddr, port: u16) -> (a: SocketAddr)
    ensures
        match ip {
            IpAddr::V4(ip) => a == SocketAddr::V4(SocketAddrV4 { ip, port }),
            IpAddr::V6(ip) => a == SocketAddr::V6(
                SocketAddrV6 { ip, port, flowinfo: 0, scope_id: 0 },
            ),
        },
{
    match ip {
        IpAddr::V4(ip) => SocketAddr::V4(SocketAddrV4 { ip, port }),
        IpAddr::V6(ip) => SocketAddr::V6(SocketAddrV6 { ip, port, flowinfo: 0, scope_id: 0 }),
    }
}

impl UdpPacket {
    /// A datagram of these bytes between these ends.
    pub fn new(data: Packet, src_addr: SocketAddr, dst_addr: SocketAddr) -> (r: UdpPacket)
        ensures
            r.data == data,
            r.src_addr == src_addr,
            r.dst_addr == dst_addr,
    {
        UdpPacket { data, src_addr, dst_addr }
    }

    /// The datagram's bytes.
    pub fn data(&self) -> (s: &[u8])
        ensures
            s@ == self.data@,
    {
        self.data.data()
    }

    /// Takes the datagram out of an IP packet. What is no UDP over IP gives
    /// `None`. The payload shares the packet's bytes.
    pub fn recv(packet: Packet) -> (r: Option<UdpPacket>)
        requires
            packet@.len() >= 1,
        ensures
            match r {
                Some(p) => parse_udp(packet@) == Some(p@),
                None => parse_udp(packet@) is None,
            },
    {
        let ghost s = packet@;
        let bytes: Bytes = packet.into_bytes();
        let ip = match IpPacket::new_checked(as_slice(&bytes)) {
            Ok(ip) => ip,
            Err(_) => return None,
        };
        let header_len: usize = ip.header_len();
        let src_ip = ip.src_addr();
        let dst_ip = ip.dst_addr();
        let ghost segment = s.skip(ip_header_len(s));
        let total: usize = bytes.len();
        if total - header_len < UDP_HEADER_LEN {
            return None;
        }
        let udp = vstd::slice::slice_subrange(as_slice(&bytes), header_len, total);
        assert(udp@ =~= segment);
        if !udp_check(udp) {
            return None;
        }
        let src_port: u16 = udp_src_port(udp);
        let dst_port: u16 = udp_dst_port(udp);
        let payload_len: usize = udp_payload(udp).len();
        let start: usize = header_len + UDP_HEADER_LEN;
        let data = Packet::new(slice(&bytes, start, start + payload_len));
        assert(data@ =~= segment.subrange(8, be16(segment[4], segment[5])));
        Some(
            UdpPacket {
                data,
                src_addr: socket_addr(src_ip, src_port),
                dst_addr: socket_addr(dst_ip, dst_port),
            },
        )
    }

    /// Frames the datagram into a buffer of the pool, which gets the buffer back.
    /// The ends must be of one family, and the frame's length must fit IP's
    /// length field.
    pub fn send(&self, pool: &mut BufferPool, ttl: u8) -> (r: Result<Packet, Error>)
        requires
            old(pool).wf(),
            old(pool).default_size() <= isize::MAX,
            self.data@.len() + 65575 <= isize::MAX,
        ensures
            final(pool).wf(),
            final(pool).limit() == old(pool).limit(),
            final(pool).default_size() == old(pool).default_size(),
            final(pool).idle() == if self.src_addr is V4 == self.dst_addr is V4 {
                old(pool).idle_after_loan()
            } else {
                old(pool).idle()
            },
            r matches Ok(p) ==> carries(p@, self@, ttl),
            match (self.src_addr, self.dst_addr) {
                (SocketAddr::V4(src), SocketAddr::V4(dst)) => match ipv4_udp_frame(
                    src.ip@,
                    dst.ip@,
                    ttl,
                    src.port,
                    dst.port,
                    self.data@,
                ) {
                    Ok(frame) => (r matches Ok(p) && p@ == frame && is_ipv4_udp_frame(
                        p@,
                        src.ip@,
                        dst.ip@,
                        ttl,
                        src.port,
                        dst.port,
                        self.data@,
                    )) && self.data@.len() <= 65507,
                    Err(m) => (r matches Err(e) && e.reads(ErrorKind::Other, m))
                        && self.data@.len() > 65507,
                },
                (SocketAddr::V6(src), SocketAddr::V6(dst)) => match ipv6_udp_frame(
                    src.ip@,
                    dst.ip@,
                    ttl,
                    src.port,
                    dst.port,
                    self.data@,
                ) {
                    Ok(frame) => (r matches Ok(p) && p@ == frame && is_ipv6_udp_frame(
                        p@,
                        src.ip@,
                        dst.ip@,
                        ttl,
                        src.port,
                        dst.port,
                        self.data@,
                    )) && self.data@.len() <= 65527,
                    Err(m) => (r matches Err(e) && e.reads(ErrorKind::Other, m))
                        && self.data@.len() > 65527,
                },
                _ => r matches Err(e) && e.reads(
                    ErrorKind::InvalidInput,
                    "UDP socket only supports IPv4 and IPv6"@,
                ),
            },
    {
        let len: usize = self.data().len();
        let header: usize = match (&self.src_addr, &self.dst_addr) {
            (SocketAddr::V4(_), SocketAddr::V4(_)) => 28,
            (SocketAddr::V6(_), SocketAddr::V6(_)) => 48,
            _ => return Err(
                Error::new(
                    ErrorKind::InvalidInput,
                    "UDP socket only supports IPv4 and IPv6",
                ),
            ),
        };
        let mut buffer = pool.get(len + header);
        let written = match (&self.src_addr, &self.dst_addr) {
            (SocketAddr::V4(src), SocketAddr::V4(dst)) => write_ipv4_udp(
                &mut buffer,
                src.ip.octets,
                dst.ip.octets,
                ttl,
                src.port,
                dst.port,
                self.data(),
            ),
            (SocketAddr::V6(src), SocketAddr::V6(dst)) => write_ipv6_udp(
                &mut buffer,
                src.ip.octets,
                dst.ip.octets,
                ttl,
                src.port,
                dst.port,
                self.data(),
            ),
            _ => Ok(()),
        };
        assert(Seq::<u8>::empty() + bytes_mut_seq(buffer).skip(0) =~= bytes_mut_seq(buffer));
        assert(bytes_mut_seq(buffer).skip(0) =~= bytes_mut_seq(buffer));
        let frame = buffer.split().freeze();
        pool.release(buffer);
        match written {
            Ok(()) => Ok(Packet::new(frame)),
            Err(m) => Err(Error::with_message(ErrorKind::Other, m)),
        }
    }
}

/// An end is its address and its port, without flow information or a scope.
pub proof fn law_end_is_address_and_port(ip: IpAddr, port: u16, a: SocketAddr)
    requires
        call_ensures(socket_addr, (ip, port), a),
    ensures
        ip matches IpAddr::V4(x) ==> (a matches SocketAddr::V4(s) && s.ip == x && s.port == port),
        ip matches IpAddr::V6(x) ==> (a matches SocketAddr::V6(s) && s.ip == x && s.port == port
            && s.flowinfo == 0 && s.scope_id == 0),
{
}

/// A datagram is its bytes and its two ends.
pub proof fn law_datagram_is_what_it_was_made_with(
    data: Packet,
    src: SocketAddr,
    dst: SocketAddr,
    p: UdpPacket,
    s: &[u8],
)
    requires
        call_ensures(UdpPacket::new, (data, src, dst), p),
        call_ensures(UdpPacket::data, (&p,), s),
    ensures
        s@ == data@,
        p.src_addr == src,
        p.dst_addr == dst,
{
}

} // verus!
