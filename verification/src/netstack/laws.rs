//! What the stack promises as a whole.
use smoltcp::socket::tcp::Socket;
use vstd::prelude::*;

use crate::address::{law_views_tell_sockets_apart, SocketAddr};
use crate::buf::{be16, be16_bytes};
use crate::error::{Error, ErrorKind};

use super::buffer::BufferPool;
use super::stack::{ip_protocol, IpProtocol, NetStackConfig, Packet};
use super::stream::{
    socket_inbox, socket_listens_on, socket_options, socket_outbox, socket_recv_capacity,
    socket_send_capacity, stream_follows, StreamOp, TcpStream,
};
use super::tcp::{
    accept_new_connection, flow_key, law_both_directions_have_one_key, opens_connection, parse_flow,
    process_inbound_frame, worker_index,
};
use super::udp::{carries, parse_udp, wire_end, UdpPacket, UdpView};
use super::wire::{
    ip_version, ipv4_header_len, is_ipv4_udp_frame, is_ipv6_udp_frame, is_udp_segment, udp_ok,
};

verus! {

/// A stream from its beginning: `streams` is the stream before each operation, and
/// at last.
pub open spec fn is_stream_run(streams: Seq<TcpStream>, ops: Seq<StreamOp>) -> bool {
    &&& streams.len() == ops.len() + 1
    &&& streams[0].received().len() == 0
    &&& streams[0].unsent().len() == 0
    &&& forall|i: int|
        0 <= i < ops.len() ==> stream_follows(streams[i], #[trigger] ops[i], streams[i + 1])
}

/// The bytes of the first `n` operations, in order: `pick` tells those of one.
pub open spec fn bytes_of(
    ops: Seq<StreamOp>,
    n: nat,
    pick: spec_fn(StreamOp) -> Seq<u8>,
) -> Seq<u8>
    decreases n,
{
    if n == 0 {
        Seq::empty()
    } else {
        bytes_of(ops, (n - 1) as nat, pick) + pick(ops[n - 1])
    }
}

/// The bytes that arrived from the socket.
pub open spec fn arrived() -> spec_fn(StreamOp) -> Seq<u8> {
    |op: StreamOp|
        match op {
            StreamOp::Pass { arrived, .. } => arrived,
            _ => Seq::empty(),
        }
}

/// The bytes that were read.
pub open spec fn read() -> spec_fn(StreamOp) -> Seq<u8> {
    |op: StreamOp|
        match op {
            StreamOp::Read(bytes) => bytes,
            _ => Seq::empty(),
        }
}

/// The bytes that were written.
pub open spec fn written() -> spec_fn(StreamOp) -> Seq<u8> {
    |op: StreamOp|
        match op {
            StreamOp::Write(bytes) => bytes,
            _ => Seq::empty(),
        }
}

/// The bytes that went to the socket.
pub open spec fn sent() -> spec_fn(StreamOp) -> Seq<u8> {
    |op: StreamOp|
        match op {
            StreamOp::Pass { sent, .. } => sent,
            _ => Seq::empty(),
        }
}

/// Nothing is lost, repeated or reordered between a socket and the application,
/// however the operations on a stream follow one another: what arrived is what was
/// read and then what waits to be read, and what was written is what went to the
/// socket and then what waits to be sent.
pub proof fn law_bytes_stay_in_order(streams: Seq<TcpStream>, ops: Seq<StreamOp>, n: nat)
    requires
        is_stream_run(streams, ops),
        n <= ops.len(),
    ensures
        bytes_of(ops, n, arrived()) == bytes_of(ops, n, read()) + streams[n as int].received(),
        bytes_of(ops, n, written()) == bytes_of(ops, n, sent()) + streams[n as int].unsent(),
    decreases n,
{
    if n > 0 {
        law_bytes_stay_in_order(streams, ops, (n - 1) as nat);
        assert(stream_follows(streams[n - 1], ops[n - 1], streams[n as int]));
    }
    assert(bytes_of(ops, n, arrived()) =~= bytes_of(ops, n, read())
        + streams[n as int].received());
    assert(bytes_of(ops, n, written()) =~= bytes_of(ops, n, sent()) + streams[n as int].unsent());
}

proof fn lemma_be16_round_trip(s: Seq<u8>, i: int, n: u16)
    requires
        0 <= i,
        i + 2 <= s.len(),
        s.subrange(i, i + 2) == be16_bytes(n),
    ensures
        be16(s[i], s[i + 1]) == n,
{
    assert(s.subrange(i, i + 2)[0] == s[i]);
    assert(s.subrange(i, i + 2)[1] == s[i + 1]);
}

proof fn lemma_udp_segment(s: Seq<u8>, src_port: u16, dst_port: u16, payload: Seq<u8>)
    requires
        is_udp_segment(s, src_port, dst_port, payload),
        payload.len() <= 65527,
    ensures
        udp_ok(s),
        be16(s[0], s[1]) == src_port,
        be16(s[2], s[3]) == dst_port,
        s.subrange(8, be16(s[4], s[5])) == payload,
{
    lemma_be16_round_trip(s, 0, src_port);
    lemma_be16_round_trip(s, 2, dst_port);
    lemma_be16_round_trip(s, 4, (8 + payload.len()) as u16);
    assert(s.subrange(8, 8 + payload.len() as int) =~= s.skip(8));
}

proof fn lemma_ipv4_frame(s: Seq<u8>, v: UdpView, ttl: u8)
    requires
        v.src.octets.len() == 4,
        v.dst.octets.len() == 4,
        v.data.len() <= 65507,
        is_ipv4_udp_frame(s, v.src.octets, v.dst.octets, ttl, v.src.port, v.dst.port, v.data),
    ensures
        parse_udp(s) == Some(on_the_wire(v)),
        ip_protocol(s) == IpProtocol::Udp,
{
    assert(s.take(2)[0] == s[0]);
    assert(ip_version(s) == 4);
    assert(ipv4_header_len(s) == 20);
    lemma_be16_round_trip(s, 2, (28 + v.data.len()) as u16);
    lemma_udp_segment(s.skip(20), v.src.port, v.dst.port, v.data);
    assert(s.subrange(4, 10)[5] == s[9]);
}

proof fn lemma_ipv6_frame(s: Seq<u8>, v: UdpView, ttl: u8)
    requires
        v.src.octets.len() == 16,
        v.dst.octets.len() == 16,
        v.data.len() <= 65527,
        is_ipv6_udp_frame(s, v.src.octets, v.dst.octets, ttl, v.src.port, v.dst.port, v.data),
    ensures
        parse_udp(s) == Some(on_the_wire(v)),
        ip_protocol(s) == IpProtocol::Udp,
{
    assert(s.take(4)[0] == s[0]);
    assert(ip_version(s) == 6);
    lemma_be16_round_trip(s, 4, (8 + v.data.len()) as u16);
    lemma_udp_segment(s.skip(40), v.src.port, v.dst.port, v.data);
    assert(s.subrange(6, 8)[0] == s[6]);
}

/// A datagram as IP carries it: without flow information and scopes.
pub open spec fn on_the_wire(v: UdpView) -> UdpView {
    UdpView {
        src: wire_end(v.src.octets, v.src.port as int),
        dst: wire_end(v.dst.octets, v.dst.port as int),
        data: v.data,
    }
}

/// A datagram that was framed is read back from the frame as IP carries it, and the
/// frame goes where UDP goes.
pub proof fn law_udp_frame_round_trip(s: Seq<u8>, v: UdpView, ttl: u8)
    requires
        carries(s, v, ttl),
    ensures
        parse_udp(s) == Some(on_the_wire(v)),
        ip_protocol(s) == IpProtocol::Udp,
{
    if v.src.octets.len() == 4 {
        lemma_ipv4_frame(s, v, ttl);
    } else {
        lemma_ipv6_frame(s, v, ttl);
    }
}

/// A datagram without flow information and scopes that is sent and received again
/// has the bytes and the two ends that it had.
pub proof fn law_datagram_survives(sent: UdpPacket, frame: Seq<u8>, ttl: u8, received: UdpPacket)
    requires
        carries(frame, sent@, ttl),
        parse_udp(frame) == Some(received@),
        sent@.src.flowinfo == 0 && sent@.src.scope_id == 0,
        sent@.dst.flowinfo == 0 && sent@.dst.scope_id == 0,
    ensures
        received.data@ == sent.data@,
        received.src_addr == sent.src_addr,
        received.dst_addr == sent.dst_addr,
{
    law_udp_frame_round_trip(frame, sent@, ttl);
    law_views_tell_sockets_apart(received.src_addr, sent.src_addr);
    law_views_tell_sockets_apart(received.dst_addr, sent.dst_addr);
}

/// The datagram in an IPv4 packet: its ports stand right behind the IP header, its length
/// behind them, and its bytes behind those and the checksum.
pub proof fn law_udp_is_read_from_ipv4(packet: Packet, h: int, r: Option<UdpPacket>)
    requires
        packet@.len() >= 1,
        call_ensures(UdpPacket::recv, (packet,), r),
        packet@[0] as int / 16 == 4,
        packet@.len() >= 20,
        h == 4 * (packet@[0] as int % 16),
        h <= packet@[2] * 256 + packet@[3] <= packet@.len(),
    ensures
        r is Some <==> packet@.len() >= h + 8 && 8 <= packet@[h + 4] * 256 + packet@[h + 5]
            <= packet@.len() - h,
        r matches Some(p) ==> {
            &&& p.src_addr matches SocketAddr::V4(src)
            &&& p.dst_addr matches SocketAddr::V4(dst)
            &&& src.ip@ == packet@.subrange(12, 16)
            &&& dst.ip@ == packet@.subrange(16, 20)
            &&& src.port == packet@[h] * 256 + packet@[h + 1]
            &&& dst.port == packet@[h + 2] * 256 + packet@[h + 3]
            &&& p.data@ == packet@.subrange(h + 8, h + packet@[h + 4] * 256 + packet@[h + 5])
        },
{
    let s = packet@;
    if s.len() >= h + 8 {
        let t = s.skip(h);
        assert(t[0] == s[h] && t[1] == s[h + 1] && t[2] == s[h + 2] && t[3] == s[h + 3] && t[4]
            == s[h + 4] && t[5] == s[h + 5]);
    }
    if let Some(p) = r {
        assert(p@.src.octets.len() == 4);
        assert(p@.dst.octets.len() == 4);
        lemma_family(p.src_addr);
        lemma_family(p.dst_addr);
        let n = s[h + 4] * 256 + s[h + 5];
        assert(s.skip(h).subrange(8, n) =~= s.subrange(h + 8, h + n));
    }
}

/// The datagram in an IPv6 packet, whose header is 40 bytes long.
pub proof fn law_udp_is_read_from_ipv6(packet: Packet, r: Option<UdpPacket>)
    requires
        packet@.len() >= 1,
        call_ensures(UdpPacket::recv, (packet,), r),
        packet@[0] as int / 16 == 6,
        packet@.len() >= 40 + packet@[4] * 256 + packet@[5],
    ensures
        r is Some <==> packet@.len() >= 48 && 8 <= packet@[44] * 256 + packet@[45] <= packet@.len()
            - 40,
        r matches Some(p) ==> {
            &&& p.src_addr matches SocketAddr::V6(src)
            &&& p.dst_addr matches SocketAddr::V6(dst)
            &&& src.ip@ == packet@.subrange(8, 24)
            &&& dst.ip@ == packet@.subrange(24, 40)
            &&& src.port == packet@[40] * 256 + packet@[41]
            &&& dst.port == packet@[42] * 256 + packet@[43]
            &&& p.data@ == packet@.subrange(48, 40 + packet@[44] * 256 + packet@[45])
        },
{
    let s = packet@;
    if s.len() >= 48 {
        let t = s.skip(40);
        assert(t[0] == s[40] && t[1] == s[41] && t[2] == s[42] && t[3] == s[43] && t[4] == s[44]
            && t[5] == s[45]);
    }
    if let Some(p) = r {
        assert(p@.src.octets.len() == 16);
        assert(p@.dst.octets.len() == 16);
        lemma_family(p.src_addr);
        lemma_family(p.dst_addr);
        let n = s[44] * 256 + s[45];
        assert(s.skip(40).subrange(8, n) =~= s.subrange(48, 40 + n));
    }
}

/// What is no IP packet holds no datagram.
pub proof fn law_udp_is_read_from_ip_only(packet: Packet, r: Option<UdpPacket>)
    requires
        packet@.len() >= 1,
        call_ensures(UdpPacket::recv, (packet,), r),
        packet@[0] as int / 16 != 4,
        packet@[0] as int / 16 != 6,
    ensures
        r is None,
{
}

proof fn lemma_family(a: SocketAddr)
    ensures
        a is V4 <==> a@.octets.len() == 4,
        a is V6 <==> a@.octets.len() == 16,
{
}

/// A datagram goes out between ends of one family, and where it fits; it reaches the far
/// end as it was, but for flow information and scopes.
pub proof fn law_sent_datagram_is_received(
    sent: &UdpPacket,
    pool: &mut BufferPool,
    ttl: u8,
    r: Result<Packet, Error>,
    received: Option<UdpPacket>,
)
    requires
        old(pool).wf(),
        old(pool).default_size() <= isize::MAX,
        sent.data@.len() + 65575 <= isize::MAX,
        call_ensures(UdpPacket::send, (sent, pool, ttl), r),
        r matches Ok(frame) ==> call_ensures(UdpPacket::recv, (frame,), received),
    ensures
        r is Ok <==> (sent.src_addr is V4 && sent.dst_addr is V4 && sent.data@.len() <= 65507) || (
        sent.src_addr is V6 && sent.dst_addr is V6 && sent.data@.len() <= 65527),
        r matches Err(e) ==> (e.kind == ErrorKind::InvalidInput <==> sent.src_addr is V4
            != sent.dst_addr is V4),
        r is Ok ==> {
            &&& received matches Some(p)
            &&& p.data@ == sent.data@
            &&& p.src_addr@.octets == sent.src_addr@.octets
            &&& p.src_addr@.port == sent.src_addr@.port
            &&& p.dst_addr@.octets == sent.dst_addr@.octets
            &&& p.dst_addr@.port == sent.dst_addr@.port
        },
{
    if let Ok(frame) = r {
        law_udp_frame_round_trip(frame@, sent@, ttl);
    }
}

/// A segment that synchronizes and acknowledges nothing opens a connection from the source
/// of its IPv4 packet to the destination; no other does.
pub proof fn law_syn_opens_a_connection(
    frame: &[u8],
    h: int,
    r: Option<(SocketAddr, SocketAddr)>,
)
    requires
        frame@.len() >= 1,
        call_ensures(opens_connection, (frame,), r),
        frame@[0] as int / 16 == 4,
        frame@.len() >= 20,
        h == 4 * (frame@[0] as int % 16),
        h + 20 <= frame@[2] * 256 + frame@[3] <= frame@.len(),
        20 <= 4 * (frame@[h + 12] as int / 16) <= frame@[2] * 256 + frame@[3] - h,
    ensures
        r is Some <==> frame@[9] == 6 && (frame@[h + 13] as int / 2) % 2 == 1 && (frame@[h
            + 13] as int / 16) % 2 == 0,
        r matches Some((SocketAddr::V4(src), SocketAddr::V4(dst))) ==> {
            &&& src.ip@ == frame@.subrange(12, 16)
            &&& dst.ip@ == frame@.subrange(16, 20)
            &&& src.port == frame@[h] * 256 + frame@[h + 1]
            &&& dst.port == frame@[h + 2] * 256 + frame@[h + 3]
        },
        r matches Some((src, dst)) ==> src is V4 && dst is V4,
{
    let s = frame@;
    let t = s.subrange(h, s[2] * 256 + s[3]);
    assert(t[0] == s[h] && t[1] == s[h + 1] && t[2] == s[h + 2] && t[3] == s[h + 3] && t[12] == s[h
        + 12] && t[13] == s[h + 13]);
    if let Some((src, dst)) = r {
        assert(src@.octets.len() == 4);
        assert(dst@.octets.len() == 4);
        lemma_family(src);
        lemma_family(dst);
    }
}

/// The same of IPv6, whose header is 40 bytes long.
pub proof fn law_syn_opens_a_connection_v6(frame: &[u8], r: Option<(SocketAddr, SocketAddr)>)
    requires
        frame@.len() >= 60,
        call_ensures(opens_connection, (frame,), r),
        frame@[0] as int / 16 == 6,
        20 <= frame@[4] * 256 + frame@[5] <= frame@.len() - 40,
        20 <= 4 * (frame@[52] as int / 16) <= frame@[4] * 256 + frame@[5],
    ensures
        r is Some <==> frame@[6] == 6 && (frame@[53] as int / 2) % 2 == 1 && (frame@[53] as int
            / 16) % 2 == 0,
        r matches Some((SocketAddr::V6(src), SocketAddr::V6(dst))) ==> {
            &&& src.ip@ == frame@.subrange(8, 24)
            &&& dst.ip@ == frame@.subrange(24, 40)
            &&& src.port == frame@[40] * 256 + frame@[41]
            &&& dst.port == frame@[42] * 256 + frame@[43]
        },
        r matches Some((src, dst)) ==> src is V6 && dst is V6,
{
    let s = frame@;
    let t = s.subrange(40, 40 + (s[4] * 256 + s[5]));
    assert(t[0] == s[40] && t[1] == s[41] && t[2] == s[42] && t[3] == s[43] && t[12] == s[52]
        && t[13] == s[53]);
    if let Some((src, dst)) = r {
        assert(src@.octets.len() == 16);
        assert(dst@.octets.len() == 16);
        lemma_family(src);
        lemma_family(dst);
    }
}

/// The key of a segment are its two ends, in one order or the other, and the same for both
/// directions.
pub proof fn law_key_is_both_ends(
    there: &[u8],
    back: &[u8],
    opened: (SocketAddr, SocketAddr),
    key: Option<(SocketAddr, SocketAddr)>,
    other: Option<(SocketAddr, SocketAddr)>,
)
    requires
        there@.len() >= 1,
        back@.len() >= 1,
        call_ensures(opens_connection, (there,), Some(opened)),
        call_ensures(flow_key, (there,), key),
        call_ensures(flow_key, (back,), other),
        parse_flow(back@) matches Some(flow) && flow.src == opened.1@ && flow.dst == opened.0@,
    ensures
        key is Some,
        key == Some(opened) || key == Some((opened.1, opened.0)),
        key == other,
{
    let a = key->0;
    let b = other->0;
    let t = parse_flow(there@)->0;
    law_views_tell_sockets_apart(
        a.0,
        if a.0@ == opened.0@ {
            opened.0
        } else {
            opened.1
        },
    );
    law_views_tell_sockets_apart(
        a.1,
        if a.0@ == opened.0@ {
            opened.1
        } else {
            opened.0
        },
    );
    law_both_directions_have_one_key(t);
    law_views_tell_sockets_apart(a.0, b.0);
    law_views_tell_sockets_apart(a.1, b.1);
}

/// A worker is picked by the hash alone, is one of those that there are, and what has no
/// hash goes to the first.
pub proof fn law_worker_is_picked_by_hash(hash: Option<u64>, workers: usize, i: usize)
    requires
        workers > 0,
        call_ensures(worker_index, (hash, workers), i),
    ensures
        i < workers,
        hash is None ==> i == 0,
        hash matches Some(n) ==> (n - i) % (workers as int) == 0,
{
    if let Some(n) = hash {
        vstd::arithmetic::div_mod::lemma_mod_self_0(workers as int);
        vstd::arithmetic::div_mod::lemma_fundamental_div_mod(n as int, workers as int);
        vstd::arithmetic::div_mod::lemma_fundamental_div_mod_converse(
            n - i,
            workers as int,
            n as int / workers as int,
            0,
        );
    }
}

/// A connection that is accepted listens where its first segment was sent to, with the
/// parameters of the stack, and has carried nothing; only port 0 is refused.
pub proof fn law_accepted_connection_is_fresh(
    config: &NetStackConfig,
    src: SocketAddr,
    dst: SocketAddr,
    r: Result<(Socket<'static>, TcpStream), Error>,
)
    requires
        config.sockets_ok(),
        call_ensures(accept_new_connection, (config, src, dst), r),
    ensures
        r is Err <==> dst@.port == 0,
        r matches Err(e) ==> e.kind == ErrorKind::Other && e.message@
            == "unaddressable destination"@,
        r matches Ok((socket, stream)) ==> {
            &&& socket_listens_on(socket) == (dst@.octets, dst@.port)
            &&& socket_inbox(socket).len() == 0
            &&& socket_outbox(socket).len() == 0
            &&& socket_recv_capacity(socket) == config.tcp_recv_buffer_size
            &&& socket_send_capacity(socket) == config.tcp_send_buffer_size
            &&& socket_options(socket).keep_alive matches Some(n) && n
                == config.tcp_keep_alive.nanos / 1000
            &&& socket_options(socket).timeout matches Some(n) && n == config.tcp_timeout.nanos
                / 1000
            &&& !socket_options(socket).nagle
            &&& socket_options(socket).congestion is Cubic
            &&& stream.received().len() == 0
            &&& stream.unsent().len() == 0
            &&& stream.recv_capacity() == config.tcp_recv_buffer_size
            &&& stream.send_capacity() == config.tcp_send_buffer_size
            &&& !stream.eof()
            &&& !stream.dropped()
            &&& stream.ends() == (src, dst)
        },
{
}

/// A packet makes a connection exactly where it opens one, between the ends that it names,
/// unless it is sent to port 0.
pub proof fn law_opening_packet_makes_a_connection(
    config: &NetStackConfig,
    frame: &[u8],
    opened: Option<(SocketAddr, SocketAddr)>,
    r: Result<Option<(Socket<'static>, TcpStream)>, Error>,
)
    requires
        config.sockets_ok(),
        frame@.len() >= 1,
        call_ensures(opens_connection, (frame,), opened),
        call_ensures(process_inbound_frame, (config, frame), r),
    ensures
        opened is None <==> (r matches Ok(made) && made is None),
        opened matches Some((src, dst)) ==> {
            &&& r is Err <==> dst@.port == 0
            &&& r matches Ok(Some((socket, stream))) ==> stream.ends() == (src, dst)
                && socket_listens_on(socket) == (dst@.octets, dst@.port)
        },
{
    if let Some((src, dst)) = opened {
        if let Ok(Some((socket, stream))) = r {
            law_views_tell_sockets_apart(stream.ends().0, src);
            law_views_tell_sockets_apart(stream.ends().1, dst);
        }
    }
}

} // verus!
