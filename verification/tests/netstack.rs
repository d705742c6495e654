use std::collections::hash_map::DefaultHasher;
use std::hash::{Hash, Hasher};

use bytes::{BufMut, Bytes};
use etherparse::PacketBuilder;
use ombrac::address::{IpAddr, Ipv4Addr, Ipv6Addr, SocketAddr, SocketAddrV4, SocketAddrV6};
use ombrac::error::ErrorKind;
use ombrac::netstack::buffer::BufferPool;
use ombrac::netstack::stack::{
    Channel, IpPacket, IpProtocol, NetStackConfig, Packet, Room, StackSplitSink,
};
use ombrac::netstack::stream::{prune, ReadOutcome, TcpStream, WriteOutcome};
use ombrac::netstack::tcp::{
    accept_new_connection, flow_key, opens_connection, process_inbound_frame, worker_index, Phase,
    TcpConnectionWorker, WorkerAction, WorkerEvent,
};
use ombrac::netstack::udp::{socket_addr, UdpPacket};
use ombrac::time::Duration;
use smoltcp::iface::{Config, Interface, SocketSet};
use smoltcp::phy::{Loopback, Medium};
use smoltcp::socket::tcp::{Socket, SocketBuffer};
use smoltcp::wire::{HardwareAddress, IpAddress, IpCidr};

fn build_ipv4_udp(src: [u8; 4], dst: [u8; 4], src_port: u16, dst_port: u16, payload: &[u8]) -> Vec<u8> {
    let builder = PacketBuilder::ipv4(src, dst, 64).udp(src_port, dst_port);
    let mut buf = Vec::with_capacity(builder.size(payload.len()));
    builder.write(&mut buf, payload).unwrap();
    buf
}

fn build_ipv4_tcp(src: [u8; 4], dst: [u8; 4], src_port: u16, dst_port: u16) -> Vec<u8> {
    let builder = PacketBuilder::ipv4(src, dst, 64).tcp(src_port, dst_port, 0, 1024).syn();
    let mut buf = Vec::with_capacity(builder.size(0));
    builder.write(&mut buf, &[]).unwrap();
    buf
}

fn build_ipv6_udp(src: [u8; 16], dst: [u8; 16], src_port: u16, dst_port: u16, payload: &[u8]) -> Vec<u8> {
    let builder = PacketBuilder::ipv6(src, dst, 64).udp(src_port, dst_port);
    let mut buf = Vec::with_capacity(builder.size(payload.len()));
    builder.write(&mut buf, payload).unwrap();
    buf
}

fn v4(a: u8, b: u8, c: u8, d: u8, port: u16) -> SocketAddr {
    SocketAddr::V4(SocketAddrV4 { ip: Ipv4Addr::new(a, b, c, d), port })
}

fn localhost_v6(port: u16) -> SocketAddr {
    SocketAddr::V6(SocketAddrV6 {
        ip: Ipv6Addr::new(0, 0, 0, 0, 0, 0, 0, 1),
        port,
        flowinfo: 0,
        scope_id: 0,
    })
}

#[test]
fn get_returns_buffer_with_at_least_capacity() {
    let mut pool = BufferPool::new(8, 1024);
    let buf = pool.get(2048);
    assert!(buf.capacity() >= 2048);
    assert_eq!(buf.len(), 0);
}

#[test]
fn get_uses_default_when_capacity_smaller() {
    let mut pool = BufferPool::new(8, 1024);
    let buf = pool.get(64);
    assert!(buf.capacity() >= 1024);
}

#[test]
fn buffer_returns_to_pool_on_drop() {
    let mut pool = BufferPool::new(4, 256);
    assert_eq!(pool.len(), 0);
    let buf = pool.get(256);
    assert_eq!(pool.len(), 0);
    pool.release(buf);
    assert_eq!(pool.len(), 1);
}

#[test]
fn pool_respects_max_pool_size() {
    let mut pool = BufferPool::new(2, 64);

    let mut bufs = Vec::new();
    for _ in 0..5 {
        bufs.push(pool.get(64));
    }
    for buf in bufs {
        pool.release(buf);
    }

    // Cannot exceed max_pool_size.
    assert!(pool.len() <= 2);
    assert_eq!(pool.len(), 2);
}

#[test]
fn pooled_buffer_is_cleared_on_get() {
    let mut pool = BufferPool::new(4, 64);
    {
        let mut buf = pool.get(64);
        buf.put_slice(b"hello");
        assert_eq!(buf.len(), 5);
        pool.release(buf);
    }
    let buf = pool.get(64);
    assert_eq!(buf.len(), 0);
}

#[test]
fn growing_capacity_works() {
    let mut pool = BufferPool::new(4, 64);
    let mut buf = pool.get(64);
    buf.put_slice(&[1u8; 64]);
    // Reuse asks for larger size: the buffer should expand.
    pool.release(buf);
    let buf = pool.get(2048);
    assert!(buf.capacity() >= 2048);
}

#[test]
fn ip_packet_v4_parsing() {
    let raw = build_ipv4_udp([10, 0, 0, 1], [10, 0, 0, 2], 1000, 53, b"hello");
    let pkt = IpPacket::new_checked(raw.as_slice()).unwrap();
    assert!(matches!(pkt, IpPacket::Ipv4(_)));
    assert_eq!(pkt.src_addr().to_text(), "10.0.0.1");
    assert_eq!(pkt.dst_addr().to_text(), "10.0.0.2");
    assert_eq!(pkt.protocol(), IpProtocol::Udp);
    assert_eq!(pkt.header_len(), 20);
    assert_eq!(pkt.payload().len(), 13);
}

#[test]
fn ip_packet_v6_parsing() {
    let src = [0x20, 0x01, 0xdb, 0x8, 0, 0, 0, 0, 0, 0, 0, 0, 0, 0, 0, 1];
    let dst = [0x20, 0x01, 0xdb, 0x8, 0, 0, 0, 0, 0, 0, 0, 0, 0, 0, 0, 2];
    let raw = build_ipv6_udp(src, dst, 1234, 4321, b"x");
    let pkt = IpPacket::new_checked(raw.as_slice()).unwrap();
    assert!(matches!(pkt, IpPacket::Ipv6(_)));
    assert_eq!(pkt.protocol(), IpProtocol::Udp);
    assert_eq!(pkt.src_addr(), IpAddr::V6(Ipv6Addr { octets: src }));
    assert_eq!(pkt.dst_addr(), IpAddr::V6(Ipv6Addr { octets: dst }));
    assert_eq!(pkt.payload().len(), 9);
}

#[test]
fn ip_packet_tcp_protocol() {
    let raw = build_ipv4_tcp([10, 0, 0, 1], [10, 0, 0, 2], 1000, 80);
    let pkt = IpPacket::new_checked(raw.as_slice()).unwrap();
    assert_eq!(pkt.protocol(), IpProtocol::Tcp);
}

#[test]
fn ip_packet_rejects_garbage() {
    let garbage = [0xff, 0xee, 0xdd, 0xcc];
    assert!(IpPacket::new_checked(&garbage[..]).is_err());
}

#[test]
fn netstack_config_defaults_are_sane() {
    let cfg = NetStackConfig::default(None);
    assert_eq!(cfg.mtu, 1500);
    assert!(cfg.channel_size >= 1024);
    assert!(cfg.tcp_recv_buffer_size >= 4096);
    assert!(cfg.tcp_send_buffer_size >= 4096);
    assert!(cfg.number_workers >= 1);
    assert_eq!(cfg.number_workers, 4);
    assert_eq!(NetStackConfig::default(Some(6)).number_workers, 6);
    assert_eq!(cfg.ipv4_prefix_len, 24);
    assert_eq!(cfg.ipv6_prefix_len, 64);
    assert_eq!(cfg.ip_ttl, 64);
    assert!(cfg.tcp_timeout > Duration::from_secs(0));
}

#[test]
fn packet_new_and_into_bytes_roundtrip() {
    let data = Bytes::from_static(b"raw_packet_data");
    let pkt = Packet::new(data.clone());
    assert_eq!(pkt.data(), data.as_ref());
    let back = pkt.into_bytes();
    assert_eq!(back, data);
}

#[test]
fn split_sink_routes_udp_to_udp_channel() {
    let mut sink = StackSplitSink::new();
    let raw = build_ipv4_udp([10, 0, 0, 1], [10, 0, 0, 2], 1000, 53, b"dns");
    sink.start_send(Packet::new(Bytes::from(raw.clone()))).unwrap();
    assert_eq!(sink.pending(), Some(Channel::Udp));
    let flush = sink.poll_flush(Room::Free, Room::Closed);
    assert!(matches!(flush.outcome, Some(Ok(()))));
    let (channel, got) = flush.delivered.expect("udp packet should arrive");
    assert_eq!(channel, Channel::Udp);
    assert!(!got.data().is_empty());
    assert_eq!(got.data(), &raw[..]);
    let again = sink.poll_flush(Room::Free, Room::Free);
    assert!(again.delivered.is_none() && matches!(again.outcome, Some(Ok(()))));
}

#[test]
fn split_sink_routes_tcp_to_tcp_channel() {
    let mut sink = StackSplitSink::new();
    let raw = build_ipv4_tcp([10, 0, 0, 1], [10, 0, 0, 2], 1000, 80);
    sink.start_send(Packet::new(Bytes::from(raw))).unwrap();
    assert_eq!(sink.pending(), Some(Channel::Tcp));
    let flush = sink.poll_flush(Room::Closed, Room::Free);
    let (channel, got) = flush.delivered.expect("tcp packet should arrive");
    assert_eq!(channel, Channel::Tcp);
    assert!(!got.data().is_empty());
}

#[test]
fn split_sink_ignores_empty_packet() {
    let mut sink = StackSplitSink::new();
    sink.start_send(Packet::new(Bytes::new())).unwrap();
    assert_eq!(sink.pending(), None);
    assert!(sink.poll_flush(Room::Free, Room::Free).delivered.is_none());
}

#[test]
fn split_sink_keeps_a_packet_until_there_is_room() {
    let mut sink = StackSplitSink::new();
    assert!(matches!(sink.poll_ready(Room::Full, Room::Full).outcome, Some(Ok(()))));
    let raw = build_ipv4_udp([10, 0, 0, 1], [10, 0, 0, 2], 1000, 53, b"dns");
    sink.start_send(Packet::new(Bytes::from(raw.clone()))).unwrap();
    let full = sink.poll_ready(Room::Full, Room::Free);
    assert!(full.outcome.is_none() && full.delivered.is_none());
    let free = sink.poll_ready(Room::Free, Room::Full);
    assert!(matches!(free.outcome, Some(Ok(()))));
    assert_eq!(free.delivered.expect("udp packet should arrive").1.data(), &raw[..]);
    sink.start_send(Packet::new(Bytes::from(raw))).unwrap();
    let closed = sink.poll_flush(Room::Closed, Room::Free);
    let e = closed.outcome.expect("flush should be over").unwrap_err();
    assert_eq!(e.kind, ErrorKind::BrokenPipe);
    assert!(closed.delivered.is_none());
    assert_eq!(sink.pending(), None);
}

#[test]
fn split_sink_rejects_malformed_packet() {
    let mut sink = StackSplitSink::new();
    let bad = Bytes::from_static(&[0u8, 1, 2, 3]);
    let result = sink.start_send(Packet::new(bad));
    assert!(result.is_err());
}

#[test]
fn udp_packet_from_tuple_constructs_correctly() {
    let data = Bytes::from_static(b"payload");
    let src = v4(10, 0, 0, 1, 1000);
    let dst = v4(10, 0, 0, 2, 53);
    let pkt = UdpPacket::new(Packet::new(data.clone()), src, dst);
    assert_eq!(pkt.data(), data.as_ref());
    assert_eq!(pkt.src_addr, src);
    assert_eq!(pkt.dst_addr, dst);
}

#[test]
fn split_write_emits_ipv4_udp_frame() {
    let payload = Bytes::from_static(b"hello dns");
    let pkt = UdpPacket {
        data: Packet::new(payload.clone()),
        src_addr: v4(10, 0, 0, 1, 5000),
        dst_addr: v4(8, 8, 8, 8, 53),
    };
    let mut pool = BufferPool::new(8, 1500);
    let out = pkt.send(&mut pool, 64).unwrap();

    // Validate that the produced bytes form a proper IPv4+UDP packet.
    let ip = IpPacket::new_checked(out.data()).unwrap();
    assert_eq!(ip.protocol(), IpProtocol::Udp);
    assert_eq!(ip.src_addr().to_text(), "10.0.0.1");
    assert_eq!(ip.dst_addr().to_text(), "8.8.8.8");
    assert_eq!(out.data(), &build_ipv4_udp([10, 0, 0, 1], [8, 8, 8, 8], 5000, 53, b"hello dns")[..]);
    assert_eq!(pool.len(), 1);
}

#[test]
fn split_write_emits_ipv6_udp_frame() {
    let pkt = UdpPacket {
        data: Packet::new(Bytes::from_static(b"ping")),
        src_addr: localhost_v6(1000),
        dst_addr: localhost_v6(53),
    };
    let mut pool = BufferPool::new(8, 1500);
    let out = pkt.send(&mut pool, 64).unwrap();
    let ip = IpPacket::new_checked(out.data()).unwrap();
    assert_eq!(ip.protocol(), IpProtocol::Udp);
}

#[test]
fn split_write_rejects_mixed_address_families() {
    let pkt = UdpPacket {
        data: Packet::new(Bytes::from_static(b"x")),
        src_addr: v4(10, 0, 0, 1, 1000),
        dst_addr: localhost_v6(53),
    };
    let mut pool = BufferPool::new(8, 1500);
    let err = pkt.send(&mut pool, 64).unwrap_err();
    assert_eq!(err.kind, ErrorKind::InvalidInput);
}

#[test]
fn split_read_extracts_udp_payload() {
    // Build a raw IPv4+UDP frame and inject it.
    let builder = PacketBuilder::ipv4([10, 0, 0, 1], [10, 0, 0, 2], 64).udp(2000, 53);
    let payload = b"query";
    let mut frame = Vec::with_capacity(builder.size(payload.len()));
    builder.write(&mut frame, payload).unwrap();

    let received = UdpPacket::recv(Packet::new(Bytes::from(frame))).expect("should parse a valid frame");
    assert_eq!(received.data(), payload);
    assert_eq!(received.src_addr.port(), 2000);
    assert_eq!(received.dst_addr.port(), 53);
}

#[test]
fn split_read_returns_none_on_garbage() {
    let got = UdpPacket::recv(Packet::new(Bytes::from_static(&[0xff, 0xff, 0xff])));
    // Invalid IP packet -> returns None (skipped, not propagated)
    assert!(got.is_none());
}

#[test]
fn udp_frames_round_trip() {
    let mut pool = BufferPool::new(8, 1500);
    for (src, dst) in [(v4(10, 0, 0, 1, 7), v4(10, 0, 0, 2, 9)), (localhost_v6(7), localhost_v6(9))] {
        let sent = UdpPacket::new(Packet::new(Bytes::from_static(b"there and back")), src, dst);
        let frame = sent.send(&mut pool, 64).unwrap();
        let back = UdpPacket::recv(frame).unwrap();
        assert_eq!(back.data(), b"there and back");
        assert_eq!(back.src_addr, src);
        assert_eq!(back.dst_addr, dst);
    }
}

#[test]
fn datagrams_survive_the_wire() {
    let mut pool = BufferPool::new(8, 1500);
    let end = |port, flowinfo, scope_id| {
        let mut a = localhost_v6(port);
        if let SocketAddr::V6(x) = &mut a {
            x.flowinfo = flowinfo;
            x.scope_id = scope_id;
        }
        a
    };
    let data = Packet::new(Bytes::from_static(b"abc"));
    let sent = UdpPacket::new(data.clone(), end(1, 0, 0), end(2, 0, 0));
    let received = UdpPacket::recv(sent.send(&mut pool, 64).unwrap()).unwrap();
    assert_eq!(received.src_addr, sent.src_addr);
    assert_eq!(received.dst_addr, sent.dst_addr);
    assert_eq!(received.data(), b"abc");
    let scoped = UdpPacket::new(data, end(1, 3, 7), end(2, 0, 9));
    let received = UdpPacket::recv(scoped.send(&mut pool, 64).unwrap()).unwrap();
    assert_eq!(received.src_addr, end(1, 0, 0));
    assert_eq!(received.dst_addr, end(2, 0, 0));
}

#[test]
fn frames_have_these_headers() {
    let mut pool = BufferPool::new(8, 1500);
    let data = Packet::new(Bytes::from_static(b"abc"));
    let frame = UdpPacket::new(data.clone(), v4(10, 0, 0, 1, 0x1234), v4(8, 8, 8, 8, 53))
        .send(&mut pool, 61)
        .unwrap();
    let bytes = frame.data();
    assert_eq!(bytes.len(), 31);
    assert_eq!(&bytes[..10], &[0x45, 0, 0, 31, 0, 0, 0x40, 0, 61, 17]);
    assert_eq!(&bytes[12..26], &[10, 0, 0, 1, 8, 8, 8, 8, 0x12, 0x34, 0, 53, 0, 11]);
    assert_eq!(&bytes[28..], b"abc");
    let frame = UdpPacket::new(data, localhost_v6(0x1234), localhost_v6(53))
        .send(&mut pool, 61)
        .unwrap();
    let bytes = frame.data();
    assert_eq!(bytes.len(), 51);
    assert_eq!(&bytes[..8], &[0x60, 0, 0, 0, 0, 11, 17, 61]);
    assert_eq!(&bytes[40..46], &[0x12, 0x34, 0, 53, 0, 11]);
    assert_eq!(&bytes[48..], b"abc");
    let pkt = UdpPacket::new(
        Packet::new(Bytes::from(vec![0u8; 65528])),
        localhost_v6(1),
        localhost_v6(2),
    );
    assert_eq!(pkt.send(&mut pool, 64).unwrap_err().kind, ErrorKind::Other);
}

#[test]
fn oversized_datagram_is_an_error() {
    let mut pool = BufferPool::new(8, 1500);
    let pkt = UdpPacket::new(
        Packet::new(Bytes::from(vec![0u8; 65508])),
        v4(10, 0, 0, 1, 7),
        v4(10, 0, 0, 2, 9),
    );
    assert_eq!(pkt.send(&mut pool, 64).unwrap_err().kind, ErrorKind::Other);
    let pkt = UdpPacket::new(
        Packet::new(Bytes::from(vec![0u8; 65507])),
        v4(10, 0, 0, 1, 7),
        v4(10, 0, 0, 2, 9),
    );
    assert_eq!(pkt.send(&mut pool, 64).unwrap().data().len(), 65535);
}

fn hash_of(frame: &[u8]) -> Option<u64> {
    flow_key(frame).map(|ends| {
        let mut hasher = DefaultHasher::new();
        ends.hash(&mut hasher);
        hasher.finish()
    })
}

#[test]
fn both_directions_share_a_worker() {
    let there = build_ipv4_tcp([10, 0, 0, 1], [1, 2, 3, 4], 40000, 443);
    let back = build_ipv4_tcp([1, 2, 3, 4], [10, 0, 0, 1], 443, 40000);
    assert_eq!(flow_key(&there), Some((v4(1, 2, 3, 4, 443), v4(10, 0, 0, 1, 40000))));
    assert_eq!(flow_key(&there), flow_key(&back));
    for workers in [1usize, 2, 3, 8] {
        let i = worker_index(hash_of(&there), workers);
        assert!(i < workers);
        assert_eq!(i, worker_index(hash_of(&back), workers));
    }
    let ports = build_ipv4_tcp([10, 0, 0, 1], [10, 0, 0, 1], 9, 7);
    assert_eq!(flow_key(&ports), Some((v4(10, 0, 0, 1, 7), v4(10, 0, 0, 1, 9))));
    assert_eq!(worker_index(Some(13), 5), 3);
    assert_eq!(worker_index(None, 5), 0);
    let udp = build_ipv4_udp([10, 0, 0, 1], [1, 2, 3, 4], 40000, 443, b"x");
    assert_eq!(flow_key(&udp), None);
}

#[test]
fn syn_opens_a_connection() {
    let syn = build_ipv4_tcp([10, 0, 0, 1], [1, 2, 3, 4], 40000, 443);
    assert_eq!(opens_connection(&syn), Some((v4(10, 0, 0, 1, 40000), v4(1, 2, 3, 4, 443))));
    let builder = PacketBuilder::ipv4([10, 0, 0, 1], [1, 2, 3, 4], 64)
        .tcp(40000, 443, 0, 1024)
        .syn()
        .ack(7);
    let mut syn_ack = Vec::new();
    builder.write(&mut syn_ack, &[]).unwrap();
    assert_eq!(opens_connection(&syn_ack), None);
}

#[test]
fn connections_are_accepted_but_for_port_zero() {
    let config = NetStackConfig::default(None);
    let syn = build_ipv4_tcp([10, 0, 0, 1], [1, 2, 3, 4], 40000, 443);
    let (socket, stream) = process_inbound_frame(&config, &syn).unwrap().unwrap();
    assert_eq!(stream.local_addr(), v4(10, 0, 0, 1, 40000));
    assert_eq!(stream.remote_addr(), v4(1, 2, 3, 4, 443));
    assert!(socket.is_listening());
    assert_eq!(socket.listen_endpoint().port, 443);
    assert_eq!(socket.send_capacity(), config.tcp_send_buffer_size);
    assert_eq!(socket.recv_capacity(), config.tcp_recv_buffer_size);
    assert!(!socket.nagle_enabled());
    assert_eq!(
        socket.keep_alive(),
        Some(smoltcp::time::Duration::from_micros((config.tcp_keep_alive.nanos / 1000) as u64))
    );
    assert_eq!(
        socket.timeout(),
        Some(smoltcp::time::Duration::from_micros((config.tcp_timeout.nanos / 1000) as u64))
    );
    assert_eq!(
        socket.congestion_control(),
        smoltcp::socket::tcp::CongestionControl::Cubic
    );

    match accept_new_connection(&config, v4(10, 0, 0, 1, 40000), v4(1, 2, 3, 4, 0)) {
        Err(e) => {
            assert_eq!(e.kind, ErrorKind::Other);
            assert_eq!(e.message, "unaddressable destination");
        }
        Ok(_) => panic!("port 0 should be refused"),
    }
    let udp = build_ipv4_udp([10, 0, 0, 1], [1, 2, 3, 4], 40000, 443, b"x");
    assert!(process_inbound_frame(&config, &udp).unwrap().is_none());
}

#[test]
fn stream_queues_are_bounded() {
    let mut stream = TcpStream::new(v4(10, 0, 0, 1, 1), v4(1, 2, 3, 4, 2), 8, 4);
    let mut out = [0u8; 8];
    assert_eq!(stream.poll_read(&mut out), ReadOutcome::Pending);
    assert!(matches!(stream.poll_write(b"abcdef"), WriteOutcome::Written(4)));
    assert!(matches!(stream.poll_write(b"ef"), WriteOutcome::Pending));
    assert!(!stream.poll_flush());
    assert!(!stream.poll_shutdown());
    stream.close();
    match stream.poll_write(b"x") {
        WriteOutcome::Broken(e) => assert_eq!(e.kind, ErrorKind::BrokenPipe),
        _ => panic!("should be broken"),
    }
}

#[test]
fn sockets_that_are_not_open_end_the_stream() {
    let config = NetStackConfig::default(None);
    let (mut socket, mut stream) =
        accept_new_connection(&config, v4(10, 0, 0, 1, 1), v4(1, 2, 3, 4, 2)).unwrap();
    let report = stream.handle_socket_io(&mut socket);
    assert_eq!((report.read, report.written), (0, 0));
    assert!(!report.wake_reader);
    assert!(!prune(&stream, &mut socket));
    stream.close();
    assert!(prune(&stream, &mut socket));
    assert!(!socket.is_open());
    let report = stream.handle_socket_io(&mut socket);
    assert!(report.wake_reader);
    let mut out = [0u8; 8];
    assert_eq!(stream.poll_read(&mut out), ReadOutcome::Closed);
}

#[test]
fn quiet_round_leads_to_waiting() {
    let mut worker = TcpConnectionWorker::new();
    assert!(matches!(worker.accept_loop(WorkerEvent::Start), WorkerAction::Receive));
    assert!(matches!(worker.accept_loop(WorkerEvent::NoneWaiting), WorkerAction::Poll));
    assert!(matches!(worker.accept_loop(WorkerEvent::Polled(false)), WorkerAction::Serve));
    assert!(matches!(worker.accept_loop(WorkerEvent::Served(0, 0)), WorkerAction::Serve));
    assert!(matches!(worker.accept_loop(WorkerEvent::AllServed), WorkerAction::Prune));
    assert!(matches!(worker.accept_loop(WorkerEvent::Pruned(false)), WorkerAction::Poll));
    assert!(matches!(worker.accept_loop(WorkerEvent::Polled(false)), WorkerAction::AskDelay));
    let due = WorkerEvent::NextPoll(Some(Duration::from_secs(0)));
    assert!(matches!(worker.accept_loop(due), WorkerAction::Wait(None)));
    assert_eq!(worker.phase, Phase::Idle);
    assert!(matches!(worker.accept_loop(WorkerEvent::Notified), WorkerAction::Receive));
}

#[test]
fn busy_round_is_followed_by_another() {
    let mut worker = TcpConnectionWorker::new();
    worker.accept_loop(WorkerEvent::Start);
    let packet = Packet::new(Bytes::from_static(b"x"));
    assert!(matches!(worker.accept_loop(WorkerEvent::Inbound(packet)), WorkerAction::Process(_)));
    worker.accept_loop(WorkerEvent::Processed);
    worker.accept_loop(WorkerEvent::NoneWaiting);
    worker.accept_loop(WorkerEvent::Polled(false));
    worker.accept_loop(WorkerEvent::AllServed);
    worker.accept_loop(WorkerEvent::Pruned(false));
    assert!(matches!(worker.accept_loop(WorkerEvent::Polled(false)), WorkerAction::CheckBacklog));
    assert!(matches!(
        worker.accept_loop(WorkerEvent::BacklogEmpty(true)),
        WorkerAction::YieldAndReceive
    ));
    worker.accept_loop(WorkerEvent::NoneWaiting);
    worker.accept_loop(WorkerEvent::Polled(false));
    worker.accept_loop(WorkerEvent::Served(3, 0));
    worker.accept_loop(WorkerEvent::AllServed);
    worker.accept_loop(WorkerEvent::Pruned(false));
    assert!(matches!(worker.accept_loop(WorkerEvent::Polled(false)), WorkerAction::Receive));
    assert_eq!(worker, TcpConnectionWorker::new());
}

#[test]
fn socket_addresses_of_either_family() {
    assert_eq!(socket_addr(IpAddr::V4(Ipv4Addr::new(1, 2, 3, 4)), 5), v4(1, 2, 3, 4, 5));
}

/// Lets the interface work for a while.
fn run(
    iface: &mut Interface,
    device: &mut Loopback,
    sockets: &mut SocketSet<'static>,
    millis: &mut i64,
) {
    for _ in 0..20 {
        *millis += 20;
        iface.poll(smoltcp::time::Instant::from_millis(*millis), device, sockets);
    }
}

#[test]
fn bytes_pass_between_socket_and_stream() {
    let config = NetStackConfig::default(None);
    let (socket, mut stream) =
        accept_new_connection(&config, v4(10, 0, 0, 1, 40000), v4(10, 0, 0, 1, 443)).unwrap();
    let mut device = Loopback::new(Medium::Ip);
    let mut millis = 0;
    let mut iface = Interface::new(
        Config::new(HardwareAddress::Ip),
        &mut device,
        smoltcp::time::Instant::from_millis(millis),
    );
    iface.update_ip_addrs(|addrs| {
        addrs.push(IpCidr::new(IpAddress::v4(10, 0, 0, 1), 24)).unwrap();
    });
    let mut sockets = SocketSet::new(vec![]);
    let server = sockets.add(socket);
    let client = sockets.add(Socket::new(
        SocketBuffer::new(vec![0u8; 4096]),
        SocketBuffer::new(vec![0u8; 4096]),
    ));
    sockets
        .get_mut::<Socket>(client)
        .connect(iface.context(), (IpAddress::v4(10, 0, 0, 1), 443), 40000)
        .unwrap();
    run(&mut iface, &mut device, &mut sockets, &mut millis);
    assert!(sockets.get_mut::<Socket>(server).may_send());

    sockets.get_mut::<Socket>(client).send_slice(b"from the client").unwrap();
    run(&mut iface, &mut device, &mut sockets, &mut millis);
    let report = stream.handle_socket_io(sockets.get_mut::<Socket>(server));
    assert_eq!((report.read, report.written), (15, 0));
    assert!(report.wake_reader && !report.wake_writer);
    let mut out = [0u8; 32];
    assert_eq!(stream.poll_read(&mut out[..4]), ReadOutcome::Data(4));
    assert_eq!(&out[..4], b"from");
    assert_eq!(stream.poll_read(&mut out), ReadOutcome::Data(11));
    assert_eq!(&out[..11], b" the client");
    assert_eq!(stream.poll_read(&mut out), ReadOutcome::Pending);

    assert!(matches!(stream.poll_write(b"from the stack"), WriteOutcome::Written(14)));
    assert!(!stream.poll_flush());
    let report = stream.handle_socket_io(sockets.get_mut::<Socket>(server));
    assert!(report.written >= 14 && report.wake_writer);
    assert!(stream.poll_flush());
    run(&mut iface, &mut device, &mut sockets, &mut millis);
    let mut got = [0u8; 32];
    let n = sockets.get_mut::<Socket>(client).recv_slice(&mut got).unwrap();
    assert_eq!(&got[..n], b"from the stack");

    assert!(!prune(&stream, sockets.get_mut::<Socket>(server)));
    assert!(stream.poll_shutdown());
    assert!(prune(&stream, sockets.get_mut::<Socket>(server)));
}
