use bytes::Bytes;
use hickory_proto::op::{Message, MessageType, Query, ResponseCode};
use hickory_proto::rr::{Name, RData, RecordType};
use ombrac::address::{IpAddr, Ipv4Addr, Ipv6Addr, SocketAddr, SocketAddrV4, SocketAddrV6};
use ombrac::client::config::{EndpointConfig, TlsMode, TransportConfig};
use ombrac::client::connection::{
    accept_response_length, connect_message, handshake, is_connection_error, length_prefix,
    open_bidirectional, HandshakeEvent, HandshakeStep, ReconnectAction, ReconnectEvent,
    ReconnectState, Retry, RetryStep,
};
use ombrac::client::datagram::{
    read_datagram, DatagramEvent, DatagramStep, ReadDelay, SessionIds, UdpDispatcher,
};
use ombrac::client::fakedns::{read_query, DnsPlan, FakeDns, Ipv4Net};
use ombrac::client::http::{
    extract_target_address, is_connection_closed_error, proxy_handler, ProxyStep,
};
use ombrac::client::multiplex::{
    Config, Multiplex, MultiplexEvent, MultiplexLimit, MultiplexStep, QuicArgs,
};
use ombrac::client::service::{
    self, fake_dns_pool, quic_client_from_config, server_addr, server_name, tun_device, TunDevice,
};
use ombrac::client::stream::BufferedStream;
use ombrac::client::transport::{supply, Builder, SupplyEvent, SupplyStep};
use ombrac::client::tun::{
    after_handover, is_private_or_reserved, route_udp, should_skip_address, target_address,
    FlowChange, FlowEvent, FlowStep, TunConfig, UdpFlow, UdpRoute,
};
use ombrac::client::config;
use ombrac::congestion::Congestion;
use ombrac::error::{Error, ErrorKind};
use ombrac::time::Duration;
use ombrac::transport::LimitSetting;
use ombrac::tunnel::{
    Address, ConnectErrorKind, DownstreamMessage, HandshakeError, ServerConnectResponse,
    ServerHandshakeResponse, UpstreamMessage,
};

fn v4(a: u8, b: u8, c: u8, d: u8, port: u16) -> SocketAddr {
    SocketAddr::V4(SocketAddrV4 { ip: Ipv4Addr::new(a, b, c, d), port })
}

fn v6(port: u16) -> SocketAddr {
    SocketAddr::V6(SocketAddrV6 {
        ip: Ipv6Addr::new(0x2a00, 1, 0, 0, 0, 0, 0, 1),
        port,
        flowinfo: 0,
        scope_id: 0,
    })
}

fn lost(now: u64) -> ReconnectEvent {
    ReconnectEvent::Lost { connection: 0, now: Duration::from_secs(now) }
}

fn failure() -> Error {
    Error::new(ErrorKind::ConnectionReset, "gone")
}

#[test]
fn reconnect_backs_off_up_to_a_minute() {
    let mut state = ReconnectState::new();
    let mut now = 100;
    let mut pauses = Vec::new();
    for _ in 0..8 {
        assert!(matches!(state.reconnect(lost(now)), ReconnectAction::Rebind));
        assert!(matches!(
            state.reconnect(ReconnectEvent::Rebound(Err(failure()))),
            ReconnectAction::Finish(Err(_))
        ));
        pauses.push(state.backoff);
        now += 60;
    }
    let secs: Vec<Duration> = [2, 4, 8, 16, 32, 60, 60, 60].map(Duration::from_secs).to_vec();
    assert_eq!(pauses, secs);
}

#[test]
fn reconnect_is_throttled_until_it_succeeds() {
    let mut state = ReconnectState::new();
    assert!(matches!(state.reconnect(lost(10)), ReconnectAction::Rebind));
    match state.reconnect(lost(10)) {
        ReconnectAction::WaitThenFail(wait, e) => {
            assert_eq!(wait, Duration::from_secs(1));
            assert_eq!(e.message, "reconnect throttled");
        }
        _ => panic!("should be throttled"),
    }
    assert!(matches!(
        state.reconnect(ReconnectEvent::Lost { connection: 7, now: Duration::from_secs(10) }),
        ReconnectAction::Finish(Ok(()))
    ));
    assert!(matches!(
        state.reconnect(ReconnectEvent::Rebound(Ok(()))),
        ReconnectAction::Handshake
    ));
    assert!(matches!(
        state.reconnect(ReconnectEvent::Shaken(Ok(()))),
        ReconnectAction::Finish(Ok(()))
    ));
    assert_eq!(state.current, 1);
    assert_eq!(state.backoff, Duration::from_secs(1));
    assert!(matches!(state.reconnect(lost(10)), ReconnectAction::Finish(Ok(()))));
    assert!(matches!(
        state.reconnect(ReconnectEvent::Lost { connection: 1, now: Duration::from_secs(10) }),
        ReconnectAction::Rebind
    ));
}

#[test]
fn operations_are_retried_once() {
    let mut retry = Retry::new();
    assert_eq!(retry.with_retry(Some(&failure())), RetryStep::Reconnect);
    assert_eq!(retry.reconnected(None), RetryStep::Again);
    assert_eq!(retry.with_retry(Some(&failure())), RetryStep::Finish);
    let mut retry = Retry::new();
    assert_eq!(retry.with_retry(Some(&failure())), RetryStep::Reconnect);
    assert_eq!(retry.reconnected(Some(&failure())), RetryStep::Finish);
    let mut retry = Retry::new();
    assert_eq!(retry.with_retry(None), RetryStep::Finish);
    let other = Error::new(ErrorKind::PermissionDenied, "no");
    assert!(!is_connection_error(&other));
    assert_eq!(retry.with_retry(Some(&other)), RetryStep::Finish);
}

#[test]
fn handshake_runs_through() {
    let step = |event| handshake(event, 1, [7u8; 32], Bytes::from_static(b"opt"));
    assert!(matches!(step(HandshakeEvent::Connected(Ok(()))), HandshakeStep::OpenStream));
    match step(HandshakeEvent::Opened(Ok(()))) {
        HandshakeStep::Send(UpstreamMessage::Hello(hello)) => {
            assert_eq!(hello.version, 1);
            assert_eq!(hello.secret, [7u8; 32]);
            assert_eq!(&hello.options[..], b"opt");
        }
        _ => panic!("should say hello"),
    }
    assert!(matches!(step(HandshakeEvent::Sent(Ok(()))), HandshakeStep::AwaitAnswer));
    assert!(matches!(
        step(HandshakeEvent::Answered(Some(Ok(ServerHandshakeResponse::Accepted)))),
        HandshakeStep::ShutDown
    ));
    assert!(matches!(
        step(HandshakeEvent::ShutDown(Ok(()))),
        HandshakeStep::Finish(Ok(()))
    ));
}

fn finish_error(step: HandshakeStep) -> Error {
    match step {
        HandshakeStep::Finish(Err(e)) => e,
        _ => panic!("should fail"),
    }
}

#[test]
fn handshake_failures_have_kinds() {
    let step = |event| handshake(event, 1, [7u8; 32], Bytes::new());
    let e = finish_error(step(HandshakeEvent::Answered(Some(Ok(
        ServerHandshakeResponse::Rejected(HandshakeError::InvalidSecret),
    )))));
    assert_eq!(e.kind, ErrorKind::PermissionDenied);
    assert_eq!(e.message, "server rejected handshake: InvalidSecret");
    let e = finish_error(step(HandshakeEvent::Answered(Some(Ok(
        ServerHandshakeResponse::Rejected(HandshakeError::Other("Unsupported".into())),
    )))));
    assert_eq!(e.kind, ErrorKind::InvalidData);
    assert_eq!(e.message, "server rejected handshake: Unsupported");
    assert_eq!(finish_error(step(HandshakeEvent::Answered(None))).kind, ErrorKind::UnexpectedEof);
    assert_eq!(finish_error(step(HandshakeEvent::TimedOut)).kind, ErrorKind::TimedOut);
    assert_eq!(finish_error(step(HandshakeEvent::Sent(Err(failure())))), failure());
}

#[test]
fn opening_a_stream_reports_the_servers_failure() {
    assert_eq!(length_prefix(0x01020304), [1, 2, 3, 4]);
    let dest = Address::Domain(Bytes::from_static(b"example.com"), 80);
    assert_eq!(connect_message(dest.clone()), UpstreamMessage::Connect(dest.clone()));
    assert_eq!(accept_response_length(8 * 1024 * 1024), Ok(8 * 1024 * 1024));
    let e = accept_response_length(8 * 1024 * 1024 + 1).unwrap_err();
    assert_eq!(e.message, "response message too large: 8388609 bytes");
    let ok = DownstreamMessage::ConnectResponse(ServerConnectResponse::Connected);
    assert_eq!(open_bidirectional(&dest, ok), Ok(()));
    let failed = DownstreamMessage::ConnectResponse(ServerConnectResponse::Failed {
        kind: ConnectErrorKind::ConnectionRefused,
        message: "refused".into(),
    });
    let e = open_bidirectional(&dest, failed).unwrap_err();
    assert_eq!(e.kind, ErrorKind::ConnectionRefused);
    assert_eq!(e.message, "failed to connect to example.com:80: refused");
    let e = open_bidirectional(&dest, DownstreamMessage::Other).unwrap_err();
    assert_eq!(e.kind, ErrorKind::InvalidData);
}

#[test]
fn sessions_stay_apart() {
    let mut dispatcher = UdpDispatcher::new();
    let a = dispatcher.register_session(1);
    let b = dispatcher.register_session(2);
    assert_ne!(a, b);
    assert_eq!(dispatcher.dispatch(1), Some(a));
    assert_eq!(dispatcher.dispatch(2), Some(b));
    assert_eq!(dispatcher.dispatch(3), None);
    dispatcher.delivered(1, true);
    assert_eq!(dispatcher.dispatch(1), Some(a));
    dispatcher.delivered(1, false);
    assert_eq!(dispatcher.dispatch(1), None);
    dispatcher.unregister_session(2);
    assert_eq!(dispatcher.dispatch(2), None);
}

#[test]
fn session_ids_and_read_delays() {
    let mut ids = SessionIds::new();
    assert_eq!((ids.open_associate(), ids.open_associate()), (1, 2));
    let mut last = SessionIds { next: u64::MAX };
    assert_eq!((last.open_associate(), last.open_associate()), (u64::MAX, 0));
    let mut delay = ReadDelay::new();
    let waits: Vec<Duration> = (0..8).map(|_| delay.on_failure()).collect();
    assert_eq!(waits, [1, 2, 4, 8, 16, 32, 60, 60].map(Duration::from_secs).to_vec());
    delay.on_success();
    assert_eq!(delay.on_failure(), Duration::from_secs(1));
}

#[test]
fn bad_packets_are_skipped() {
    assert!(matches!(read_datagram(DatagramEvent::Undecodable), DatagramStep::ReadNext));
    assert!(matches!(read_datagram(DatagramEvent::Incomplete), DatagramStep::ReadNext));
    assert!(matches!(read_datagram(DatagramEvent::Inconsistent), DatagramStep::ReadNext));
    assert!(matches!(
        read_datagram(DatagramEvent::Failed(failure())),
        DatagramStep::Finish(Err(_))
    ));
    let address = Address::Domain(Bytes::from_static(b"a"), 1);
    match read_datagram(DatagramEvent::Complete(9, address, Bytes::from_static(b"x"))) {
        DatagramStep::Finish(Ok((id, _, data))) => {
            assert_eq!(id, 9);
            assert_eq!(&data[..], b"x");
        }
        _ => panic!("should be complete"),
    }
}

fn dns_query(name: &str, record: RecordType) -> Vec<u8> {
    let mut message = Message::new();
    message.set_id(77);
    message.add_query(Query::query(Name::from_ascii(name).unwrap(), record));
    message.to_vec().unwrap()
}

#[test]
fn names_get_addresses_of_the_pool() {
    let net = Ipv4Net { addr: Ipv4Addr::new(198, 18, 0, 0), prefix_len: 16 };
    let mut dns = FakeDns::new(net);
    assert_eq!(dns.max_hosts(), 65534);
    let query = dns_query("Example.com.", RecordType::A);
    let plan = read_query(&query);
    match &plan {
        DnsPlan::Answer(q) => {
            assert_eq!(q.key, "example.com.");
            assert_eq!(q.name, "Example.com.");
            assert_eq!(q.query_type, 1);
        }
        _ => panic!("should be answered"),
    }
    let reply = dns.handle_dns_query(&query, None);
    assert_eq!(reply.mapped, Some(Ipv4Addr::new(198, 18, 0, 3)));
    let response = Message::from_vec(&reply.response.unwrap()).unwrap();
    assert_eq!(response.id(), 77);
    assert_eq!(response.message_type(), MessageType::Response);
    assert_eq!(response.response_code(), ResponseCode::NoError);
    let answer = &response.answers()[0];
    assert_eq!(answer.ttl(), 5);
    assert_eq!(answer.name(), response.queries()[0].name());
    match answer.data() {
        RData::A(a) => assert_eq!(a.0.octets(), [198, 18, 0, 3]),
        _ => panic!("should be an address"),
    }
    let again = dns.handle_dns_query(&query, reply.mapped);
    assert_eq!(again.mapped, None);
    assert!(again.response.is_some());
    let other = dns.handle_dns_query(&dns_query("example.org.", RecordType::A), None);
    assert_eq!(other.mapped, Some(Ipv4Addr::new(198, 18, 0, 4)));
}

#[test]
fn other_record_types_are_refused() {
    let mut dns = FakeDns::new(Ipv4Net { addr: Ipv4Addr::new(10, 9, 8, 7), prefix_len: 29 });
    let query = dns_query("example.com.", RecordType::AAAA);
    let plan = read_query(&query);
    assert_eq!(plan, DnsPlan::Refuse);
    let reply = dns.handle_dns_query(&query, None);
    let response = Message::from_vec(&reply.response.unwrap()).unwrap();
    assert_eq!(response.response_code(), ResponseCode::Refused);
    assert_eq!(response.message_type(), MessageType::Response);
    assert!(response.answers().is_empty());
    assert_eq!(read_query(b"no query"), DnsPlan::Ignore);
    assert_eq!(read_query(&Message::new().to_vec().unwrap()), DnsPlan::Ignore);
    assert!(dns.handle_dns_query(b"no query", None).response.is_none());
}

#[test]
fn pool_runs_out_and_recycles() {
    let mut dns = FakeDns::new(Ipv4Net { addr: Ipv4Addr::new(10, 9, 8, 13), prefix_len: 29 });
    assert_eq!(dns.max_hosts(), 6);
    let mut given = Vec::new();
    while let Some(ip) = dns.allocate_unique_ip() {
        given.push(ip);
    }
    assert_eq!(
        given,
        [11u8, 12, 13, 14].map(|d| Ipv4Addr::new(10, 9, 8, d)).to_vec()
    );
    dns.recycle(given[2]);
    assert_eq!(dns.resolve(None), Some((given[2], true)));
    assert_eq!(dns.resolve(Some(given[0])), Some((given[0], false)));
    assert_eq!(dns.resolve(None), None);
}

#[test]
fn http_targets() {
    let ip = IpAddr::V4(Ipv4Addr::new(1, 2, 3, 4));
    assert_eq!(
        extract_target_address(Some("1.2.3.4"), Some(ip), Some(8080), false),
        Ok(Address::SocketV4(SocketAddrV4 { ip: Ipv4Addr::new(1, 2, 3, 4), port: 8080 }))
    );
    assert_eq!(
        extract_target_address(Some("example.com"), None, None, true),
        Ok(Address::Domain(Bytes::from_static(b"example.com"), 443))
    );
    assert_eq!(
        extract_target_address(Some("example.com"), None, None, false),
        Ok(Address::Domain(Bytes::from_static(b"example.com"), 80))
    );
    assert_eq!(extract_target_address(None, None, None, false), Err(400));
    assert_eq!(proxy_handler(&Err(failure()), true), ProxyStep::Respond(503));
    assert_eq!(proxy_handler(&Ok(()), true), ProxyStep::Tunnel);
    assert_eq!(proxy_handler(&Ok(()), false), ProxyStep::Forward);
    assert!(is_connection_closed_error("error: connection closed before message completed"));
    assert!(!is_connection_closed_error("parse error"));
}

#[test]
fn streams_take_turns() {
    let limit = MultiplexLimit { max_multiplex: 3, max_per_interval: 10 };
    let mut m = Multiplex::new();
    assert_eq!(m.stream(&limit, MultiplexEvent::StreamTaken), MultiplexStep::Stay);
    assert_eq!(m.stream(&limit, MultiplexEvent::StreamTaken), MultiplexStep::Stay);
    assert_eq!(m.stream(&limit, MultiplexEvent::StreamTaken), MultiplexStep::Switch);
    let limit = MultiplexLimit { max_multiplex: 0, max_per_interval: 2 };
    let mut m = Multiplex::new();
    assert_eq!(m.stream(&limit, MultiplexEvent::StreamTaken), MultiplexStep::Stay);
    assert_eq!(m.stream(&limit, MultiplexEvent::Tick), MultiplexStep::Stay);
    assert_eq!(m.stream(&limit, MultiplexEvent::StreamTaken), MultiplexStep::Stay);
    assert_eq!(m.stream(&limit, MultiplexEvent::StreamTaken), MultiplexStep::Switch);
    let mut m = Multiplex::new();
    assert_eq!(m.stream(&limit, MultiplexEvent::OpenFailed), MultiplexStep::Switch);
    assert_eq!(m.stream(&limit, MultiplexEvent::NobodyTakes), MultiplexStep::Stop);
}

fn quic_args(address: &str) -> QuicArgs {
    QuicArgs {
        bind: None,
        server_name: None,
        server_address: address.into(),
        tls_cert: None,
        initial_congestion_window: 32,
        max_multiplex: 4,
        max_handshake_duration: 3000,
        max_idle_timeout: 30000,
        max_keep_alive_period: 8000,
        max_open_bidirectional_streams: 100,
        bidirectional_local_data_window: 1,
        bidirectional_remote_data_window: 2,
    }
}

#[test]
fn multiplex_config_from_arguments() {
    let c = Config::from_args(quic_args("example.com:443"), Some(v4(1, 2, 3, 4, 443))).ok().unwrap();
    assert_eq!(c.server_name, "example.com");
    assert_eq!(c.bind, v4(0, 0, 0, 0, 0));
    assert_eq!(
        c.limit_settings(),
        vec![
            LimitSetting::BidirectionalLocalDataWindow(1),
            LimitSetting::BidirectionalRemoteDataWindow(2),
            LimitSetting::MaxOpenLocalBidirectionalStreams(100),
            LimitSetting::MaxOpenRemoteBidirectionalStreams(100),
            LimitSetting::MaxHandshakeDuration(Duration::from_secs(3)),
            LimitSetting::MaxKeepAlivePeriod(Duration::from_secs(8)),
            LimitSetting::MaxIdleTimeout(Duration::from_secs(30)),
        ]
    );
    let c = c
        .with_server_name("other".into())
        .with_bind(v4(127, 0, 0, 1, 9))
        .with_tls_cert("cert.pem".into())
        .with_max_handshake_duration(Duration::from_secs(4));
    assert_eq!(c.server_name, "other");
    assert_eq!(c.bind, v4(127, 0, 0, 1, 9));
    assert_eq!(c.tls_cert.as_deref(), Some("cert.pem"));
    assert_eq!(c.limits.max_handshake_duration, Some(Duration::from_secs(4)));
    assert_eq!(c.limits.max_open_bidirectional_streams, Some(100));
    let e = Config::from_args(quic_args("nowhere"), None).err().unwrap();
    assert_eq!(e.message, "invalid remote address");
    let e = Config::with_address("example.com:443", None).err().unwrap();
    assert_eq!(e.message, "unable to resolve address example.com");
}

#[test]
fn transport_builder_derives_names_and_addresses() {
    let b = Builder::new("example.com:443".into());
    assert_eq!(b.server_name().unwrap(), "example.com");
    assert_eq!(b.local_address(&v4(1, 2, 3, 4, 5)), "0.0.0.0:0");
    assert_eq!(b.local_address(&v6(5)), "[::]:0");
    assert_eq!(
        b.server_address(None).unwrap_err().message,
        "unable to resolve address 'example.com:443'"
    );
    assert_eq!(b.server_address(Some(v6(5))).unwrap(), v6(5));
    assert!(b.limit_settings().is_empty());
    let b = b
        .with_server_name("other".into())
        .with_bind("127.0.0.1:9".into())
        .with_max_idle_timeout(Duration::from_secs(1))
        .with_initial_congestion_window(9);
    assert_eq!(b.server_name().unwrap(), "other");
    assert_eq!(b.local_address(&v6(5)), "127.0.0.1:9");
    assert_eq!(b.initial_congestion_window, Some(9));
    assert_eq!(b.limit_settings(), vec![LimitSetting::MaxIdleTimeout(Duration::from_secs(1))]);
    assert!(Builder::new("nowhere".into()).server_name().is_err());
}

#[test]
fn supply_reconnects_until_nobody_takes() {
    assert_eq!(supply(SupplyEvent::Connected(true)), SupplyStep::KeepAlive);
    assert_eq!(supply(SupplyEvent::KeptAlive(true)), SupplyStep::Open);
    assert_eq!(supply(SupplyEvent::Opened(true)), SupplyStep::HandOver);
    assert_eq!(supply(SupplyEvent::Taken(true)), SupplyStep::Open);
    assert_eq!(supply(SupplyEvent::Taken(false)), SupplyStep::Stop);
    assert_eq!(supply(SupplyEvent::Connected(false)), SupplyStep::Connect);
    assert_eq!(supply(SupplyEvent::KeptAlive(false)), SupplyStep::Connect);
    assert_eq!(supply(SupplyEvent::Opened(false)), SupplyStep::Connect);
}

#[test]
fn service_names_and_addresses() {
    assert_eq!(server_name("example.com:443", &None).unwrap(), "example.com");
    assert_eq!(server_name("[::1]:443", &None).unwrap(), "[::1]");
    assert_eq!(server_name("x", &Some("n".into())).unwrap(), "n");
    let e = server_name("x", &None).unwrap_err();
    assert_eq!(e.kind, ErrorKind::InvalidInput);
    assert_eq!(e.message, "invalid server address: x");
    assert_eq!(server_addr("x", &vec![v6(1), v4(1, 1, 1, 1, 1)]).unwrap(), v6(1));
    assert_eq!(
        server_addr("x:1", &vec![]).unwrap_err().message,
        "failed to resolve server address: 'x:1'"
    );
}

#[test]
fn quic_client_settings_by_mode() {
    let plain = TransportConfig { ca_cert: Some("ca.pem".into()), ..TransportConfig::default() };
    let q = quic_client_from_config(plain, v6(1), "n".into()).ok().unwrap();
    assert!(q.root_ca_path.is_some() && q.client_cert_key_paths.is_none());
    assert!(!q.skip_server_verification);
    assert_eq!(q.max_idle_timeout, Some(Duration::from_secs(30)));
    assert_eq!(q.keep_alive_period, Some(Duration::from_secs(8)));
    assert_eq!(q.congestion, Some((Congestion::Bbr, None)));
    assert_eq!(q.bind, None);
    let bound = TransportConfig { bind: Some(v4(10, 0, 0, 2, 9)), ..TransportConfig::default() };
    let q = quic_client_from_config(bound, v6(1), "n".into()).ok().unwrap();
    assert_eq!(q.bind, Some(v4(10, 0, 0, 2, 9)));
    let insecure = TransportConfig {
        tls_mode: Some(TlsMode::Insecure),
        ca_cert: Some("ca.pem".into()),
        ..TransportConfig::default()
    };
    let q = quic_client_from_config(insecure, v6(1), "n".into()).ok().unwrap();
    assert!(q.skip_server_verification && q.root_ca_path.is_none());
    let mtls = |ca: bool, cert: bool, key: bool| {
        let t = TransportConfig {
            tls_mode: Some(TlsMode::MTls),
            ca_cert: ca.then_some("ca.pem".into()),
            client_cert: cert.then_some("c.pem".into()),
            client_key: key.then_some("k.pem".into()),
            ..TransportConfig::default()
        };
        quic_client_from_config(t, v6(1), "n".into())
    };
    assert!(mtls(true, true, true).ok().unwrap().client_cert_key_paths.is_some());
    assert_eq!(mtls(false, true, true).err().unwrap().message, "ca cert is required for mutual tls mode");
    assert_eq!(mtls(true, false, true).err().unwrap().message, "client cert is required for mutual tls mode");
    assert_eq!(mtls(true, true, false).err().unwrap().message, "client key is required for mutual tls mode");
}

#[test]
fn client_starts_its_endpoints() {
    match service::build(&EndpointConfig::default()) {
        Err(service::Error::Config(m)) => assert!(m.starts_with("no endpoints were configured")),
        _ => panic!("should have nothing to do"),
    }
    let endpoint = EndpointConfig {
        socks: Some(v4(127, 0, 0, 1, 1080)),
        tun: Some(config::TunConfig::default()),
        ..EndpointConfig::default()
    };
    let started = service::build(&endpoint).ok().unwrap();
    assert!(started.socks && !started.http && !started.tun);
}

#[test]
fn tun_devices_from_configuration() {
    let unset = config::TunConfig {
        tun_fd: None,
        tun_ipv4: None,
        tun_ipv6: None,
        tun_mtu: None,
        fake_dns: None,
        disable_udp_443: None,
    };
    let tun = config::TunConfig {
        tun_ipv4: Some("10.0.0.7/24".into()),
        tun_ipv6: Some("fd00::1/64".into()),
        fake_dns: Some("198.18.0.0/15".into()),
        ..unset.clone()
    };
    match tun_device(&tun).ok().unwrap() {
        TunDevice::New { mtu, ipv4, ipv6 } => {
            assert_eq!(mtu, 1500);
            assert_eq!(ipv4, Some((Ipv4Addr::new(10, 0, 0, 7), 24)));
            assert_eq!(ipv6, Some((Ipv6Addr::new(0xfd00, 0, 0, 0, 0, 0, 0, 1), 64)));
        }
        _ => panic!("should be new"),
    }
    assert_eq!(fake_dns_pool(&tun).ok().unwrap(), Some((Ipv4Addr::new(198, 18, 0, 0), 15)));
    let bad = config::TunConfig {
        tun_ipv4: Some("10.0.0.7".into()),
        fake_dns: Some("x".into()),
        ..unset.clone()
    };
    match tun_device(&bad) {
        Err(service::Error::Config(m)) => {
            assert_eq!(m, "failed to parse ipv4 cidr '10.0.0.7': invalid IP address syntax")
        }
        _ => panic!("should be refused"),
    }
    match fake_dns_pool(&bad) {
        Err(service::Error::Config(m)) => {
            assert_eq!(m, "failed to parse fake_dns cidr 'x': invalid IP address syntax")
        }
        _ => panic!("should be refused"),
    }
    let bad6 = config::TunConfig { tun_ipv6: Some("fd00::1/129".into()), ..unset.clone() };
    match tun_device(&bad6) {
        Err(service::Error::Config(m)) => {
            assert_eq!(m, "failed to parse ipv6 cidr 'fd00::1/129': invalid IP address syntax")
        }
        _ => panic!("should be refused"),
    }
    let existing = config::TunConfig { tun_fd: Some(5), ..bad };
    assert!(matches!(tun_device(&existing), Ok(TunDevice::Existing(5))));
}

#[test]
fn buffered_bytes_come_first() {
    let mut stream = BufferedStream::new(0u8, Bytes::from_static(b"hello"));
    let mut out = [0u8; 3];
    assert_eq!(stream.poll_read(&mut out), Some(3));
    assert_eq!(&out, b"hel");
    assert_eq!(stream.poll_read(&mut out), Some(2));
    assert_eq!(&out, b"lol");
    assert_eq!(stream.poll_read(&mut out), None);
    *stream.stream_mut() = 9;
    assert_eq!(*stream.stream_mut(), 9);
    assert_eq!(BufferedStream::without_buffer(()).poll_read(&mut out), None);
}

#[test]
fn private_addresses_are_skipped() {
    for (a, b, c, d) in [
        (10, 1, 2, 3), (172, 16, 0, 1), (172, 31, 9, 9), (192, 168, 1, 1), (127, 0, 0, 1),
        (169, 254, 1, 1), (224, 0, 0, 1), (255, 255, 255, 255), (192, 0, 2, 1), (198, 51, 100, 1),
        (203, 0, 113, 1), (0, 0, 0, 0), (100, 64, 0, 1), (192, 0, 0, 1), (198, 19, 0, 1),
        (240, 0, 0, 1), (241, 0, 0, 1), (250, 1, 2, 3), (255, 255, 255, 254),
    ] {
        assert!(is_private_or_reserved(&IpAddr::V4(Ipv4Addr::new(a, b, c, d))));
    }
    for (a, b, c, d) in [(8, 8, 8, 8), (172, 32, 0, 1), (100, 128, 0, 1), (198, 20, 0, 1)] {
        assert!(!is_private_or_reserved(&IpAddr::V4(Ipv4Addr::new(a, b, c, d))));
    }
    for ip in [
        Ipv6Addr::new(0, 0, 0, 0, 0, 0, 0, 1),
        Ipv6Addr::new(0, 0, 0, 0, 0, 0, 0, 0),
        Ipv6Addr::new(0xff02, 0, 0, 0, 0, 0, 0, 1),
        Ipv6Addr::new(0xfd00, 0, 0, 0, 0, 0, 0, 1),
        Ipv6Addr::new(0xfe80, 0, 0, 0, 0, 0, 0, 1),
        Ipv6Addr::new(0x2001, 0xdb8, 0, 0, 0, 0, 0, 1),
        Ipv6Addr::new(0x100, 0, 0, 0, 0, 0, 0, 1),
    ] {
        assert!(is_private_or_reserved(&IpAddr::V6(ip)));
    }
    assert!(!is_private_or_reserved(&IpAddr::V6(Ipv6Addr::new(0x2606, 0x4700, 0, 0, 0, 0, 0, 1))));
    assert!(!should_skip_address(&Address::Domain(Bytes::from_static(b"example.com"), 1)));
}

#[test]
fn packets_find_their_target() {
    let config = TunConfig::default();
    let local = v4(10, 0, 0, 2, 5000);
    let fake = v4(198, 18, 0, 3, 443);
    assert_eq!(
        target_address(&config, &local, &fake, Some("example.com.".into())).unwrap(),
        Address::Domain(Bytes::from_static(b"example.com."), 443)
    );
    assert_eq!(
        target_address(&config, &local, &fake, None).unwrap_err().message,
        "dns cache miss: 10.0.0.2:5000 -> 198.18.0.3:443"
    );
    assert_eq!(
        target_address(&config, &local, &v4(192, 168, 0, 1, 80), None).unwrap_err().message,
        "skipping private/reserved address: 10.0.0.2:5000 -> 192.168.0.1:80"
    );
    assert_eq!(
        target_address(&config, &local, &v6(80), None).unwrap(),
        Address::SocketV6(SocketAddrV6 {
            ip: Ipv6Addr::new(0x2a00, 1, 0, 0, 0, 0, 0, 1),
            port: 80,
            flowinfo: 0,
            scope_id: 0,
        })
    );
}

#[test]
fn udp_packets_are_routed() {
    let open = TunConfig::default();
    let closed = TunConfig::with(None, Some(true));
    assert_eq!(route_udp(&open, &v4(8, 8, 8, 8, 53)), UdpRoute::Dns);
    assert_eq!(route_udp(&open, &v4(8, 8, 8, 8, 443)), UdpRoute::Tunnel);
    assert_eq!(route_udp(&closed, &v4(8, 8, 8, 8, 443)), UdpRoute::Drop);
    assert_eq!(after_handover(true, true), FlowChange::Keep);
    assert_eq!(after_handover(true, false), FlowChange::Remove);
    assert_eq!(after_handover(false, true), FlowChange::Start);
    assert_eq!(after_handover(false, false), FlowChange::Nothing);
}

#[test]
fn udp_flow_counts_and_answers() {
    let local = v4(10, 0, 0, 2, 5000);
    let fake = v4(198, 18, 0, 3, 443);
    let mut flow = UdpFlow::new(local, fake);
    let target = Address::Domain(Bytes::from_static(b"example.com"), 443);
    assert!(matches!(
        flow.relay_udp_flow(FlowEvent::Outgoing(Bytes::from_static(b"abc"), target)),
        FlowStep::Send(_, _)
    ));
    assert_eq!(flow.target.as_deref(), Some("example.com:443"));
    assert!(matches!(flow.relay_udp_flow(FlowEvent::Sent), FlowStep::Rearm));
    match flow.relay_udp_flow(FlowEvent::Incoming(Bytes::from_static(b"answer"))) {
        FlowStep::Deliver(p) => {
            assert_eq!(p.src_addr, fake);
            assert_eq!(p.dst_addr, local);
            assert_eq!(p.data(), b"answer");
        }
        _ => panic!("should be delivered"),
    }
    assert_eq!((flow.sent, flow.received), (3, 6));
    assert!(matches!(flow.relay_udp_flow(FlowEvent::Delivered(true)), FlowStep::Rearm));
    assert!(matches!(flow.relay_udp_flow(FlowEvent::Delivered(false)), FlowStep::End(a) if a == flow.local));
    assert!(matches!(flow.relay_udp_flow(FlowEvent::Idle), FlowStep::End(a) if a == flow.local));
}
