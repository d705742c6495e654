use bytes::Bytes;
use ombrac::address::{IpAddr, Ipv4Addr, Ipv6Addr, SocketAddr, SocketAddrV4};
use ombrac::congestion::Congestion;
use ombrac::error::{Error, ErrorKind};
use ombrac::ffi::{c_str_to_string, ServiceSlot, StartupEvent, StartupStep, FAILURE, SUCCESS};
use ombrac::logging::{default_filter, entry_bytes, level_to_int, max_level, Level};
use ombrac::secret::secret_of;
use ombrac::server::config::{TlsMode, TransportConfig};
use ombrac::server::connection::{
    close_reason, disconnect_delay, perform_authentication, secret_tag, verify_secret, Admission,
    AuthEvent, AuthStep, ConnectionAuthError, ConnectionLimit,
};
use ombrac::server::datagram::{
    bind_addr, handle_upstream_packet, lookup_host, on_read_failure, send_timeout, BindRetry,
    BindStep, Lookup, PacketEvent, PacketStep, ReadStep,
};
use ombrac::server::dns::{domain_name, resolve_domain};
use ombrac::server::service::{drain, quic_server_from_config, DrainStep};
use ombrac::server::stream::{
    classify_error, disconnect_reason, StreamEvent, StreamGuard, StreamStep,
};
use ombrac::server::transport::Builder;
use ombrac::time::Duration;
use ombrac::transport::LimitSetting;
use ombrac::tunnel::{
    Address, ClientHello, ConnectErrorKind, ServerConnectResponse, UpstreamMessage,
};

fn v4(a: u8, b: u8, c: u8, d: u8, port: u16) -> SocketAddr {
    SocketAddr::V4(SocketAddrV4 { ip: Ipv4Addr::new(a, b, c, d), port })
}

fn failure() -> Error {
    Error::new(ErrorKind::ConnectionReset, "gone")
}

fn hello(version: u8, secret: [u8; 32]) -> ClientHello {
    ClientHello { version, secret, options: Bytes::new() }
}

#[test]
fn test_resolve_domain_valid_localhost() {
    let name = domain_name(b"localhost").unwrap();
    let answer = Ok(vec![IpAddr::V4(Ipv4Addr::new(127, 0, 0, 1))]);
    let addr = resolve_domain(&name, 80, answer).expect("localhost should resolve");
    assert_eq!(addr.port(), 80);
}

#[test]
fn test_resolve_domain_ipv4_literal() {
    let name = domain_name(b"127.0.0.1").unwrap();
    let answer = Ok(vec![IpAddr::V4(Ipv4Addr::new(127, 0, 0, 1))]);
    let addr = resolve_domain(&name, 9000, answer).expect("IP literal should resolve");
    assert_eq!(addr.port(), 9000);
    assert_eq!(addr.to_text(), "127.0.0.1:9000");
}

#[test]
fn test_resolve_domain_invalid_utf8() {
    let err = domain_name(b"\xff\xfe").expect_err("invalid utf-8 should fail");
    assert_eq!(err.kind, ErrorKind::InvalidInput);
    assert!(err.message.contains("utf-8"));
}

#[test]
fn test_resolve_domain_empty_bytes() {
    let name = domain_name(b"").unwrap();
    let result = resolve_domain(&name, 80, Ok(vec![]));
    assert!(result.is_err(), "empty domain should fail");
}

#[test]
fn test_resolve_domain_nonexistent() {
    let name = domain_name(b"this-absolutely-does-not-exist.ombrac-test-invalid").unwrap();
    let err = resolve_domain(&name, 80, Err("no record found".into()))
        .expect_err("non-existent domain should fail");
    assert_eq!(err.kind, ErrorKind::NotFound);
    assert_eq!(
        err.message,
        "dns resolution failed for this-absolutely-does-not-exist.ombrac-test-invalid: no record found"
    );
}

#[test]
fn secrets_are_hashed() {
    // The BLAKE3 hash of the empty input.
    assert_eq!(secret_tag(&secret_of("")), "af1349");
    let secret = secret_of("pass");
    assert_ne!(secret, secret_of("word"));
    assert_eq!(verify_secret(&secret, &hello(1, secret_of("pass"))), Ok(()));
    assert_eq!(
        verify_secret(&secret, &hello(1, secret_of("word"))),
        Err(ConnectionAuthError::InvalidSecret)
    );
}

#[test]
fn authentication_runs_through() {
    let step = |event| perform_authentication(event, 10, 1);
    assert!(matches!(step(AuthEvent::StreamAccepted(Ok(()))), AuthStep::ReadHello));
    let message = UpstreamMessage::Hello(hello(1, [3u8; 32]));
    assert!(matches!(step(AuthEvent::Message(message)), AuthStep::Verify(_)));
    assert!(matches!(step(AuthEvent::Verified(Ok(()))), AuthStep::Answer));
    assert!(matches!(step(AuthEvent::Answered(Ok(()))), AuthStep::Accept));
}

fn auth_failure(step: AuthStep) -> Error {
    match step {
        AuthStep::Fail(e) => e,
        _ => panic!("should fail at once"),
    }
}

fn late_failure(step: AuthStep) -> Error {
    match step {
        AuthStep::DelayThenFail(d, e) => {
            assert!(d >= Duration::from_millis(100) && d <= Duration::from_millis(500));
            e
        }
        _ => panic!("should fail late"),
    }
}

#[test]
fn authentication_failures() {
    let step = |event| perform_authentication(event, 10, 1);
    let e = late_failure(step(AuthEvent::Message(UpstreamMessage::Hello(hello(2, [3u8; 32])))));
    assert_eq!((e.kind, e.message.as_str()), (ErrorKind::PermissionDenied, "incompatible version"));
    let connect = UpstreamMessage::Connect(Address::Domain(Bytes::from_static(b"a"), 1));
    assert_eq!(late_failure(step(AuthEvent::Message(connect))).kind, ErrorKind::InvalidData);
    assert_eq!(
        auth_failure(step(AuthEvent::HelloTimedOut)).message,
        "authentication timeout: failed to receive hello message within 10s"
    );
    assert_eq!(
        auth_failure(step(AuthEvent::AnswerTimedOut)).message,
        "authentication timeout: failed to send response within 10s"
    );
    assert_eq!(auth_failure(step(AuthEvent::HelloClosed)).kind, ErrorKind::UnexpectedEof);
    assert_eq!(auth_failure(step(AuthEvent::HelloFailed(failure()))), failure());
    assert_eq!(
        auth_failure(step(AuthEvent::HelloUndecodable("bad tag".into()))).message,
        "failed to decode client message: bad tag"
    );
    assert_eq!(auth_failure(step(AuthEvent::VerifyTimedOut)).kind, ErrorKind::TimedOut);
    assert_eq!(auth_failure(step(AuthEvent::VerifyTimedOut)).message, "timed out");
    assert_eq!(
        auth_failure(step(AuthEvent::StreamAccepted(Err(failure())))).message,
        "failed to accept bidirectional stream: gone"
    );
    for (e, kind) in [
        (ConnectionAuthError::IncompatibleVersion, ErrorKind::Unsupported),
        (ConnectionAuthError::InvalidSecret, ErrorKind::PermissionDenied),
        (ConnectionAuthError::ServerError, ErrorKind::ConnectionAborted),
        (ConnectionAuthError::Other("x".into()), ErrorKind::Other),
    ] {
        assert_eq!(auth_failure(step(AuthEvent::Verified(Err(e)))).kind, kind);
    }
}

#[test]
fn delays_vary_within_bounds() {
    let delays: Vec<Duration> = (0..64).map(|_| disconnect_delay()).collect();
    assert!(delays.iter().all(|d| *d >= Duration::from_millis(100)));
    assert!(delays.iter().all(|d| *d <= Duration::from_millis(500)));
    assert!(delays.iter().any(|d| *d != delays[0]));
}

#[test]
fn places_are_limited() {
    let mut limit = ConnectionLimit::new(1);
    assert!(matches!(limit.handle_incoming_connection(Ok(())), Admission::Process));
    assert!(matches!(limit.handle_incoming_connection(Ok(())), Admission::Full(1)));
    assert!(matches!(
        limit.handle_incoming_connection(Err(failure())),
        Admission::Failed(_)
    ));
    limit.release();
    assert!(matches!(limit.handle_incoming_connection(Ok(())), Admission::Process));
}

#[test]
fn close_reasons() {
    assert_eq!(close_reason(&Ok(())), "ok");
    assert_eq!(close_reason(&Err(failure())), "client disconnect: connection reset");
    let e = Error::new(ErrorKind::BrokenPipe, "x");
    assert_eq!(close_reason(&Err(e)), "client disconnect: broken pipe");
    let e = Error::new(ErrorKind::UnexpectedEof, "x");
    assert_eq!(close_reason(&Err(e)), "client disconnect: unexpected end of file");
    let e = Error::new(ErrorKind::Other, "boom");
    assert_eq!(close_reason(&Err(e)), "error: boom");
}

#[test]
fn failures_are_classified() {
    let kind = |k, m| classify_error(&Error::new(k, m));
    assert_eq!(kind(ErrorKind::TimedOut, "dns"), ConnectErrorKind::TimedOut);
    assert_eq!(kind(ErrorKind::ConnectionRefused, ""), ConnectErrorKind::ConnectionRefused);
    assert_eq!(kind(ErrorKind::NetworkUnreachable, ""), ConnectErrorKind::NetworkUnreachable);
    assert_eq!(kind(ErrorKind::HostUnreachable, ""), ConnectErrorKind::HostUnreachable);
    assert_eq!(
        kind(ErrorKind::NotFound, "x could not be resolved"),
        ConnectErrorKind::DnsResolutionFailed
    );
    assert_eq!(kind(ErrorKind::NotFound, "no dns"), ConnectErrorKind::Other);
    assert_eq!(kind(ErrorKind::Other, "DNS failed"), ConnectErrorKind::DnsResolutionFailed);
    assert_eq!(kind(ErrorKind::Other, "failed to Lookup"), ConnectErrorKind::DnsResolutionFailed);
    assert_eq!(kind(ErrorKind::Other, "boom"), ConnectErrorKind::Other);
}

#[test]
fn stream_is_connected_and_relayed() {
    let mut guard = StreamGuard::new();
    let dest = Address::Domain(Bytes::from_static(b"example.com"), 80);
    let message = Some(Ok(UpstreamMessage::Connect(dest.clone())));
    assert!(matches!(guard.handle_connect(StreamEvent::Message(message)), StreamStep::Resolve(_)));
    assert!(matches!(
        guard.handle_connect(StreamEvent::Resolved(dest.clone(), Ok(v4(1, 2, 3, 4, 80)))),
        StreamStep::Connect(_)
    ));
    assert_eq!(guard.destination, Some(dest));
    assert!(matches!(
        guard.handle_connect(StreamEvent::Connected(Some(Ok(())))),
        StreamStep::Answer(ServerConnectResponse::Connected)
    ));
    assert!(matches!(guard.handle_connect(StreamEvent::Answered(Ok(5))), StreamStep::Forward));
    assert!(matches!(guard.handle_connect(StreamEvent::Forwarded(Ok(()))), StreamStep::Relay));
    let relayed = StreamEvent::Relayed { up: 10, down: 20, result: Ok(()) };
    assert!(matches!(guard.handle_connect(relayed), StreamStep::Finish(Ok(()))));
    assert_eq!(guard.totals(), (15, 20));
    assert_eq!(disconnect_reason(&guard.reason), "ok");
}

#[test]
fn stream_failures_are_told() {
    let mut guard = StreamGuard::new();
    match guard.handle_connect(StreamEvent::Connected(None)) {
        StreamStep::Answer(ServerConnectResponse::Failed { kind, message }) => {
            assert_eq!(kind, ConnectErrorKind::TimedOut);
            assert_eq!(message, "Connection timeout");
        }
        _ => panic!("should tell the client"),
    }
    match guard.handle_connect(StreamEvent::Answered(Ok(0))) {
        StreamStep::Finish(Err(e)) => assert_eq!(e.kind, ErrorKind::ConnectionRefused),
        _ => panic!("should end the stream"),
    }
    assert_eq!(disconnect_reason(&guard.reason), "Connection timeout");
    guard.finish(Err(Error::new(ErrorKind::ConnectionRefused, "Failed to connect to destination")));
    assert_eq!(disconnect_reason(&guard.reason), "Failed to connect to destination");
    let mut untold = StreamGuard::new();
    untold.handle_connect(StreamEvent::Connected(None));
    let lost = Error::new(ErrorKind::BrokenPipe, "gone");
    match untold.handle_connect(StreamEvent::Answered(Err(lost))) {
        StreamStep::Finish(Err(e)) => assert_eq!(e.message, "gone"),
        _ => panic!("should end the stream"),
    }
    assert!(untold.reason.is_none());
    untold.finish(Ok(()));
    assert!(untold.reason.is_none());
    match guard.handle_connect(StreamEvent::Message(None)) {
        StreamStep::Finish(Err(e)) => assert_eq!(e.kind, ErrorKind::UnexpectedEof),
        _ => panic!("should end the stream"),
    }
    let hello = Some(Ok(UpstreamMessage::Hello(hello(1, [0u8; 32]))));
    match guard.handle_connect(StreamEvent::Message(hello)) {
        StreamStep::Finish(Err(e)) => assert_eq!(e.kind, ErrorKind::InvalidData),
        _ => panic!("should end the stream"),
    }
}

#[test]
fn datagram_decisions() {
    let name = Address::Domain(Bytes::from_static(b"a"), 7);
    assert!(matches!(lookup_host(&name, None), Lookup::Resolve(_, 7)));
    assert!(matches!(lookup_host(&name, Some(v4(1, 1, 1, 1, 7))), Lookup::Known(_)));
    assert_eq!(bind_addr(&v4(1, 1, 1, 1, 7)), "0.0.0.0:0");
    let mut retry = BindRetry::new();
    assert!(matches!(retry.on_failure(failure()), BindStep::RetryAfter(_)));
    assert!(matches!(retry.on_failure(failure()), BindStep::RetryAfter(_)));
    assert!(matches!(retry.on_failure(failure()), BindStep::GiveUp(_)));
    let timed_out = Error::new(ErrorKind::TimedOut, "");
    assert!(matches!(on_read_failure(timed_out), ReadStep::Again(_)));
    assert!(matches!(on_read_failure(failure()), ReadStep::Finish(_)));
    assert_eq!(send_timeout().message, "send_datagram timeout after 5s");
    assert!(matches!(
        handle_upstream_packet(PacketEvent::Undecodable),
        PacketStep::Finish(Ok(()))
    ));
    assert!(matches!(
        handle_upstream_packet(PacketEvent::Assembled(Err(failure()))),
        PacketStep::Finish(Err(_))
    ));
    let complete = PacketEvent::Assembled(Ok(Some((1, name, Bytes::new()))));
    assert!(matches!(handle_upstream_packet(complete), PacketStep::FindSession(1, _, _)));
    assert!(matches!(
        handle_upstream_packet(PacketEvent::Session(Ok(()))),
        PacketStep::AwaitPermit
    ));
    assert!(matches!(handle_upstream_packet(PacketEvent::Permit(true)), PacketStep::Forward));
}

#[test]
fn quic_server_settings_by_mode() {
    let tls = |mode: TlsMode, ca: bool, cert: bool, key: bool| {
        quic_server_from_config(TransportConfig {
            tls_mode: Some(mode),
            ca_cert: ca.then_some("ca.pem".into()),
            tls_cert: cert.then_some("c.pem".into()),
            tls_key: key.then_some("k.pem".into()),
            ..TransportConfig::default()
        })
    };
    let q = tls(TlsMode::Tls, true, true, true).ok().unwrap();
    assert!(q.tls_cert_key_paths.is_some() && q.root_ca_path.is_none() && !q.enable_self_signed);
    assert_eq!(q.max_idle_timeout, Duration::from_secs(30));
    assert_eq!(q.keep_alive_period, Duration::from_secs(8));
    assert_eq!(q.max_streams, 1000);
    assert_eq!(q.congestion, (Congestion::Bbr, None));
    let q = tls(TlsMode::MTls, true, true, true).ok().unwrap();
    assert!(q.tls_cert_key_paths.is_some() && q.root_ca_path.is_some());
    let q = tls(TlsMode::Insecure, false, false, false).ok().unwrap();
    assert!(q.enable_self_signed && q.tls_cert_key_paths.is_none());
    for (result, field) in [
        (tls(TlsMode::Tls, true, false, true), "transport.tls_cert"),
        (tls(TlsMode::Tls, true, true, false), "transport.tls_key"),
        (tls(TlsMode::MTls, true, false, true), "transport.tls_cert for mTLS"),
        (tls(TlsMode::MTls, true, true, false), "transport.tls_key for mTLS"),
        (tls(TlsMode::MTls, false, true, true), "transport.ca_cert for mTLS"),
    ] {
        assert_eq!(
            result.err().unwrap(),
            format!("'{field}' is required but was not provided")
        );
    }
}

#[test]
fn server_drains_until_the_deadline() {
    let deadline = Duration::from_secs(5);
    assert_eq!(drain(7, 7, Duration::from_secs(9), deadline), DrainStep::Drained);
    assert_eq!(drain(7, 8, Duration::from_secs(1), deadline), DrainStep::Drained);
    assert_eq!(drain(7, 5, Duration::from_secs(1), deadline), DrainStep::Wait);
    assert_eq!(drain(7, 5, Duration::from_secs(5), deadline), DrainStep::TimedOut(2));
}

#[test]
fn server_builder_lists_its_limits() {
    let b = Builder::new("0.0.0.0:443".into(), "c.pem".into(), "k.pem".into())
        .with_max_open_bidirectional_streams(9)
        .with_max_handshake_duration(Duration::from_secs(3));
    assert_eq!(
        b.limit_settings(),
        vec![
            LimitSetting::MaxOpenLocalBidirectionalStreams(9),
            LimitSetting::MaxOpenRemoteBidirectionalStreams(9),
            LimitSetting::MaxHandshakeDuration(Duration::from_secs(3)),
        ]
    );
}

#[test]
fn levels_and_filters() {
    assert_eq!(level_to_int(&Level::Error), 4);
    assert_eq!(level_to_int(&Level::Warn), 3);
    assert_eq!(level_to_int(&Level::Info), 2);
    assert_eq!(level_to_int(&Level::Debug), 1);
    assert_eq!(level_to_int(&Level::Trace), 0);
    assert_eq!(max_level(&Some("debug".into())), Level::Debug);
    assert_eq!(max_level(&Some("ERROR".into())), Level::Error);
    assert_eq!(max_level(&Some("loud".into())), Level::Warn);
    assert_eq!(max_level(&None), Level::Info);
    assert_eq!(max_level(&Some("1".into())), Level::Error);
    assert_eq!(max_level(&Some("+2".into())), Level::Warn);
    assert_eq!(max_level(&Some("005".into())), Level::Trace);
    assert_eq!(max_level(&Some("4".into())), Level::Debug);
    assert_eq!(max_level(&Some("Info".into())), Level::Info);
    assert_eq!(max_level(&Some("15".into())), Level::Warn);
    assert_eq!(max_level(&Some("0".into())), Level::Warn);
    assert_eq!(max_level(&Some("".into())), Level::Warn);
    assert_eq!(default_filter(&None), "info");
    assert_eq!(default_filter(&Some("trace".into())), "trace");
    assert_eq!(entry_bytes(b"line\n"), b"line");
    assert_eq!(entry_bytes(b"line\n\n"), b"line\n");
    assert_eq!(entry_bytes(b""), b"");
}

#[test]
fn services_start_and_stop() {
    let mut slot = ServiceSlot::new();
    assert_eq!(slot.rebind(true), FAILURE);
    assert_eq!(slot.startup(StartupEvent::ConfigRead(true)), StartupStep::MakeRuntime);
    assert_eq!(slot.startup(StartupEvent::RuntimeMade(true)), StartupStep::Build);
    assert_eq!(slot.startup(StartupEvent::Built(true)), StartupStep::Return(SUCCESS));
    assert_eq!(slot.startup(StartupEvent::Built(true)), StartupStep::Return(FAILURE));
    assert_eq!(slot.rebind(true), SUCCESS);
    assert_eq!(slot.rebind(false), FAILURE);
    assert_eq!(slot.shutdown(), (true, SUCCESS));
    assert_eq!(slot.shutdown(), (false, SUCCESS));
    assert_eq!(slot.startup(StartupEvent::ConfigRead(false)), StartupStep::Return(FAILURE));
    assert_eq!(slot.startup(StartupEvent::Panicked), StartupStep::Return(FAILURE));
    assert_eq!(c_str_to_string(None), "");
    assert_eq!(c_str_to_string(Some(b"\xff")), "");
    assert_eq!(c_str_to_string(Some(b"caf\xc3\xa9")), "caf\u{e9}");
}

#[test]
fn addresses_as_text() {
    assert_eq!(Ipv6Addr::new(0x2001, 0xdb8, 0, 0, 1, 0, 0, 1).to_text(), "2001:db8::1:0:0:1");
    assert_eq!(Ipv6Addr::new(0, 0, 0, 0, 0, 0, 0, 0).to_text(), "::");
    assert_eq!(Ipv6Addr::new(1, 0, 2, 3, 4, 5, 6, 7).to_text(), "1:0:2:3:4:5:6:7");
    assert_eq!(Ipv6Addr::new(0, 0, 0, 0, 0, 0xffff, 0x0102, 0x0304).to_text(), "::ffff:1.2.3.4");
    assert_eq!(Ipv4Addr::new(255, 0, 10, 1).to_text(), "255.0.10.1");
    assert_eq!(Ipv4Addr::from_bits(0x01020304), Ipv4Addr::new(1, 2, 3, 4));
    assert_eq!(Ipv4Addr::new(1, 2, 3, 4).to_bits(), 0x01020304);
    let lossy = Address::Domain(Bytes::from_static(b"a\xff"), 1);
    assert_eq!(lossy.to_text(), "a\u{fffd}:1");
}
