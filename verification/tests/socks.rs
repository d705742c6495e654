use bytes::{BufMut, Bytes, BytesMut};
use ombrac::address::{IpAddr, Ipv4Addr, Ipv6Addr, SocketAddr, SocketAddrV4, SocketAddrV6};
use ombrac::error::{Error, ErrorKind};
use ombrac::socks::protocol::{
    encode_reply, method, Address, Read, Reply, Request, UdpPacket, ATYP_DOMAIN, ATYP_IPV4,
    ATYP_IPV6, CMD_ASSOCIATE, CMD_BIND, CMD_CONNECT, VERSION,
};
use ombrac::socks::{
    associate_reply, bind_addr_for, connect_reply, dispatch, negotiate_method, reply_failure,
    Command, Negotiation, RelayAction, RelayEvent, UdpRelay,
};
use ombrac::tunnel;

fn v4(a: u8, b: u8, c: u8, d: u8, port: u16) -> SocketAddrV4 {
    SocketAddrV4 { ip: Ipv4Addr::new(a, b, c, d), port }
}

fn localhost_v6(port: u16) -> SocketAddrV6 {
    SocketAddrV6 { ip: Ipv6Addr::new(0, 0, 0, 0, 0, 0, 0, 1), port, flowinfo: 0, scope_id: 0 }
}

fn encode(addr: &Address) -> BytesMut {
    let mut b = BytesMut::new();
    addr.encode(&mut b);
    b
}

fn read_address(input: &[u8]) -> Address {
    match Address::read(input) {
        Read::Ready(address, used) => {
            assert_eq!(used, input.len());
            address
        }
        _ => panic!("should be an address"),
    }
}

fn read_request(input: &[u8]) -> Request {
    match Request::read(input) {
        Read::Ready(request, used) => {
            assert_eq!(used, input.len());
            request
        }
        _ => panic!("should be a request"),
    }
}

#[test]
fn method_constants() {
    assert_eq!(method::NO_AUTHENTICATION, 0x00);
    assert_eq!(method::NO_ACCEPTABLE_METHOD, 0xFF);
}

#[test]
fn address_ipv4_round_trip() {
    let addr = Address::IPv4(v4(127, 0, 0, 1, 8080));
    let bytes = encode(&addr);
    assert_eq!(bytes.len(), addr.encoded_len());
    assert_eq!(bytes[0], ATYP_IPV4);
    assert_eq!(&bytes[..], &[1u8, 127, 0, 0, 1, 0x1f, 0x90][..]);

    assert_eq!(read_address(&bytes), addr);

    let mut b = bytes.freeze();
    assert_eq!(Address::from_buf(&mut b).unwrap(), addr);
}

#[test]
fn address_ipv6_round_trip() {
    let addr = Address::IPv6(SocketAddrV6 {
        ip: Ipv6Addr::new(0x2001, 0xdb8, 0, 0, 0, 0, 0, 1),
        port: 443,
        flowinfo: 0,
        scope_id: 0,
    });
    let bytes = encode(&addr);
    assert_eq!(bytes.len(), addr.encoded_len());
    assert_eq!(bytes[0], ATYP_IPV6);

    assert_eq!(read_address(&bytes), addr);

    let mut b = bytes.freeze();
    assert_eq!(Address::from_buf(&mut b).unwrap(), addr);
}

#[test]
fn address_domain_round_trip() {
    let addr = Address::Domain(Bytes::from_static(b"example.com"), 8080);
    let bytes = encode(&addr);
    assert_eq!(bytes.len(), addr.encoded_len());
    assert_eq!(bytes[0], ATYP_DOMAIN);
    assert_eq!(bytes[1], 11);

    assert_eq!(read_address(&bytes), addr);

    let mut b = bytes.freeze();
    assert_eq!(Address::from_buf(&mut b).unwrap(), addr);
}

#[test]
fn address_read_rejects_invalid_atyp() {
    assert!(matches!(Address::read(&[0x02u8]), Read::Invalid(_)));
}

#[test]
fn address_read_rejects_empty_domain() {
    assert!(matches!(Address::read(&[ATYP_DOMAIN, 0x00]), Read::Invalid(_)));
}

#[test]
fn address_from_buf_rejects_truncated_ipv4() {
    let mut b = Bytes::from_static(&[ATYP_IPV4, 192, 168]);
    assert!(Address::from_buf(&mut b).is_err());
}

#[test]
fn address_from_buf_rejects_truncated_domain() {
    // length says 5 but only 3 bytes follow
    let mut b = Bytes::from_static(&[ATYP_DOMAIN, 0x05, b'a', b'b', b'c']);
    assert!(Address::from_buf(&mut b).is_err());
}

#[test]
fn address_ombrac_conversion_round_trip() {
    let cases = [
        Address::IPv4(v4(10, 0, 0, 1, 80)),
        Address::IPv6(localhost_v6(443)),
        Address::Domain(Bytes::from_static(b"example.org"), 1234),
    ];
    for addr in cases {
        let ombrac: tunnel::Address = addr.clone().into();
        let back = Address::try_from(ombrac).unwrap();
        assert_eq!(addr, back);
    }
}

#[test]
fn address_display() {
    assert_eq!(Address::IPv4(v4(127, 0, 0, 1, 8080)).to_string(), "127.0.0.1:8080");
    assert_eq!(
        Address::Domain(Bytes::from_static(b"example.com"), 80).to_string(),
        "example.com:80"
    );
}

#[test]
fn address_display_of_ipv6() {
    assert_eq!(Address::IPv6(localhost_v6(443)).to_string(), "[::1]:443");
}

#[test]
fn request_connect_ipv4() {
    let mut buf = vec![VERSION, CMD_CONNECT, 0x00, ATYP_IPV4, 192, 168, 1, 1];
    buf.extend_from_slice(&80u16.to_be_bytes());
    assert_eq!(
        read_request(&buf),
        Request::Connect(Address::IPv4(v4(192, 168, 1, 1, 80)))
    );
}

#[test]
fn request_associate_domain() {
    let mut buf = vec![VERSION, CMD_ASSOCIATE, 0x00, ATYP_DOMAIN, 11];
    buf.extend_from_slice(b"example.com");
    buf.extend_from_slice(&8080u16.to_be_bytes());
    assert_eq!(
        read_request(&buf),
        Request::Associate(Address::Domain(Bytes::from_static(b"example.com"), 8080))
    );
}

#[test]
fn request_rejects_bad_version() {
    let buf = vec![0x04, CMD_CONNECT, 0x00, ATYP_IPV4, 1, 2, 3, 4, 0, 80];
    assert!(matches!(Request::read(&buf), Read::Invalid(_)));
}

#[test]
fn request_rejects_bad_command() {
    let buf = vec![VERSION, 0xEE, 0x00, ATYP_IPV4, 1, 2, 3, 4, 0, 80];
    assert!(matches!(Request::read(&buf), Read::Invalid(_)));
}

#[test]
fn request_prefix_asks_for_more() {
    let buf = vec![VERSION, CMD_BIND, 0x00, ATYP_IPV4, 1, 2, 3, 4, 0, 80];
    for n in 0..buf.len() {
        match Request::read(&buf[..n]) {
            Read::Need(k) => assert!(k > 0 && n + k <= buf.len()),
            _ => panic!("a prefix is no request"),
        }
    }
    assert_eq!(read_request(&buf), Request::Bind(Address::IPv4(v4(1, 2, 3, 4, 80))));
}

#[test]
fn reply_encoding() {
    let addr = Address::IPv4(v4(127, 0, 0, 1, 1080));
    let bytes = encode_reply(Reply::Succeeded, &addr);
    assert_eq!(bytes[0], VERSION);
    assert_eq!(bytes[1], 0x00);
    assert_eq!(bytes[2], 0x00);
    assert_eq!(bytes[3], ATYP_IPV4);
    assert_eq!(&bytes[4..8], &[127, 0, 0, 1]);
    assert_eq!(&bytes[8..10], &1080u16.to_be_bytes());
}

#[test]
fn reply_from_connect_error() {
    assert_eq!(
        Reply::from_connect_error(&Error::new(ErrorKind::ConnectionRefused, "")),
        Reply::ConnectionRefused
    );
    assert_eq!(
        Reply::from_connect_error(&Error::new(ErrorKind::TimedOut, "")),
        Reply::TtlExpired
    );
    assert_eq!(
        Reply::from_connect_error(&Error::new(ErrorKind::Other, "boom")),
        Reply::GeneralFailure
    );
}

#[test]
fn udp_packet_round_trip() {
    let address = Address::IPv4(v4(8, 8, 8, 8, 53));
    let payload = b"hello world";
    let encoded = UdpPacket::encode_unfragmented(&address, payload);

    // RSV(2) + FRAG(1) + addr + data
    assert_eq!(encoded[0], 0x00);
    assert_eq!(encoded[1], 0x00);
    assert_eq!(encoded[2], 0x00);

    let parsed = UdpPacket::from_buf(encoded).unwrap();
    assert_eq!(parsed.frag, 0);
    assert_eq!(parsed.address, address);
    assert_eq!(&parsed.data[..], payload);
}

#[test]
fn udp_packet_rejects_short_header() {
    assert!(UdpPacket::from_buf(Bytes::from_static(&[0x00, 0x00])).is_err());
}

#[test]
fn udp_packet_preserves_frag() {
    let address = Address::IPv4(v4(1, 1, 1, 1, 53));
    let mut raw = BytesMut::new();
    raw.put_u8(0x00);
    raw.put_u8(0x00);
    raw.put_u8(0x07); // frag
    address.encode(&mut raw);
    raw.put_slice(b"data");
    let parsed = UdpPacket::from_buf(raw.freeze()).unwrap();
    assert_eq!(parsed.frag, 0x07);
    assert_eq!(&parsed.data[..], b"data");
}

#[test]
fn greeting_without_password_is_accepted() {
    match negotiate_method(&[VERSION, 2, 0x02, 0x00]) {
        Negotiation::Answer { used, answer, verdict } => {
            assert_eq!(used, 4);
            assert_eq!(answer, [VERSION, method::NO_AUTHENTICATION]);
            assert!(verdict.is_ok());
        }
        _ => panic!("should be answered"),
    }
}

#[test]
fn greeting_with_password_only_is_refused() {
    match negotiate_method(&[VERSION, 1, 0x02]) {
        Negotiation::Answer { used, answer, verdict } => {
            assert_eq!(used, 3);
            assert_eq!(answer, [VERSION, method::NO_ACCEPTABLE_METHOD]);
            assert!(verdict.is_err());
        }
        _ => panic!("should be answered"),
    }
    assert!(matches!(negotiate_method(&[0x04, 1, 0x00]), Negotiation::Invalid(_)));
    assert!(matches!(negotiate_method(&[VERSION, 2, 0x00]), Negotiation::Need(_)));
}

#[test]
fn bind_requests_are_refused() {
    match dispatch(Request::Bind(Address::unspecified())) {
        Command::Refuse(bytes) => {
            assert_eq!(&bytes[..], &[5u8, 7, 0, 1, 0, 0, 0, 0, 0, 0][..]);
        }
        _ => panic!("should be refused"),
    }
    match dispatch(Request::Connect(Address::IPv4(v4(1, 2, 3, 4, 5)))) {
        Command::Connect(address) => {
            assert_eq!(address, tunnel::Address::SocketV4(v4(1, 2, 3, 4, 5)))
        }
        _ => panic!("should connect"),
    }
}

#[test]
fn replies_carry_code_and_address() {
    assert_eq!(&connect_reply(None)[..], &[5u8, 0, 0, 1, 0, 0, 0, 0, 0, 0][..]);
    let refused = Error::new(ErrorKind::ConnectionRefused, "no");
    assert_eq!(connect_reply(Some(&refused))[1], Reply::ConnectionRefused.as_u8());
    assert_eq!(reply_failure(Reply::GeneralFailure)[1], 1);
    let local = IpAddr::V4(Ipv4Addr::new(192, 168, 0, 9));
    assert_eq!(
        &associate_reply(local, 0x1234)[..],
        &[5u8, 0, 0, 1, 192, 168, 0, 9, 0x12, 0x34][..]
    );
    assert_eq!(bind_addr_for(local).port(), 0);
}

#[test]
fn relay_sticks_to_its_client() {
    let client = SocketAddr::V4(v4(10, 0, 0, 1, 4000));
    let other = SocketAddr::V4(v4(10, 0, 0, 2, 4000));
    let address = Address::IPv4(v4(8, 8, 8, 8, 53));
    let datagram = UdpPacket::encode_unfragmented(&address, b"query");
    let mut relay = UdpRelay::new();
    assert!(matches!(relay.step(RelayEvent::Control), Ok(RelayAction::Ignore)));
    match relay.step(RelayEvent::Client { datagram: &datagram, src: client }) {
        Ok(RelayAction::ToTunnel(data, to)) => {
            assert_eq!(&data[..], b"query");
            assert_eq!(to, tunnel::Address::SocketV4(v4(8, 8, 8, 8, 53)));
        }
        _ => panic!("should go to the tunnel"),
    }
    assert!(matches!(
        relay.step(RelayEvent::Client { datagram: &datagram, src: other }),
        Ok(RelayAction::ToTunnel(_, _))
    ));
    assert_eq!(relay.client, Some(client));
    let from = tunnel::Address::SocketV4(v4(8, 8, 8, 8, 53));
    match relay.step(RelayEvent::Tunnel { data: b"answer", from }) {
        Ok(RelayAction::ToClient(bytes, to)) => {
            assert_eq!(to, client);
            assert_eq!(&bytes[..], &UdpPacket::encode_unfragmented(&address, b"answer")[..]);
        }
        _ => panic!("should go to the client"),
    }
    let mut fragment = datagram.to_vec();
    fragment[2] = 1;
    assert!(matches!(
        relay.step(RelayEvent::Client { datagram: &fragment, src: client }),
        Ok(RelayAction::Ignore)
    ));
    assert!(relay.step(RelayEvent::Client { datagram: &[0, 0], src: client }).is_err());
    assert!(matches!(relay.step(RelayEvent::ControlClosed), Ok(RelayAction::End)));
}
