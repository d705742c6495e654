//! IP packets, the stack's parameters, and the sink that sorts packets by
//! protocol.
use bytes::Bytes;
use vstd::prelude::*;

use crate::address::{IpAddr, Ipv4Addr, Ipv6Addr};
use crate::buf::{as_slice, be16, bytes_seq};
use crate::error::{Error, ErrorKind};
use crate::time::{Duration, NANOS_PER_SEC};

use super::wire::{
    ip_version, ipv4_check, ipv4_dst, ipv4_header, ipv4_header_len, ipv4_ok, ipv4_payload,
    ipv4_protocol, ipv4_src, ipv6_check, ipv6_dst, ipv6_ok, ipv6_payload, ipv6_protocol, ipv6_src,
    version_of, IPV6_HEADER_LEN,
};

verus! {

/// The protocols inside IP that the stack tells apart.
#[derive(Clone, Copy, Debug, PartialEq, Eq, Structural)]
pub enum IpProtocol {
    Icmp,
    Tcp,
    Udp,
    Icmpv6,
    Unknown(u8),
}

impl IpProtocol {
    /// The protocol with that number.
    pub open spec fn of_number(n: u8) -> IpProtocol {
        match n {
            1 => IpProtocol::Icmp,
            6 => IpProtocol::Tcp,
            17 => IpProtocol::Udp,
            58 => IpProtocol::Icmpv6,
            _ => IpProtocol::Unknown(n),
        }
    }

    /// The protocol with that number.
    pub fn from_number(n: u8) -> (p: IpProtocol)
        ensures
            p == IpProtocol::of_number(n),
    {
        match n {
            1 => IpProtocol::Icmp,
            6 => IpProtocol::Tcp,
            17 => IpProtocol::Udp,
            58 => IpProtocol::Icmpv6,
            _ => IpProtocol::Unknown(n),
        }
    }

    /// Whether the stack handles it.
    pub open spec fn handled(self) -> bool {
        !(self is Unknown)
    }

    /// The protocol's name.
    pub open spec fn label(self) -> Seq<char> {
        match self {
            IpProtocol::Icmp => "Icmp"@,
            IpProtocol::Tcp => "Tcp"@,
            IpProtocol::Udp => "Udp"@,
            IpProtocol::Icmpv6 => "Icmpv6"@,
            IpProtocol::Unknown(_) => "Unknown"@,
        }
    }

    /// The protocol's name.
    pub fn name(&self) -> (s: &'static str)
        ensures
            s@ == self.label(),
    {
        match self {
            IpProtocol::Icmp => "Icmp",
            IpProtocol::Tcp => "Tcp",
            IpProtocol::Udp => "Udp",
            IpProtocol::Icmpv6 => "Icmpv6",
            IpProtocol::Unknown(_) => "Unknown",
        }
    }
}

/// An IP packet whose lengths are in order.
#[derive(Clone, Copy, Debug)]
pub enum IpPacket<'a> {
    Ipv4(&'a [u8]),
    Ipv6(&'a [u8]),
}

/// Whether `s` is an IP packet whose lengths are in order.
pub open spec fn ip_ok(s: Seq<u8>) -> bool {
    ||| ip_version(s) == 4 && ipv4_ok(s)
    ||| ip_version(s) == 6 && ipv6_ok(s)
}

/// The octets of the source address of an IP packet.
pub open spec fn ip_src(s: Seq<u8>) -> Seq<u8> {
    if ip_version(s) == 4 {
        s.subrange(12, 16)
    } else {
        s.subrange(8, 24)
    }
}

/// The octets of the destination address of an IP packet.
pub open spec fn ip_dst(s: Seq<u8>) -> Seq<u8> {
    if ip_version(s) == 4 {
        s.subrange(16, 20)
    } else {
        s.subrange(24, 40)
    }
}

/// The length of the header of an IP packet.
pub open spec fn ip_header_len(s: Seq<u8>) -> int {
    if ip_version(s) == 4 {
        ipv4_header_len(s)
    } else {
        40
    }
}

/// The protocol inside an IP packet.
pub open spec fn ip_protocol(s: Seq<u8>) -> IpProtocol {
    IpProtocol::of_number(
        if ip_version(s) == 4 {
            s[9]
        } else {
            s[6]
        },
    )
}

/// What an IP packet carries.
pub open spec fn ip_payload(s: Seq<u8>) -> Seq<u8> {
    if ip_version(s) == 4 {
        s.subrange(ipv4_header_len(s), be16(s[2], s[3]))
    } else {
        s.subrange(40, 40 + be16(s[4], s[5]))
    }
}

/// Whether `ip` is the address with these octets.
pub open spec fn has_octets(ip: IpAddr, octets: Seq<u8>) -> bool {
    match ip {
        IpAddr::V4(a) => a@ == octets,
        IpAddr::V6(a) => a@ == octets,
    }
}

impl<'a> IpPacket<'a> {
    /// The bytes of the packet.
    pub open spec fn bytes(&self) -> Seq<u8> {
        match self {
            IpPacket::Ipv4(s) => s@,
            IpPacket::Ipv6(s) => s@,
        }
    }

    /// The variant tells the version, and the lengths are in order.
    pub open spec fn wf(&self) -> bool {
        match self {
            IpPacket::Ipv4(s) => ip_version(s@) == 4 && ipv4_ok(s@),
            IpPacket::Ipv6(s) => ip_version(s@) == 6 && ipv6_ok(s@),
        }
    }

    /// Takes bytes as an IP packet, if they are one. There must be a byte to
    /// read the version from.
    pub fn new_checked(packet: &'a [u8]) -> (r: Result<IpPacket<'a>, Error>)
        requires
            packet@.len() >= 1,
        ensures
            r is Ok <==> ip_ok(packet@),
            r matches Ok(p) ==> p.wf() && p.bytes() == packet@,
            r matches Err(e) ==> e.reads(ErrorKind::InvalidData, "wire::Error"@),
    {
        let malformed = Err(Error::new(ErrorKind::InvalidData, "wire::Error"));
        match version_of(packet) {
            Some(4) => if ipv4_check(packet) {
                Ok(IpPacket::Ipv4(packet))
            } else {
                malformed
            },
            Some(6) => if ipv6_check(packet) {
                Ok(IpPacket::Ipv6(packet))
            } else {
                malformed
            },
            _ => malformed,
        }
    }

    /// The source address.
    pub fn src_addr(&self) -> (ip: IpAddr)
        requires
            self.wf(),
        ensures
            self is Ipv4 <==> ip is V4,
            has_octets(ip, ip_src(self.bytes())),
    {
        match self {
            IpPacket::Ipv4(p) => IpAddr::V4(Ipv4Addr { octets: ipv4_src(p) }),
            IpPacket::Ipv6(p) => IpAddr::V6(Ipv6Addr { octets: ipv6_src(p) }),
        }
    }

    /// The destination address.
    pub fn dst_addr(&self) -> (ip: IpAddr)
        requires
            self.wf(),
        ensures
            self is Ipv4 <==> ip is V4,
            has_octets(ip, ip_dst(self.bytes())),
    {
        match self {
            IpPacket::Ipv4(p) => IpAddr::V4(Ipv4Addr { octets: ipv4_dst(p) }),
            IpPacket::Ipv6(p) => IpAddr::V6(Ipv6Addr { octets: ipv6_dst(p) }),
        }
    }

    /// The protocol inside.
    pub fn protocol(&self) -> (p: IpProtocol)
        requires
            self.wf(),
        ensures
            p == ip_protocol(self.bytes()),
    {
        match self {
            IpPacket::Ipv4(p) => IpProtocol::from_number(ipv4_protocol(p)),
            IpPacket::Ipv6(p) => IpProtocol::from_number(ipv6_protocol(p)),
        }
    }

    /// The length of the header in bytes.
    pub fn header_len(&self) -> (n: usize)
        requires
            self.wf(),
        ensures
            n == ip_header_len(self.bytes()),
    {
        match self {
            IpPacket::Ipv4(p) => ipv4_header(p) as usize,
            IpPacket::Ipv6(_) => IPV6_HEADER_LEN,
        }
    }

    /// What the packet carries.
    pub fn payload(&self) -> (p: &'a [u8])
        requires
            self.wf(),
        ensures
            p@ == ip_payload(self.bytes()),
    {
        match self {
            IpPacket::Ipv4(p) => ipv4_payload(p),
            IpPacket::Ipv6(p) => ipv6_payload(p),
        }
    }
}

/// The stack's parameters.
#[derive(Clone, Debug)]
pub struct NetStackConfig {
    pub mtu: usize,
    pub channel_size: usize,
    pub number_workers: usize,
    pub tcp_send_buffer_size: usize,
    pub tcp_recv_buffer_size: usize,
    pub buffer_pool_size: usize,
    pub buffer_pool_default_buffer_size: usize,
    pub ipv4_addr: Ipv4Addr,
    pub ipv4_prefix_len: u8,
    pub ipv6_addr: Ipv6Addr,
    pub ipv6_prefix_len: u8,
    pub tcp_keep_alive: Duration,
    pub tcp_timeout: Duration,
    pub packet_batch_size: usize,
    pub ip_ttl: u8,
}

impl NetStackConfig {
    /// Whether every parameter but the number of workers has its default.
    pub open spec fn has_defaults(&self) -> bool {
        &&& self.mtu == 1500
        &&& self.channel_size == 4096
        &&& self.tcp_send_buffer_size == 16 * 1024
        &&& self.tcp_recv_buffer_size == 16 * 1024
        &&& self.buffer_pool_size == 32
        &&& self.buffer_pool_default_buffer_size == 2 * 1024
        &&& self.ipv4_addr@ == seq![10u8, 0, 0, 1]
        &&& self.ipv4_prefix_len == 24
        &&& self.ipv6_addr@ == crate::address::segment_octets(
            seq![0u16, 0xfac, 0, 0, 0, 0, 0, 1],
        )
        &&& self.ipv6_prefix_len == 64
        &&& self.tcp_timeout.nanos == 60 * NANOS_PER_SEC
        &&& self.tcp_keep_alive.nanos == 28 * NANOS_PER_SEC
        &&& self.packet_batch_size == 32
        &&& self.ip_ttl == 64
    }

    /// The defaults, with one worker for each unit of parallelism that the
    /// machine reports, or four where it reports none.
    pub fn default(available: Option<usize>) -> (r: NetStackConfig)
        ensures
            r.has_defaults(),
            r.number_workers == match available {
                Some(n) => n,
                None => 4,
            },
    {
        NetStackConfig {
            mtu: 1500,
            channel_size: 4096,
            number_workers: available.unwrap_or(4),
            tcp_send_buffer_size: 16 * 1024,
            tcp_recv_buffer_size: 16 * 1024,
            buffer_pool_size: 32,
            buffer_pool_default_buffer_size: 2 * 1024,
            ipv4_addr: Ipv4Addr::new(10, 0, 0, 1),
            ipv4_prefix_len: 24,
            ipv6_addr: Ipv6Addr::new(0x0, 0xfac, 0, 0, 0, 0, 0, 1),
            ipv6_prefix_len: 64,
            tcp_timeout: Duration::from_secs(60),
            tcp_keep_alive: Duration::from_secs(28),
            packet_batch_size: 32,
            ip_ttl: 64,
        }
    }
}

/// The bytes of one packet.
#[derive(Clone, Debug)]
pub struct Packet {
    data: Bytes,
}

impl View for Packet {
    type V = Seq<u8>;

    closed spec fn view(&self) -> Seq<u8> {
        bytes_seq(self.data)
    }
}

impl Packet {
    /// A packet of these bytes.
    pub fn new(data: Bytes) -> (p: Packet)
        ensures
            p@ == bytes_seq(data),
    {
        Packet { data }
    }

    /// The packet's bytes.
    pub fn data(&self) -> (s: &[u8])
        ensures
            s@ == self@,
    {
        as_slice(&self.data)
    }

    /// Hands the packet's bytes out.
    pub fn into_bytes(self) -> (b: Bytes)
        ensures
            bytes_seq(b) == self@,
    {
        self.data
    }
}

/// The two places where the sink delivers to.
#[derive(Clone, Copy, Debug, PartialEq, Eq, Structural)]
pub enum Channel {
    Udp,
    Tcp,
}

/// Whether a channel takes a packet.
#[derive(Clone, Copy, Debug, PartialEq, Eq, Structural)]
pub enum Room {
    /// It takes one now.
    Free,
    /// It takes none yet.
    Full,
    /// Nobody receives any more.
    Closed,
}

/// What came of a flush.
pub struct Flush {
    /// How it ended, or `None` where it has to be tried again.
    pub outcome: Option<Result<(), Error>>,
    /// The packet that a channel is to be given.
    pub delivered: Option<(Channel, Packet)>,
}

/// Where a packet of a protocol goes: UDP has a channel of its own.
pub open spec fn channel_of(proto: IpProtocol) -> Channel {
    if proto == IpProtocol::Udp {
        Channel::Udp
    } else {
        Channel::Tcp
    }
}

/// Whether the sink parks a packet: an IP packet of a protocol that the stack
/// handles.
pub open spec fn is_carried(s: Seq<u8>) -> bool {
    s.len() > 0 && ip_ok(s) && ip_protocol(s).handled()
}

/// What is done with a sink.
pub enum SinkOp {
    /// A packet is handed in.
    Send(Packet),
    /// What is parked is to be delivered, with this room in the two channels.
    Flush { udp: Room, tcp: Room },
}

/// The room in the channel that a parked packet goes to.
pub open spec fn room_for(proto: IpProtocol, udp: Room, tcp: Room) -> Room {
    match channel_of(proto) {
        Channel::Udp => udp,
        Channel::Tcp => tcp,
    }
}

/// What is parked after an operation.
pub open spec fn parked_after(parked: Option<(Packet, IpProtocol)>, op: SinkOp) -> Option<
    (Packet, IpProtocol),
> {
    match op {
        SinkOp::Send(item) => if is_carried(item@) {
            Some((item, ip_protocol(item@)))
        } else {
            parked
        },
        SinkOp::Flush { udp, tcp } => match parked {
            Some((_, proto)) => if room_for(proto, udp, tcp) == Room::Full {
                parked
            } else {
                None
            },
            None => None,
        },
    }
}

/// What an operation delivers, and where.
pub open spec fn delivers(parked: Option<(Packet, IpProtocol)>, op: SinkOp) -> Option<
    (Channel, Packet),
> {
    match (op, parked) {
        (SinkOp::Flush { udp, tcp }, Some((item, proto))) => if room_for(proto, udp, tcp)
            == Room::Free {
            Some((channel_of(proto), item))
        } else {
            None
        },
        _ => None,
    }
}

/// Whether `outcome` is how a flush ends.
pub open spec fn ends_flush(
    outcome: Option<Result<(), Error>>,
    parked: Option<(Packet, IpProtocol)>,
    udp: Room,
    tcp: Room,
) -> bool {
    match parked {
        None => outcome matches Some(Ok(_)),
        Some((_, proto)) => match room_for(proto, udp, tcp) {
            Room::Free => outcome matches Some(Ok(_)),
            Room::Full => outcome is None,
            Room::Closed => outcome matches Some(Err(e)) && e.reads(
                ErrorKind::BrokenPipe,
                "Failed to send packet: channel closed for protocol "@ + proto.label(),
            ),
        },
    }
}

/// A sink for IP packets that parks one packet at a time until its channel has
/// room.
pub struct StackSplitSink {
    packet_container: Option<(Packet, IpProtocol)>,
}

impl StackSplitSink {
    /// The packet that waits, and its protocol.
    pub closed spec fn parked(&self) -> Option<(Packet, IpProtocol)> {
        self.packet_container
    }

    /// What waits is of a protocol that the stack handles.
    pub open spec fn wf(&self) -> bool {
        self.parked() matches Some((_, proto)) ==> proto.handled()
    }

    /// A sink with nothing parked.
    pub fn new() -> (r: StackSplitSink)
        ensures
            r.wf(),
            r.parked() is None,
    {
        StackSplitSink { packet_container: None }
    }

    /// Makes place for a packet: flushes what is parked.
    pub fn poll_ready(&mut self, udp: Room, tcp: Room) -> (r: Flush)
        requires
            old(self).wf(),
        ensures
            final(self).wf(),
            final(self).parked() == parked_after(old(self).parked(), SinkOp::Flush { udp, tcp }),
            r.delivered == delivers(old(self).parked(), SinkOp::Flush { udp, tcp }),
            ends_flush(r.outcome, old(self).parked(), udp, tcp),
            r.outcome matches Some(Ok(_)) ==> final(self).parked() is None,
    {
        if self.packet_container.is_some() {
            return self.poll_flush(udp, tcp);
        }
        Flush { outcome: Some(Ok(())), delivered: None }
    }

    /// Takes a packet in. An empty one is accepted and forgotten, one that is no
    /// IP packet is an error, one of another protocol is ignored.
    pub fn start_send(&mut self, item: Packet) -> (r: Result<(), Error>)
        requires
            old(self).wf(),
        ensures
            final(self).wf(),
            final(self).parked() == parked_after(old(self).parked(), SinkOp::Send(item)),
            r is Ok <==> item@.len() == 0 || ip_ok(item@),
            r matches Err(e) ==> e.reads(ErrorKind::InvalidData, "wire::Error"@),
    {
        if item.data().len() == 0 {
            return Ok(());
        }
        let protocol = match IpPacket::new_checked(item.data()) {
            Ok(packet) => packet.protocol(),
            Err(e) => return Err(e),
        };
        match protocol {
            IpProtocol::Unknown(_) => {},
            _ => {
                self.packet_container = Some((item, protocol));
            },
        }
        Ok(())
    }

    /// Where the parked packet is to be delivered, if one is parked.
    pub fn pending(&self) -> (c: Option<Channel>)
        requires
            self.wf(),
        ensures
            c == match self.parked() {
                Some((_, proto)) => Some(channel_of(proto)),
                None => None,
            },
    {
        match &self.packet_container {
            None => None,
            Some((_, IpProtocol::Udp)) => Some(Channel::Udp),
            Some(_) => Some(Channel::Tcp),
        }
    }

    /// Delivers what is parked, with this room in the two channels. With no room
    /// the packet stays parked and the flush is not over; otherwise the flush is
    /// over, with an error where nobody receives any more.
    pub fn poll_flush(&mut self, udp: Room, tcp: Room) -> (r: Flush)
        requires
            old(self).wf(),
        ensures
            final(self).wf(),
            final(self).parked() == parked_after(old(self).parked(), SinkOp::Flush { udp, tcp }),
            r.delivered == delivers(old(self).parked(), SinkOp::Flush { udp, tcp }),
            ends_flush(r.outcome, old(self).parked(), udp, tcp),
    {
        let (item, proto) = match self.packet_container.take() {
            Some(parked) => parked,
            None => return Flush { outcome: Some(Ok(())), delivered: None },
        };
        let (channel, room) = match proto {
            IpProtocol::Udp => (Channel::Udp, udp),
            _ => (Channel::Tcp, tcp),
        };
        match room {
            Room::Free => Flush { outcome: Some(Ok(())), delivered: Some((channel, item)) },
            Room::Full => {
                self.packet_container = Some((item, proto));
                Flush { outcome: None, delivered: None }
            },
            Room::Closed => {
                let mut message =
                    "Failed to send packet: channel closed for protocol ".to_owned();
                message.append(proto.name());
                Flush {
                    outcome: Some(Err(Error::with_message(ErrorKind::BrokenPipe, message))),
                    delivered: None,
                }
            },
        }
    }
}

/// A packet that is handed to an empty sink is delivered by the next flush that
/// finds room, unchanged and to the channel of its protocol, and by no flush after
/// that. One that the sink does not carry is never delivered.
pub proof fn law_packet_is_delivered_once(item: Packet)
    ensures
        ({
            let flush = SinkOp::Flush { udp: Room::Free, tcp: Room::Free };
            let sent = parked_after(None, SinkOp::Send(item));
            let flushed = parked_after(sent, flush);
            &&& delivers(sent, flush) == if is_carried(item@) {
                Some((channel_of(ip_protocol(item@)), item))
            } else {
                None
            }
            &&& flushed is None
            &&& delivers(flushed, flush) is None
        }),
{
}

/// A sink from its beginning: `parked` is what is parked before each operation,
/// and at last. A packet is handed in only where nothing is parked, and the
/// channel that a parked packet goes to is not closed.
pub open spec fn is_sink_run(parked: Seq<Option<(Packet, IpProtocol)>>, ops: Seq<SinkOp>) -> bool {
    &&& parked.len() == ops.len() + 1
    &&& parked[0] is None
    &&& forall|i: int|
        0 <= i < ops.len() ==> {
            &&& parked[i + 1] == parked_after(parked[i], #[trigger] ops[i])
            &&& ops[i] is Send ==> parked[i] is None
            &&& (ops[i] matches SinkOp::Flush { udp, tcp } && parked[i] matches Some((_, proto))
                ==> room_for(proto, udp, tcp) != Room::Closed)
        }
}

/// The packets that the first `n` operations handed in for delivery, each with its
/// channel.
pub open spec fn handed_in(ops: Seq<SinkOp>, n: nat) -> Seq<(Channel, Packet)>
    decreases n,
{
    if n == 0 {
        Seq::empty()
    } else {
        let before = handed_in(ops, (n - 1) as nat);
        match ops[n - 1] {
            SinkOp::Send(item) => if is_carried(item@) {
                before.push((channel_of(ip_protocol(item@)), item))
            } else {
                before
            },
            SinkOp::Flush { .. } => before,
        }
    }
}

/// The packets that the first `n` operations delivered, each with its channel.
pub open spec fn delivered(
    parked: Seq<Option<(Packet, IpProtocol)>>,
    ops: Seq<SinkOp>,
    n: nat,
) -> Seq<(Channel, Packet)>
    decreases n,
{
    if n == 0 {
        Seq::empty()
    } else {
        let before = delivered(parked, ops, (n - 1) as nat);
        match delivers(parked[n - 1], ops[n - 1]) {
            Some(d) => before.push(d),
            None => before,
        }
    }
}

/// What is parked, as a list of one or of none.
pub open spec fn waiting(parked: Option<(Packet, IpProtocol)>) -> Seq<(Channel, Packet)> {
    match parked {
        Some((item, proto)) => seq![(channel_of(proto), item)],
        None => Seq::empty(),
    }
}

/// The sink delivers every packet that it carries once, unchanged, in order and to
/// the channel of its protocol: what was delivered, and what is still parked, is
/// what was handed in.
pub proof fn law_sink_delivers_what_it_takes(
    parked: Seq<Option<(Packet, IpProtocol)>>,
    ops: Seq<SinkOp>,
    n: nat,
)
    requires
        is_sink_run(parked, ops),
        n <= ops.len(),
    ensures
        delivered(parked, ops, n) + waiting(parked[n as int]) == handed_in(ops, n),
    decreases n,
{
    if n > 0 {
        law_sink_delivers_what_it_takes(parked, ops, (n - 1) as nat);
        assert(parked[n as int] == parked_after(parked[n - 1], ops[n - 1]));
    }
    assert(delivered(parked, ops, n) + waiting(parked[n as int]) =~= handed_in(ops, n));
}

/// Bytes are an IPv4 packet where they begin with a 4 and hold what their lengths say, and
/// an IPv6 packet where they begin with a 6 and do.
pub proof fn law_ip_packets_are_told_by_their_bytes<'a>(s: &'a [u8], r: Result<IpPacket<'a>, Error>)
    requires
        s@.len() >= 1,
        call_ensures(IpPacket::<'a>::new_checked, (s,), r),
    ensures
        (r matches Ok(IpPacket::Ipv4(_))) <==> s@[0] as int / 16 == 4 && s@.len() >= 20 && 4 * (
        s@[0] as int % 16) <= s@[2] * 256 + s@[3] <= s@.len(),
        (r matches Ok(IpPacket::Ipv6(_))) <==> s@[0] as int / 16 == 6 && s@.len() >= 40 + (
        s@[4] * 256 + s@[5]),
        r matches Ok(IpPacket::Ipv4(t)) ==> t@ == s@,
        r matches Ok(IpPacket::Ipv6(t)) ==> t@ == s@,
        r matches Err(e) ==> e.kind == ErrorKind::InvalidData && e.message@ == "wire::Error"@,
{
}

/// The addresses of an IPv4 packet stand at octets 12 and 16, the protocol at octet 9; its
/// payload begins behind the header and ends with the packet.
pub proof fn law_ipv4_header_is_read<'a>(
    s: &'a [u8],
    src: IpAddr,
    dst: IpAddr,
    protocol: IpProtocol,
    header_len: usize,
    payload: &'a [u8],
)
    requires
        IpPacket::Ipv4(s).wf(),
        call_ensures(IpPacket::<'a>::src_addr, (&IpPacket::Ipv4(s),), src),
        call_ensures(IpPacket::<'a>::dst_addr, (&IpPacket::Ipv4(s),), dst),
        call_ensures(IpPacket::<'a>::protocol, (&IpPacket::Ipv4(s),), protocol),
        call_ensures(IpPacket::<'a>::header_len, (&IpPacket::Ipv4(s),), header_len),
        call_ensures(IpPacket::<'a>::payload, (&IpPacket::Ipv4(s),), payload),
    ensures
        src matches IpAddr::V4(a) && forall|i: int| 0 <= i < 4 ==> #[trigger] a.octets[i] == s@[12
            + i],
        dst matches IpAddr::V4(a) && forall|i: int| 0 <= i < 4 ==> #[trigger] a.octets[i] == s@[16
            + i],
        protocol == IpProtocol::Icmp <==> s@[9] == 1,
        protocol == IpProtocol::Tcp <==> s@[9] == 6,
        protocol == IpProtocol::Udp <==> s@[9] == 17,
        protocol == IpProtocol::Icmpv6 <==> s@[9] == 58,
        protocol matches IpProtocol::Unknown(n) ==> n == s@[9],
        header_len == 4 * (s@[0] % 16),
        header_len + payload@.len() == s@[2] * 256 + s@[3],
        forall|i: int| 0 <= i < payload@.len() ==> payload@[i] == s@[header_len + i],
{
    if let IpAddr::V4(a) = src {
        assert forall|i: int| 0 <= i < 4 implies #[trigger] a.octets[i] == s@[12 + i] by {
            assert(a@[i] == s@.subrange(12, 16)[i]);
        }
    }
    if let IpAddr::V4(a) = dst {
        assert forall|i: int| 0 <= i < 4 implies #[trigger] a.octets[i] == s@[16 + i] by {
            assert(a@[i] == s@.subrange(16, 20)[i]);
        }
    }
}

/// The addresses of an IPv6 packet stand at octets 8 and 24, the protocol at octet 6; its
/// payload begins at octet 40 and is as long as the packet says.
pub proof fn law_ipv6_header_is_read<'a>(
    s: &'a [u8],
    src: IpAddr,
    dst: IpAddr,
    protocol: IpProtocol,
    header_len: usize,
    payload: &'a [u8],
)
    requires
        IpPacket::Ipv6(s).wf(),
        call_ensures(IpPacket::<'a>::src_addr, (&IpPacket::Ipv6(s),), src),
        call_ensures(IpPacket::<'a>::dst_addr, (&IpPacket::Ipv6(s),), dst),
        call_ensures(IpPacket::<'a>::protocol, (&IpPacket::Ipv6(s),), protocol),
        call_ensures(IpPacket::<'a>::header_len, (&IpPacket::Ipv6(s),), header_len),
        call_ensures(IpPacket::<'a>::payload, (&IpPacket::Ipv6(s),), payload),
    ensures
        src matches IpAddr::V6(a) && forall|i: int| 0 <= i < 16 ==> #[trigger] a.octets[i] == s@[8
            + i],
        dst matches IpAddr::V6(a) && forall|i: int| 0 <= i < 16 ==> #[trigger] a.octets[i] == s@[24
            + i],
        protocol == IpProtocol::Icmp <==> s@[6] == 1,
        protocol == IpProtocol::Tcp <==> s@[6] == 6,
        protocol == IpProtocol::Udp <==> s@[6] == 17,
        protocol == IpProtocol::Icmpv6 <==> s@[6] == 58,
        protocol matches IpProtocol::Unknown(n) ==> n == s@[6],
        header_len == 40,
        payload@.len() == s@[4] * 256 + s@[5],
        forall|i: int| 0 <= i < payload@.len() ==> payload@[i] == s@[40 + i],
{
    if let IpAddr::V6(a) = src {
        assert forall|i: int| 0 <= i < 16 implies #[trigger] a.octets[i] == s@[8 + i] by {
            assert(a@[i] == s@.subrange(8, 24)[i]);
        }
    }
    if let IpAddr::V6(a) = dst {
        assert forall|i: int| 0 <= i < 16 implies #[trigger] a.octets[i] == s@[24 + i] by {
            assert(a@[i] == s@.subrange(24, 40)[i]);
        }
    }
}

/// The sink takes an IPv4 packet of ICMP, TCP, UDP or ICMPv6, and an IPv6 packet of these,
/// in place of what was parked, with its protocol; every other leaves what is parked as
/// it is.
pub proof fn law_sink_parks_what_the_stack_handles(
    sink: &mut StackSplitSink,
    item: Packet,
    r: Result<(), Error>,
    protocol: u8,
)
    requires
        old(sink).wf(),
        call_ensures(StackSplitSink::start_send, (sink, item), r),
        item@.len() > 0,
        protocol == if item@[0] / 16 == 4 {
            item@[9]
        } else {
            item@[6]
        },
    ensures
        r is Ok <==> (item@[0] / 16 == 4 && item@.len() >= 20 && 4 * (item@[0] % 16)
            <= item@[2] * 256 + item@[3] <= item@.len()) || (item@[0] / 16 == 6
            && item@.len() >= 40 + (item@[4] * 256 + item@[5])),
        r is Ok && protocol == 17 ==> final(sink).parked() == Some((item, IpProtocol::Udp)),
        r is Ok && protocol == 6 ==> final(sink).parked() == Some((item, IpProtocol::Tcp)),
        r is Ok && protocol == 1 ==> final(sink).parked() == Some((item, IpProtocol::Icmp)),
        r is Ok && protocol == 58 ==> final(sink).parked() == Some((item, IpProtocol::Icmpv6)),
        r is Err || (protocol != 17 && protocol != 6 && protocol != 1 && protocol != 58)
            ==> final(sink).parked() == old(sink).parked(),
        r matches Err(e) ==> e.kind == ErrorKind::InvalidData && e.message@ == "wire::Error"@,
{
}

/// An empty packet is taken and forgotten.
pub proof fn law_empty_packet_is_forgotten(
    sink: &mut StackSplitSink,
    item: Packet,
    r: Result<(), Error>,
)
    requires
        old(sink).wf(),
        call_ensures(StackSplitSink::start_send, (sink, item), r),
        item@.len() == 0,
    ensures
        r is Ok,
        final(sink).parked() == old(sink).parked(),
{
}

/// A parked UDP packet goes to the channel for UDP and any other to the one for TCP, whole
/// and where that channel takes it; where that channel is full it stays parked, and where
/// nobody receives it is gone, with a failure. The other channel has no say.
pub proof fn law_parked_packet_goes_to_its_channel(
    sink: &mut StackSplitSink,
    udp: Room,
    tcp: Room,
    r: Flush,
    item: Packet,
    proto: IpProtocol,
)
    requires
        old(sink).wf(),
        call_ensures(StackSplitSink::poll_flush, (sink, udp, tcp), r),
        old(sink).parked() == Some((item, proto)),
    ensures
        proto == IpProtocol::Udp && udp == Room::Free ==> r.delivered == Some((Channel::Udp, item)),
        proto != IpProtocol::Udp && tcp == Room::Free ==> r.delivered == Some((Channel::Tcp, item)),
        r.delivered is Some <==> (if proto == IpProtocol::Udp {
            udp
        } else {
            tcp
        }) == Room::Free,
        final(sink).parked() == old(sink).parked() <==> (if proto == IpProtocol::Udp {
            udp
        } else {
            tcp
        }) == Room::Full,
        final(sink).parked() == old(sink).parked() || final(sink).parked() is None,
        (r.outcome matches Some(Ok(_))) <==> r.delivered is Some,
        r.outcome is None <==> final(sink).parked() is Some,
        r.outcome matches Some(Err(e)) ==> e.kind == ErrorKind::BrokenPipe && e.message@
            == "Failed to send packet: channel closed for protocol "@ + match proto {
            IpProtocol::Icmp => "Icmp"@,
            IpProtocol::Tcp => "Tcp"@,
            IpProtocol::Udp => "Udp"@,
            IpProtocol::Icmpv6 => "Icmpv6"@,
            IpProtocol::Unknown(_) => "Unknown"@,
        },
{
}

/// With nothing parked there is nothing to flush, and place for a packet; with a packet
/// parked, place is made by a flush.
pub proof fn law_place_is_made_by_a_flush(
    sink: &mut StackSplitSink,
    udp: Room,
    tcp: Room,
    r: Flush,
    other: &mut StackSplitSink,
    flush: Flush,
)
    requires
        old(sink).wf(),
        *old(other) == *old(sink),
        call_ensures(StackSplitSink::poll_ready, (sink, udp, tcp), r),
        call_ensures(StackSplitSink::poll_flush, (other, udp, tcp), flush),
    ensures
        final(sink).parked() == final(other).parked(),
        r.delivered == flush.delivered,
        r.outcome is None <==> flush.outcome is None,
        (r.outcome matches Some(Ok(_))) <==> (flush.outcome matches Some(Ok(_))),
        old(sink).parked() is None ==> (r.outcome matches Some(Ok(_))) && r.delivered is None
            && final(sink).parked() is None,
        r.outcome matches Some(Ok(_)) ==> final(sink).parked() is None,
{
}

/// What waits is known by where it goes.
pub proof fn law_pending_tells_the_channel(sink: &StackSplitSink, c: Option<Channel>)
    requires
        sink.wf(),
        call_ensures(StackSplitSink::pending, (sink,), c),
    ensures
        c is None <==> sink.parked() is None,
        c == Some(Channel::Udp) <==> (sink.parked() matches Some((_, proto)) && proto
            == IpProtocol::Udp),
{
}

/// A packet is its bytes, and hands them out unchanged.
pub proof fn law_packet_keeps_its_bytes(data: Bytes, p: Packet, s: &[u8], b: Bytes)
    requires
        call_ensures(Packet::new, (data,), p),
        call_ensures(Packet::data, (&p,), s),
        call_ensures(Packet::into_bytes, (p,), b),
    ensures
        s@ == bytes_seq(data),
        bytes_seq(b) == bytes_seq(data),
{
}

/// The stack has as many workers as the machine has units of parallelism, four where that
/// is not known, and the same parameters on every machine.
pub proof fn law_stack_defaults(available: Option<usize>, r: NetStackConfig)
    requires
        call_ensures(NetStackConfig::default, (available,), r),
    ensures
        available matches Some(n) ==> r.number_workers == n,
        available is None ==> r.number_workers == 4,
        r.mtu == 1500,
        r.channel_size == 4096,
        r.tcp_send_buffer_size == 16384,
        r.tcp_recv_buffer_size == 16384,
        r.buffer_pool_size == 32,
        r.buffer_pool_default_buffer_size == 2048,
        r.ipv4_addr@ == seq![10u8, 0, 0, 1],
        r.ipv4_prefix_len == 24,
        r.ipv6_addr@ == seq![0u8, 0, 0x0f, 0xac, 0, 0, 0, 0, 0, 0, 0, 0, 0, 0, 0, 1],
        r.ipv6_prefix_len == 64,
        r.tcp_keep_alive.nanos == 28_000_000_000,
        r.tcp_timeout.nanos == 60_000_000_000,
        r.packet_batch_size == 32,
        r.ip_ttl == 64,
{
    let s = seq![0u16, 0xfac, 0, 0, 0, 0, 0, 1];
    assert(crate::address::segment_octets(s) =~= seq![
        0u8, 0, 0x0f, 0xac, 0, 0, 0, 0, 0, 0, 0, 0, 0, 0, 0, 1,
    ]);
}

/// Each protocol that the stack tells apart has its number, and a name of its own.
pub proof fn law_protocols_have_numbers(n: u8, p: IpProtocol, s: &'static str)
    requires
        call_ensures(IpProtocol::from_number, (n,), p),
        call_ensures(IpProtocol::name, (&p,), s),
    ensures
        n == 1 <==> p == IpProtocol::Icmp,
        n == 6 <==> p == IpProtocol::Tcp,
        n == 17 <==> p == IpProtocol::Udp,
        n == 58 <==> p == IpProtocol::Icmpv6,
        p matches IpProtocol::Unknown(k) ==> k == n,
        n == 1 ==> s@ == "Icmp"@,
        n == 6 ==> s@ == "Tcp"@,
        n == 17 ==> s@ == "Udp"@,
        n == 58 ==> s@ == "Icmpv6"@,
        p is Unknown ==> s@ == "Unknown"@,
{
}

/// A new sink has nothing parked.
pub proof fn law_new_sink_is_empty(sink: StackSplitSink, c: Option<Channel>)
    requires
        call_ensures(StackSplitSink::new, (), sink),
        call_ensures(StackSplitSink::pending, (&sink,), c),
    ensures
        sink.parked() is None,
        c is None,
{
}

} // verus!
