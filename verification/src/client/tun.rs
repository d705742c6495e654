//! The TUN endpoint: where the packets of the device are really meant to go.
use bytes::Bytes;
use vstd::arithmetic::power2::pow2;
use vstd::prelude::*;
use vstd::utf8::encode_utf8;

use crate::address::{
    be32, segment, socket_port, socket_text, IpAddr, Ipv4Addr, Ipv6Addr, SocketAddr, SocketAddrV4,
    SocketAddrV6,
};
use crate::buf::bytes_seq;
use crate::error::{Error, ErrorKind};
use crate::netstack::stack::Packet;
use crate::netstack::udp::UdpPacket;
use crate::time::{Duration, NANOS_PER_SEC};
use crate::tunnel::Address;

use super::fakedns::Ipv4Net;

verus! {

/// The endpoint's parameters.
#[derive(Clone, Copy, Debug, PartialEq, Eq)]
pub struct TunConfig {
    pub fakedns_cidr: Ipv4Net,
    pub udp_idle_timeout: Duration,
    pub udp_session_channel_capacity: usize,
    pub disable_udp_443: bool,
}

impl TunConfig {
    /// The parameters for a pool and a choice on port 443, where they were set,
    /// and defaults for the rest.
    pub fn with(pool: Option<(Ipv4Addr, u8)>, disable_udp_443: Option<bool>) -> (r: TunConfig)
        ensures
            match pool {
                Some((addr, prefix_len)) => r.fakedns_cidr == (Ipv4Net { addr, prefix_len }),
                None => r.fakedns_cidr.addr@ == seq![198u8, 18, 0, 0] && r.fakedns_cidr.prefix_len
                    == 16,
            },
            r.udp_idle_timeout.nanos == 60 * NANOS_PER_SEC,
            r.udp_session_channel_capacity == 2048,
            r.disable_udp_443 == (disable_udp_443 == Some(true)),
    {
        TunConfig {
            fakedns_cidr: match pool {
                Some((addr, prefix_len)) => Ipv4Net { addr, prefix_len },
                None => Ipv4Net { addr: Ipv4Addr::new(198, 18, 0, 0), prefix_len: 16 },
            },
            udp_idle_timeout: Duration::from_secs(60),
            udp_session_channel_capacity: 2048,
            disable_udp_443: disable_udp_443.unwrap_or(false),
        }
    }
}

impl Default for TunConfig {
    fn default() -> (r: TunConfig)
        ensures
            r.fakedns_cidr.addr@ == seq![198u8, 18, 0, 0],
            r.fakedns_cidr.prefix_len == 16,
            r.udp_idle_timeout.nanos == 60 * NANOS_PER_SEC,
            r.udp_session_channel_capacity == 2048,
            !r.disable_udp_443,
    {
        TunConfig::with(None, None)
    }
}

/// The IPv4 addresses that are not tunneled: private (RFC 1918), loopback,
/// link-local, multicast, broadcast and documentation addresses, the current
/// network, shared address space, protocol assignments, benchmarking and the
/// reserved block `240.0.0.0/4`, which holds the broadcast address.
pub open spec fn v4_reserved(o: Seq<u8>) -> bool {
    ||| o[0] == 10
    ||| o[0] == 172 && 16 <= o[1] <= 31
    ||| o[0] == 192 && o[1] == 168
    ||| o[0] == 127
    ||| o[0] == 169 && o[1] == 254
    ||| 224 <= o[0] <= 239
    ||| o[0] == 192 && o[1] == 0 && o[2] == 2
    ||| o[0] == 198 && o[1] == 51 && o[2] == 100
    ||| o[0] == 203 && o[1] == 0 && o[2] == 113
    ||| o[0] == 0
    ||| o[0] == 100 && 64 <= o[1] <= 127
    ||| o[0] == 192 && o[1] == 0 && o[2] == 0
    ||| o[0] == 198 && 18 <= o[1] <= 19
    ||| o[0] >= 240
}

/// The IPv6 addresses that are not tunneled: loopback, unspecified and multicast
/// addresses, unique local, link-local and documentation addresses, and those
/// under `100::/16`, which hold the discard prefix.
pub open spec fn v6_reserved(o: Seq<u8>) -> bool {
    ||| (forall|i: int| 0 <= i < 15 ==> o[i] == 0) && o[15] <= 1
    ||| o[0] == 0xff
    ||| 0xfc <= o[0] <= 0xfd
    ||| o[0] == 0xfe && 0x80 <= o[1] <= 0xbf
    ||| segment(o, 0) == 0x2001 && segment(o, 1) == 0xdb8
    ||| segment(o, 0) == 0x100
}

/// Whether an address is not tunneled.
pub open spec fn reserved(ip: IpAddr) -> bool {
    match ip {
        IpAddr::V4(a) => v4_reserved(a@),
        IpAddr::V6(a) => v6_reserved(a@),
    }
}

fn v4_is_reserved(ip: &Ipv4Addr) -> (r: bool)
    ensures
        r == v4_reserved(ip@),
{
    let a: u8 = ip.octets[0];
    let b: u8 = ip.octets[1];
    let c: u8 = ip.octets[2];
    let private: bool = a == 10 || (a == 172 && 16 <= b && b <= 31) || (a == 192 && b == 168);
    let documentation: bool = (a == 192 && b == 0 && c == 2) || (a == 198 && b == 51 && c == 100)
        || (a == 203 && b == 0 && c == 113);
    private || documentation || a == 127 || (a == 169 && b == 254) || (224 <= a && a <= 239) || a
        == 0 || (a == 100 && 64 <= b && b <= 127) || (a == 192 && b == 0 && c == 0) || (a == 198
        && 18 <= b && b <= 19) || a >= 240
}

fn v6_is_reserved(ip: &Ipv6Addr) -> (r: bool)
    ensures
        r == v6_reserved(ip@),
{
    let o = ip.octets;
    let mut zeros: usize = 0;
    while zeros < 15 && o[zeros] == 0
        invariant
            zeros <= 15,
            forall|i: int| 0 <= i < zeros ==> o@[i] == 0,
        ensures
            zeros <= 15,
            forall|i: int| 0 <= i < zeros ==> o@[i] == 0,
            zeros < 15 ==> o@[zeros as int] != 0,
        decreases 15 - zeros,
    {
        zeros += 1;
    }
    let first: u16 = ip.segment(0);
    (zeros == 15 && o[15] <= 1) || o[0] == 0xff || (0xfc <= o[0] && o[0] <= 0xfd) || (o[0] == 0xfe
        && 0x80 <= o[1] && o[1] <= 0xbf) || (first == 0x2001 && ip.segment(1) == 0xdb8) || first
        == 0x100
}

/// Whether an IP address is a private or local network or a reserved address, and
/// so is not tunneled.
pub fn is_private_or_reserved(ip: &IpAddr) -> (r: bool)
    ensures
        r == reserved(*ip),
{
    match ip {
        IpAddr::V4(a) => v4_is_reserved(a),
        IpAddr::V6(a) => v6_is_reserved(a),
    }
}

/// Whether a destination is not tunneled. A name is: it is resolved later.
pub open spec fn skipped(addr: Address) -> bool {
    match addr {
        Address::SocketV4(a) => v4_reserved(a.ip@),
        Address::SocketV6(a) => v6_reserved(a.ip@),
        Address::Domain(..) => false,
    }
}

/// Whether a destination is not tunneled.
pub fn should_skip_address(addr: &Address) -> (r: bool)
    ensures
        r == skipped(*addr),
{
    match addr {
        Address::SocketV4(a) => is_private_or_reserved(&IpAddr::V4(a.ip)),
        Address::SocketV6(a) => is_private_or_reserved(&IpAddr::V6(a.ip)),
        Address::Domain(_, _) => false,
    }
}

/// Whether an address is one of the pool.
pub open spec fn from_pool(pool: Ipv4Net, a: SocketAddr) -> bool {
    a matches SocketAddr::V4(x) && pool.holds(be32(x.ip@))
}

/// The address itself as a destination.
pub open spec fn as_is(a: SocketAddr) -> Address {
    match a {
        SocketAddr::V4(x) => Address::SocketV4(x),
        SocketAddr::V6(x) => Address::SocketV6(x),
    }
}

fn between(before: &str, local: &SocketAddr, remote: &str) -> (e: Error)
    ensures
        e.reads(ErrorKind::Other, before@ + socket_text(*local) + " -> "@ + remote@),
{
    let mut message = before.to_owned();
    message.append(local.to_text().as_str());
    message.append(" -> ");
    message.append(remote);
    Error::with_message(ErrorKind::Other, message)
}

/// Where a packet is really meant to go: to the name that its address stands for,
/// or else to the address itself. An address of the pool that stands for no name
/// any more leads nowhere, and neither does a reserved one.
pub fn target_address(
    config: &TunConfig,
    local: &SocketAddr,
    remote: &SocketAddr,
    name: Option<String>,
) -> (r: Result<Address, Error>)
    requires
        config.fakedns_cidr.wf(),
    ensures
        match name {
            Some(n) => r matches Ok(Address::Domain(d, port)) && bytes_seq(d) == encode_utf8(n@)
                && port == socket_port(*remote),
            None => if from_pool(config.fakedns_cidr, *remote) {
                r matches Err(e) && e.reads(
                    ErrorKind::Other,
                    "dns cache miss: "@ + socket_text(*local) + " -> "@ + socket_text(*remote),
                )
            } else if skipped(as_is(*remote)) {
                r matches Err(e) && e.reads(
                    ErrorKind::Other,
                    "skipping private/reserved address: "@ + socket_text(*local) + " -> "@
                        + socket_text(*remote),
                )
            } else {
                r == Ok::<Address, Error>(as_is(*remote))
            },
        },
{
    let target = match name {
        Some(name) => {
            let port: u16 = remote.port();
            Address::Domain(Bytes::copy_from_slice(name.as_str().as_bytes()), port)
        },
        None => match remote {
            SocketAddr::V4(a) => {
                if config.fakedns_cidr.contains(a.ip) {
                    return Err(between("dns cache miss: ", local, remote.to_text().as_str()));
                }
                Address::SocketV4(*a)
            },
            SocketAddr::V6(a) => Address::SocketV6(*a),
        },
    };
    if should_skip_address(&target) {
        return Err(
            between("skipping private/reserved address: ", local, target.to_text().as_str()),
        );
    }
    Ok(target)
}

/// What becomes of a UDP packet of the device.
#[derive(Clone, Copy, Debug, PartialEq, Eq, Structural)]
pub enum UdpRoute {
    /// The built-in DNS server answers it.
    Dns,
    /// It is dropped.
    Drop,
    /// It goes through the tunnel.
    Tunnel,
}

/// What becomes of a UDP packet of the device: port 53 is the built-in DNS
/// server's, and port 443 may be closed.
pub fn route_udp(config: &TunConfig, dst: &SocketAddr) -> (r: UdpRoute)
    ensures
        r == if socket_port(*dst) == 53 {
            UdpRoute::Dns
        } else if config.disable_udp_443 && socket_port(*dst) == 443 {
            UdpRoute::Drop
        } else {
            UdpRoute::Tunnel
        },
{
    let port: u16 = dst.port();
    if port == 53 {
        UdpRoute::Dns
    } else if config.disable_udp_443 && port == 443 {
        UdpRoute::Drop
    } else {
        UdpRoute::Tunnel
    }
}

/// The answer to a packet: its bytes travel back between the same two ends.
pub fn reply_packet(data: Bytes, src: SocketAddr, dst: SocketAddr) -> (p: UdpPacket)
    ensures
        p.data@ == bytes_seq(data),
        p.src_addr == dst,
        p.dst_addr == src,
{
    UdpPacket { data: Packet::new(data), src_addr: dst, dst_addr: src }
}

/// What becomes of the flow of a local address after a packet was handed to it.
#[derive(Clone, Copy, Debug, PartialEq, Eq, Structural)]
pub enum FlowChange {
    /// It goes on.
    Keep,
    /// Nobody relays it any more: it is forgotten.
    Remove,
    /// It is new: it is kept, and somebody is to relay it.
    Start,
    /// It was never begun.
    Nothing,
}

/// What becomes of the flow of a local address after a packet was handed to it,
/// or to the channel of a new one.
pub fn after_handover(known: bool, taken: bool) -> (r: FlowChange)
    ensures
        r == match (known, taken) {
            (true, true) => FlowChange::Keep,
            (true, false) => FlowChange::Remove,
            (false, true) => FlowChange::Start,
            (false, false) => FlowChange::Nothing,
        },
{
    if known {
        if taken {
            FlowChange::Keep
        } else {
            FlowChange::Remove
        }
    } else if taken {
        FlowChange::Start
    } else {
        FlowChange::Nothing
    }
}

/// What happened to a flow.
pub enum FlowEvent {
    /// The device sent this, meant for that destination.
    Outgoing(Bytes, Address),
    /// Sending it through the tunnel was tried.
    Sent,
    /// The tunnel delivered this.
    Incoming(Bytes),
    /// It was handed to the device's stack, or was not.
    Delivered(bool),
    /// Nothing has moved for the idle timeout.
    Idle,
}

/// What to do about it.
pub enum FlowStep {
    /// Send this through the tunnel.
    Send(Bytes, Address),
    /// Hand this to the device's stack.
    Deliver(UdpPacket),
    /// Start the idle timeout over.
    Rearm,
    /// The flow is over: the entry of this local address is removed, so that the next
    /// packet from it starts another.
    End(SocketAddr),
}

/// A UDP flow between the device and the tunnel.
pub struct UdpFlow {
    /// The device's end.
    pub local: SocketAddr,
    /// The other end, as the device knows it.
    pub fake_remote: SocketAddr,
    /// The first destination that was really meant, as it is written.
    pub target: Option<String>,
    /// Bytes that the device has sent.
    pub sent: u64,
    /// Bytes that the tunnel has delivered.
    pub received: u64,
}

/// The text of the first destination.
pub open spec fn target_text(flow: UdpFlow) -> Option<Seq<char>> {
    match flow.target {
        Some(t) => Some(t@),
        None => None,
    }
}

impl UdpFlow {
    /// A flow that has carried nothing yet.
    pub fn new(local: SocketAddr, fake_remote: SocketAddr) -> (r: UdpFlow)
        ensures
            r.local == local,
            r.fake_remote == fake_remote,
            r.target is None,
            r.sent == 0,
            r.received == 0,
    {
        UdpFlow { local, fake_remote, target: None, sent: 0, received: 0 }
    }

    /// Whether the totals have room for what an event adds.
    pub open spec fn has_room(&self, event: FlowEvent) -> bool {
        match event {
            FlowEvent::Outgoing(data, _) => self.sent + bytes_seq(data).len() <= u64::MAX,
            FlowEvent::Incoming(data) => self.received + bytes_seq(data).len() <= u64::MAX,
            _ => true,
        }
    }

    /// Takes one event of the flow. Whatever moves in either direction starts the
    /// idle timeout over, also where sending it failed; the flow ends when it is
    /// idle or the stack takes no more. The device hears answers from the address
    /// that it has sent to.
    pub fn relay_udp_flow(&mut self, event: FlowEvent) -> (r: FlowStep)
        requires
            old(self).has_room(event),
        ensures
            final(self).local == old(self).local,
            final(self).fake_remote == old(self).fake_remote,
            target_text(*final(self)) == match (target_text(*old(self)), event) {
                (None, FlowEvent::Outgoing(_, addr)) => Some(addr.text()),
                (t, _) => t,
            },
            final(self).sent == old(self).sent + match event {
                FlowEvent::Outgoing(data, _) => bytes_seq(data).len() as int,
                _ => 0,
            },
            final(self).received == old(self).received + match event {
                FlowEvent::Incoming(data) => bytes_seq(data).len() as int,
                _ => 0,
            },
            match event {
                FlowEvent::Outgoing(data, addr) => r == FlowStep::Send(data, addr),
                FlowEvent::Sent => r is Rearm,
                FlowEvent::Incoming(data) => r matches FlowStep::Deliver(p) && p.data@ == bytes_seq(
                    data,
                ) && p.src_addr == old(self).fake_remote && p.dst_addr == old(self).local,
                FlowEvent::Delivered(true) => r is Rearm,
                FlowEvent::Delivered(false) | FlowEvent::Idle => r == FlowStep::End(
                    old(self).local,
                ),
            },
    {
        match event {
            FlowEvent::Outgoing(data, addr) => {
                if self.target.is_none() {
                    self.target = Some(addr.to_text());
                }
                self.sent += data.len() as u64;
                FlowStep::Send(data, addr)
            },
            FlowEvent::Sent => FlowStep::Rearm,
            FlowEvent::Incoming(data) => {
                self.received += data.len() as u64;
                FlowStep::Deliver(reply_packet(data, self.local, self.fake_remote))
            },
            FlowEvent::Delivered(true) => FlowStep::Rearm,
            FlowEvent::Delivered(false) => FlowStep::End(self.local),
            FlowEvent::Idle => FlowStep::End(self.local),
        }
    }
}

/// No address of the default pool is ever tunneled as it is: without a name it is
/// refused before the tunnel sees it.
pub proof fn law_pool_is_never_tunneled(config: TunConfig, remote: SocketAddr)
    requires
        from_pool(config.fakedns_cidr, remote),
        config.fakedns_cidr.addr@ == seq![198u8, 18, 0, 0],
        config.fakedns_cidr.prefix_len == 16,
    ensures
        skipped(as_is(remote)),
{
    let ip = remote->V4_0.ip@;
    vstd::arithmetic::power2::lemma2_to64();
    assert(config.fakedns_cidr.size() == 0x1_0000);
    assert(be32(config.fakedns_cidr.addr@) == 198 * 0x100_0000 + 18 * 0x1_0000);
    assert(config.fakedns_cidr.first() == 198 * 0x100_0000 + 18 * 0x1_0000);
    assert(ip[0] == 198 && ip[1] == 18);
}

/// Whether an IPv4 address lies in the network whose first address is `a.b.c.d` and whose
/// prefix has `len` bits.
pub open spec fn lies_in(ip: Ipv4Addr, a: int, b: int, c: int, d: int, len: nat) -> bool {
    let n = ip.octets[0] * 0x100_0000 + ip.octets[1] * 0x1_0000 + ip.octets[2] * 0x100
        + ip.octets[3];
    let first = a * 0x100_0000 + b * 0x1_0000 + c * 0x100 + d;
    first <= n < first + pow2((32 - len) as nat)
}

/// Whether an IPv6 address lies in the network whose first address begins with the
/// segments `a` and `b` and is zero behind them, and whose prefix has `len` bits, 32 at
/// most.
pub open spec fn lies_in_v6(ip: Ipv6Addr, a: int, b: int, len: nat) -> bool {
    let n = ip.octets[0] * 0x100_0000 + ip.octets[1] * 0x1_0000 + ip.octets[2] * 0x100
        + ip.octets[3];
    let first = a * 0x1_0000 + b;
    first <= n < first + pow2((32 - len) as nat)
}

/// The IPv4 addresses that are not tunneled are exactly those of fourteen networks.
pub proof fn law_reserved_networks(ip: Ipv4Addr, r: bool)
    requires
        call_ensures(is_private_or_reserved, (&IpAddr::V4(ip),), r),
    ensures
        r <==> {
            ||| lies_in(ip, 10, 0, 0, 0, 8)
            ||| lies_in(ip, 172, 16, 0, 0, 12)
            ||| lies_in(ip, 192, 168, 0, 0, 16)
            ||| lies_in(ip, 127, 0, 0, 0, 8)
            ||| lies_in(ip, 169, 254, 0, 0, 16)
            ||| lies_in(ip, 224, 0, 0, 0, 4)
            ||| lies_in(ip, 240, 0, 0, 0, 4)
            ||| lies_in(ip, 192, 0, 2, 0, 24)
            ||| lies_in(ip, 198, 51, 100, 0, 24)
            ||| lies_in(ip, 203, 0, 113, 0, 24)
            ||| lies_in(ip, 0, 0, 0, 0, 8)
            ||| lies_in(ip, 100, 64, 0, 0, 10)
            ||| lies_in(ip, 192, 0, 0, 0, 24)
            ||| lies_in(ip, 198, 18, 0, 0, 15)
        },
{
    vstd::arithmetic::power2::lemma2_to64();
    assert(ip@[0] == ip.octets[0] && ip@[1] == ip.octets[1] && ip@[2] == ip.octets[2] && ip@[3]
        == ip.octets[3]);
}

/// Of the addresses that begin with 192 only those of three networks are not tunneled.
pub proof fn law_most_of_192_is_tunneled(ip: Ipv4Addr, r: bool)
    requires
        call_ensures(is_private_or_reserved, (&IpAddr::V4(ip),), r),
        ip.octets[0] == 192,
    ensures
        r <==> lies_in(ip, 192, 168, 0, 0, 16) || lies_in(ip, 192, 0, 0, 0, 24) || lies_in(
            ip,
            192,
            0,
            2,
            0,
            24,
        ),
{
    vstd::arithmetic::power2::lemma2_to64();
    assert(ip@[0] == ip.octets[0] && ip@[1] == ip.octets[1] && ip@[2] == ip.octets[2] && ip@[3]
        == ip.octets[3]);
}

proof fn lemma_v6_reserved(ip: Ipv6Addr)
    ensures
        v6_reserved(ip@) <==> {
            ||| (forall|i: int| 0 <= i < 15 ==> #[trigger] ip.octets[i] == 0) && ip.octets[15] <= 1
            ||| lies_in_v6(ip, 0xff00, 0, 8)
            ||| lies_in_v6(ip, 0xfc00, 0, 7)
            ||| lies_in_v6(ip, 0xfe80, 0, 10)
            ||| lies_in_v6(ip, 0x2001, 0xdb8, 32)
            ||| lies_in_v6(ip, 0x100, 0, 16)
        },
{
    vstd::arithmetic::power2::lemma2_to64();
    assert forall|i: int| 0 <= i < 16 implies #[trigger] ip@[i] == ip.octets[i] by {}
    assert(ip@[0] == ip.octets[0] && ip@[1] == ip.octets[1] && ip@[2] == ip.octets[2] && ip@[3]
        == ip.octets[3] && ip@[15] == ip.octets[15]);
    if forall|i: int| 0 <= i < 15 ==> #[trigger] ip.octets[i] == 0 {
        assert forall|i: int| 0 <= i < 15 implies ip@[i] == 0 by {
            assert(ip.octets[i] == 0);
        }
    }
    if forall|i: int| 0 <= i < 15 ==> ip@[i] == 0 {
        assert forall|i: int| 0 <= i < 15 implies #[trigger] ip.octets[i] == 0 by {
            assert(ip@[i] == 0);
        }
    }
}

/// The IPv6 addresses that are not tunneled are the unspecified and the loopback address
/// and those of five networks.
pub proof fn law_reserved_networks_v6(ip: Ipv6Addr, r: bool)
    requires
        call_ensures(is_private_or_reserved, (&IpAddr::V6(ip),), r),
    ensures
        r <==> {
            ||| (forall|i: int| 0 <= i < 15 ==> #[trigger] ip.octets[i] == 0) && ip.octets[15] <= 1
            ||| lies_in_v6(ip, 0xff00, 0, 8)
            ||| lies_in_v6(ip, 0xfc00, 0, 7)
            ||| lies_in_v6(ip, 0xfe80, 0, 10)
            ||| lies_in_v6(ip, 0x2001, 0xdb8, 32)
            ||| lies_in_v6(ip, 0x100, 0, 16)
        },
{
    lemma_v6_reserved(ip);
}

/// A destination is skipped where its address is reserved, whatever its port; a name never
/// is.
pub proof fn law_only_addresses_are_skipped(addr: &Address, r: bool, reserved: bool)
    requires
        call_ensures(should_skip_address, (addr,), r),
        match addr {
            Address::SocketV4(a) => call_ensures(
                is_private_or_reserved,
                (&IpAddr::V4(a.ip),),
                reserved,
            ),
            Address::SocketV6(a) => call_ensures(
                is_private_or_reserved,
                (&IpAddr::V6(a.ip),),
                reserved,
            ),
            Address::Domain(..) => !reserved,
        },
    ensures
        r == reserved,
{
}

/// An IPv4 address that stands for no name, is not one of the pool and lies in none of
/// the reserved networks is tunneled as it is. Every other one without a name leads
/// nowhere.
pub proof fn law_public_address_is_tunneled_as_it_is(
    config: &TunConfig,
    local: &SocketAddr,
    remote: SocketAddrV4,
    r: Result<Address, Error>,
)
    requires
        config.fakedns_cidr.wf(),
        call_ensures(target_address, (config, local, &SocketAddr::V4(remote), None), r),
    ensures
        r is Ok <==> !(config.fakedns_cidr.holds(be32(remote.ip@)) || {
            ||| lies_in(remote.ip, 10, 0, 0, 0, 8)
            ||| lies_in(remote.ip, 172, 16, 0, 0, 12)
            ||| lies_in(remote.ip, 192, 168, 0, 0, 16)
            ||| lies_in(remote.ip, 127, 0, 0, 0, 8)
            ||| lies_in(remote.ip, 169, 254, 0, 0, 16)
            ||| lies_in(remote.ip, 224, 0, 0, 0, 4)
            ||| lies_in(remote.ip, 240, 0, 0, 0, 4)
            ||| lies_in(remote.ip, 192, 0, 2, 0, 24)
            ||| lies_in(remote.ip, 198, 51, 100, 0, 24)
            ||| lies_in(remote.ip, 203, 0, 113, 0, 24)
            ||| lies_in(remote.ip, 0, 0, 0, 0, 8)
            ||| lies_in(remote.ip, 100, 64, 0, 0, 10)
            ||| lies_in(remote.ip, 192, 0, 0, 0, 24)
            ||| lies_in(remote.ip, 198, 18, 0, 0, 15)
        }),
        r matches Ok(a) ==> a == Address::SocketV4(remote),
        r matches Err(e) ==> e.kind == ErrorKind::Other,
{
    vstd::arithmetic::power2::lemma2_to64();
    let ip = remote.ip;
    assert(ip@[0] == ip.octets[0] && ip@[1] == ip.octets[1] && ip@[2] == ip.octets[2] && ip@[3]
        == ip.octets[3]);
}

/// The same of an IPv6 address, which is never one of the pool.
pub proof fn law_public_v6_address_is_tunneled_as_it_is(
    config: &TunConfig,
    local: &SocketAddr,
    remote: SocketAddrV6,
    r: Result<Address, Error>,
)
    requires
        config.fakedns_cidr.wf(),
        call_ensures(target_address, (config, local, &SocketAddr::V6(remote), None), r),
    ensures
        r is Ok <==> !{
            ||| (forall|i: int| 0 <= i < 15 ==> #[trigger] remote.ip.octets[i] == 0)
                && remote.ip.octets[15] <= 1
            ||| lies_in_v6(remote.ip, 0xff00, 0, 8)
            ||| lies_in_v6(remote.ip, 0xfc00, 0, 7)
            ||| lies_in_v6(remote.ip, 0xfe80, 0, 10)
            ||| lies_in_v6(remote.ip, 0x2001, 0xdb8, 32)
            ||| lies_in_v6(remote.ip, 0x100, 0, 16)
        },
        r matches Ok(a) ==> a == Address::SocketV6(remote),
        r matches Err(e) ==> e.kind == ErrorKind::Other,
{
    lemma_v6_reserved(remote.ip);
}

/// A packet to an address that stands for a name goes to that name, at the same port,
/// whatever the address.
pub proof fn law_name_is_tunneled(
    config: &TunConfig,
    local: &SocketAddr,
    remote: &SocketAddr,
    name: String,
    r: Result<Address, Error>,
)
    requires
        config.fakedns_cidr.wf(),
        call_ensures(target_address, (config, local, remote, Some(name)), r),
    ensures
        r matches Ok(Address::Domain(d, port)) && bytes_seq(d) == encode_utf8(name@) && port
            == match *remote {
            SocketAddr::V4(a) => a.port,
            SocketAddr::V6(a) => a.port,
        },
{
}

/// Port 53 is the built-in DNS server's, port 443 is closed where that is asked for, and
/// every other packet goes through the tunnel.
pub proof fn law_udp_is_routed_by_port(config: &TunConfig, dst: SocketAddrV4, r: UdpRoute)
    requires
        call_ensures(route_udp, (config, &SocketAddr::V4(dst)), r),
    ensures
        r == UdpRoute::Dns <==> dst.port == 53,
        r == UdpRoute::Drop <==> dst.port == 443 && config.disable_udp_443,
{
}

/// The same of IPv6.
pub proof fn law_udp_is_routed_by_port_v6(config: &TunConfig, dst: SocketAddrV6, r: UdpRoute)
    requires
        call_ensures(route_udp, (config, &SocketAddr::V6(dst)), r),
    ensures
        r == UdpRoute::Dns <==> dst.port == 53,
        r == UdpRoute::Drop <==> dst.port == 443 && config.disable_udp_443,
{
}

/// An answer to an answer travels the way of the first packet.
pub proof fn law_answer_travels_back(
    data: Bytes,
    src: SocketAddr,
    dst: SocketAddr,
    p: UdpPacket,
    again: Bytes,
    q: UdpPacket,
)
    requires
        call_ensures(reply_packet, (data, src, dst), p),
        call_ensures(reply_packet, (again, p.src_addr, p.dst_addr), q),
    ensures
        p.data@ == bytes_seq(data),
        p.src_addr == dst,
        p.dst_addr == src,
        q.src_addr == src,
        q.dst_addr == dst,
{
}

/// Without a choice, names stand behind `198.18.0.0/16`, an idle flow ends after a
/// minute, and port 443 is open.
pub proof fn law_tun_defaults(r: TunConfig)
    requires
        call_ensures(TunConfig::with, (None, None), r),
    ensures
        r.fakedns_cidr.addr.octets[0] == 198,
        r.fakedns_cidr.addr.octets[1] == 18,
        r.fakedns_cidr.addr.octets[2] == 0,
        r.fakedns_cidr.addr.octets[3] == 0,
        r.fakedns_cidr.prefix_len == 16,
        r.udp_idle_timeout.nanos == 60_000_000_000,
        r.udp_session_channel_capacity == 2048,
        !r.disable_udp_443,
{
    let a = r.fakedns_cidr.addr;
    assert(a@[0] == a.octets[0] && a@[1] == a.octets[1] && a@[2] == a.octets[2] && a@[3]
        == a.octets[3]);
}

/// What is chosen is taken, and one choice leaves the rest alone.
pub proof fn law_tun_choices_are_taken(
    pool: Option<(Ipv4Addr, u8)>,
    disable: Option<bool>,
    r: TunConfig,
    bare: TunConfig,
)
    requires
        call_ensures(TunConfig::with, (pool, disable), r),
        call_ensures(TunConfig::with, (None, None), bare),
    ensures
        pool matches Some((addr, len)) ==> r.fakedns_cidr.addr == addr && r.fakedns_cidr.prefix_len
            == len,
        pool is None ==> r.fakedns_cidr.addr@ == bare.fakedns_cidr.addr@
            && r.fakedns_cidr.prefix_len == bare.fakedns_cidr.prefix_len,
        disable matches Some(d) ==> r.disable_udp_443 == d,
        disable is None ==> r.disable_udp_443 == bare.disable_udp_443,
        r.udp_idle_timeout == bare.udp_idle_timeout,
        r.udp_session_channel_capacity == bare.udp_session_channel_capacity,
{
}

/// A flow is kept while its packets are taken, begun by the first that is, and forgotten
/// with the first that is not.
pub proof fn law_flow_is_known_while_taken(known: bool, taken: bool, r: FlowChange)
    requires
        call_ensures(after_handover, (known, taken), r),
    ensures
        r == FlowChange::Keep || r == FlowChange::Start <==> taken,
        r == FlowChange::Keep || r == FlowChange::Remove <==> known,
{
}

/// A flow sends what the device sent to where it is meant, delivers what the tunnel
/// delivered to the device's end as from the end that the device knows, counts both, and
/// ends where it is idle or the stack takes no more.
pub proof fn law_flow_relays_both_ways(flow: &mut UdpFlow, event: FlowEvent, r: FlowStep)
    requires
        old(flow).has_room(event),
        call_ensures(UdpFlow::relay_udp_flow, (flow, event), r),
    ensures
        event matches FlowEvent::Outgoing(data, addr) ==> {
            &&& r == FlowStep::Send(data, addr)
            &&& final(flow).sent == old(flow).sent + bytes_seq(data).len()
        },
        event matches FlowEvent::Incoming(data) ==> {
            &&& r matches FlowStep::Deliver(p)
            &&& p.data@ == bytes_seq(data)
            &&& p.src_addr == old(flow).fake_remote
            &&& p.dst_addr == old(flow).local
            &&& final(flow).received == old(flow).received + bytes_seq(data).len()
        },
        !(event is Outgoing) ==> final(flow).sent == old(flow).sent,
        !(event is Incoming) ==> final(flow).received == old(flow).received,
        r is Rearm <==> event is Sent || event == FlowEvent::Delivered(true),
        r is End <==> event is Idle || event == FlowEvent::Delivered(false),
        r matches FlowStep::End(a) ==> a == old(flow).local,
        final(flow).local == old(flow).local,
        final(flow).fake_remote == old(flow).fake_remote,
        old(flow).target matches Some(t) ==> (final(flow).target matches Some(u) && u@ == t@),
        old(flow).target is None ==> (final(flow).target is Some <==> event is Outgoing),
{
}

/// A packet that leads nowhere says between which ends it travelled, and whether its
/// address was one of the pool or a reserved one.
pub proof fn law_dropped_packet_says_why(
    config: &TunConfig,
    local: &SocketAddr,
    remote: &SocketAddr,
    e: Error,
    from: String,
    to: String,
)
    requires
        config.fakedns_cidr.wf(),
        call_ensures(target_address, (config, local, remote, None), Err::<Address, Error>(e)),
        call_ensures(SocketAddr::to_text, (local,), from),
        call_ensures(SocketAddr::to_text, (remote,), to),
    ensures
        (remote matches SocketAddr::V4(a) && config.fakedns_cidr.holds(be32(a.ip@))) ==> e.message@
            == "dns cache miss: "@ + from@ + " -> "@ + to@,
        !(remote matches SocketAddr::V4(a) && config.fakedns_cidr.holds(be32(a.ip@)))
            ==> e.message@ == "skipping private/reserved address: "@ + from@ + " -> "@ + to@,
{
}

/// A new flow lies between its ends and has carried nothing; default parameters are those
/// without a choice.
pub proof fn law_new_flow_has_carried_nothing(
    local: SocketAddr,
    remote: SocketAddr,
    flow: UdpFlow,
    a: TunConfig,
    b: TunConfig,
)
    requires
        call_ensures(UdpFlow::new, (local, remote), flow),
        call_ensures(<TunConfig as Default>::default, (), a),
        call_ensures(TunConfig::with, (None, None), b),
    ensures
        flow.local == local,
        flow.fake_remote == remote,
        flow.target is None,
        flow.sent == 0,
        flow.received == 0,
        a.fakedns_cidr.addr@ == b.fakedns_cidr.addr@,
        a.fakedns_cidr.prefix_len == b.fakedns_cidr.prefix_len,
        a.udp_idle_timeout == b.udp_idle_timeout,
        a.udp_session_channel_capacity == b.udp_session_channel_capacity,
        a.disable_udp_443 == b.disable_udp_443,
{
}

} // verus!
