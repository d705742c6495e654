//! IP and socket addresses.
use vstd::prelude::*;

use crate::buf::be16_bytes;
use crate::text::{
    decimal_text, hex_text, is_numeral, lemma_digits_read_back, number_of, push_decimal, push_hex,
};

verus! {

/// An IPv4 address.
#[derive(Clone, Copy, Debug, PartialEq, Eq, Hash)]
pub struct Ipv4Addr {
    pub octets: [u8; 4],
}

/// An IPv6 address.
#[derive(Clone, Copy, Debug, PartialEq, Eq, Hash)]
pub struct Ipv6Addr {
    pub octets: [u8; 16],
}

/// An IP address of either family.
#[derive(Clone, Copy, Debug, PartialEq, Eq, Hash)]
pub enum IpAddr {
    V4(Ipv4Addr),
    V6(Ipv6Addr),
}

/// An IPv4 address and a port.
#[derive(Clone, Copy, Debug, PartialEq, Eq, Hash)]
pub struct SocketAddrV4 {
    pub ip: Ipv4Addr,
    pub port: u16,
}

/// An IPv6 address and a port, with the flow information and the scope.
#[derive(Clone, Copy, Debug, PartialEq, Eq, Hash)]
pub struct SocketAddrV6 {
    pub ip: Ipv6Addr,
    pub port: u16,
    pub flowinfo: u32,
    pub scope_id: u32,
}

/// A socket address of either family.
#[derive(Clone, Copy, Debug, PartialEq, Eq, Hash)]
pub enum SocketAddr {
    V4(SocketAddrV4),
    V6(SocketAddrV6),
}

/// The octets of the address of a socket.
pub open spec fn socket_octets(a: SocketAddr) -> Seq<u8> {
    match a {
        SocketAddr::V4(a) => a.ip@,
        SocketAddr::V6(a) => a.ip@,
    }
}

/// The port of a socket.
pub open spec fn socket_port(a: SocketAddr) -> u16 {
    match a {
        SocketAddr::V4(a) => a.port,
        SocketAddr::V6(a) => a.port,
    }
}

/// A socket address as a mathematical value. The number of octets tells the family;
/// an IPv4 address has neither flow information nor a scope.
pub struct SocketView {
    pub octets: Seq<u8>,
    pub port: u16,
    pub flowinfo: u32,
    pub scope_id: u32,
}

impl View for SocketAddr {
    type V = SocketView;

    open spec fn view(&self) -> SocketView {
        match *self {
            SocketAddr::V4(a) => SocketView {
                octets: a.ip@,
                port: a.port,
                flowinfo: 0,
                scope_id: 0,
            },
            SocketAddr::V6(a) => SocketView {
                octets: a.ip@,
                port: a.port,
                flowinfo: a.flowinfo,
                scope_id: a.scope_id,
            },
        }
    }
}

/// Socket addresses that are the same value are the same address.
pub proof fn law_views_tell_sockets_apart(a: SocketAddr, b: SocketAddr)
    requires
        a@ == b@,
    ensures
        a == b,
{
    assert(a@.octets.len() == b@.octets.len());
    match (a, b) {
        (SocketAddr::V4(x), SocketAddr::V4(y)) => {
            assert(x.ip@ == y.ip@);
            assert forall|i: int| 0 <= i < 4 implies x.ip.octets[i] == y.ip.octets[i] by {
                assert(x.ip@[i] == y.ip@[i]);
            }
            assert(x.ip.octets =~= y.ip.octets);
        },
        (SocketAddr::V6(x), SocketAddr::V6(y)) => {
            assert(x.ip@ == y.ip@);
            assert forall|i: int| 0 <= i < 16 implies x.ip.octets[i] == y.ip.octets[i] by {
                assert(x.ip@[i] == y.ip@[i]);
            }
            assert(x.ip.octets =~= y.ip.octets);
        },
        (SocketAddr::V4(x), SocketAddr::V6(y)) => {
            assert(x.ip.octets@.len() == 4 && y.ip.octets@.len() == 16);
        },
        (SocketAddr::V6(x), SocketAddr::V4(y)) => {
            assert(x.ip.octets@.len() == 16 && y.ip.octets@.len() == 4);
        },
    }
}

impl View for Ipv4Addr {
    type V = Seq<u8>;

    /// The four octets.
    open spec fn view(&self) -> Seq<u8> {
        self.octets@
    }
}

impl View for Ipv6Addr {
    type V = Seq<u8>;

    /// The sixteen octets.
    open spec fn view(&self) -> Seq<u8> {
        self.octets@
    }
}

/// The number whose big-endian bytes are the four of `s`.
pub open spec fn be32(s: Seq<u8>) -> int {
    s[0] * 0x100_0000 + s[1] * 0x1_0000 + s[2] * 0x100 + s[3]
}

impl Ipv4Addr {
    /// The address `a.b.c.d`.
    pub fn new(a: u8, b: u8, c: u8, d: u8) -> (r: Ipv4Addr)
        ensures
            r@ == seq![a, b, c, d],
    {
        Ipv4Addr { octets: [a, b, c, d] }
    }

    /// The address `0.0.0.0`.
    pub fn unspecified() -> (r: Ipv4Addr)
        ensures
            r@ == seq![0u8, 0, 0, 0],
    {
        Ipv4Addr::new(0, 0, 0, 0)
    }

    /// The address as a number.
    pub fn to_bits(&self) -> (n: u32)
        ensures
            n == be32(self@),
    {
        let o = self.octets;
        o[0] as u32 * 0x100_0000 + o[1] as u32 * 0x1_0000 + o[2] as u32 * 0x100 + o[3] as u32
    }

    /// The address that is `n` as a number.
    pub fn from_bits(n: u32) -> (r: Ipv4Addr)
        ensures
            be32(r@) == n,
    {
        let high: u32 = n / 0x1_0000;
        let low: u32 = n % 0x1_0000;
        let r = Ipv4Addr::new(
            (high / 0x100) as u8,
            (high % 0x100) as u8,
            (low / 0x100) as u8,
            (low % 0x100) as u8,
        );
        assert(r@[0] * 0x100 + r@[1] == high);
        assert(r@[2] * 0x100 + r@[3] == low);
        r
    }
}

/// Addresses that are the same number are the same address.
pub proof fn law_numbers_tell_addresses_apart(a: Seq<u8>, b: Seq<u8>)
    requires
        a.len() == 4,
        b.len() == 4,
        be32(a) == be32(b),
    ensures
        a == b,
{
    lemma_be32_octets(a[0] as int, a[1] as int, a[2] as int, a[3] as int);
    lemma_be32_octets(b[0] as int, b[1] as int, b[2] as int, b[3] as int);
    assert(a =~= b);
}

proof fn lemma_be32_octets(a: int, b: int, c: int, d: int)
    requires
        0 <= a < 256,
        0 <= b < 256,
        0 <= c < 256,
        0 <= d < 256,
    ensures
        ({
            let n = a * 0x100_0000 + b * 0x1_0000 + c * 0x100 + d;
            &&& n / 0x100_0000 == a
            &&& n / 0x1_0000 % 256 == b
            &&& n / 0x100 % 256 == c
            &&& n % 256 == d
        }),
{
    let n = a * 0x100_0000 + b * 0x1_0000 + c * 0x100 + d;
    assert(n / 0x1_0000 == a * 256 + b);
    assert(n / 0x100 == a * 0x1_0000 + b * 256 + c);
}

/// The sixteen octets of eight segments.
pub open spec fn segment_octets(segments: Seq<u16>) -> Seq<u8> {
    Seq::new(16, |i: int| be16_bytes(segments[i / 2])[i % 2])
}

/// Segment `i` of sixteen octets.
pub open spec fn segment(octets: Seq<u8>, i: int) -> nat {
    (octets[2 * i] * 256 + octets[2 * i + 1]) as nat
}

impl Ipv6Addr {
    /// The address `a:b:c:d:e:f:g:h`.
    pub fn new(a: u16, b: u16, c: u16, d: u16, e: u16, f: u16, g: u16, h: u16) -> (r: Ipv6Addr)
        ensures
            r@ == segment_octets(seq![a, b, c, d, e, f, g, h]),
    {
        let r = Ipv6Addr {
            octets: [
                (a / 256) as u8,
                (a % 256) as u8,
                (b / 256) as u8,
                (b % 256) as u8,
                (c / 256) as u8,
                (c % 256) as u8,
                (d / 256) as u8,
                (d % 256) as u8,
                (e / 256) as u8,
                (e % 256) as u8,
                (f / 256) as u8,
                (f % 256) as u8,
                (g / 256) as u8,
                (g % 256) as u8,
                (h / 256) as u8,
                (h % 256) as u8,
            ],
        };
        assert(r@ =~= segment_octets(seq![a, b, c, d, e, f, g, h]));
        r
    }

    /// The address `::`.
    pub fn unspecified() -> (r: Ipv6Addr)
        ensures
            r@ == Seq::new(16, |i: int| 0u8),
    {
        let r = Ipv6Addr { octets: [0u8; 16] };
        assert(r@ =~= Seq::new(16, |i: int| 0u8));
        r
    }
}

/// An IPv4 address in dotted decimal.
pub open spec fn ipv4_text(o: Seq<u8>) -> Seq<char> {
    decimal_text(o[0] as nat) + "."@ + decimal_text(o[1] as nat) + "."@ + decimal_text(o[2] as nat)
        + "."@ + decimal_text(o[3] as nat)
}

/// How many segments from `i` on are zero.
pub open spec fn zero_run(o: Seq<u8>, i: int) -> nat
    decreases 8 - i,
{
    if 0 <= i < 8 && segment(o, i) == 0 {
        1 + zero_run(o, i + 1)
    } else {
        0
    }
}

/// Whether no run of zero segments is longer than the one at `i`, and none
/// before it is as long.
pub open spec fn is_longest_run(o: Seq<u8>, i: int) -> bool {
    &&& 0 <= i < 8
    &&& forall|j: int| 0 <= j < 8 ==> #[trigger] zero_run(o, j) <= zero_run(o, i)
    &&& forall|j: int| 0 <= j < i ==> #[trigger] zero_run(o, j) < zero_run(o, i)
}

/// Where the first of the longest runs of zero segments starts.
pub open spec fn longest_run(o: Seq<u8>) -> int {
    choose|i: int| is_longest_run(o, i)
}

/// The segments from `a` up to `b` in hexadecimal, with colons between them.
pub open spec fn groups_text(o: Seq<u8>, a: int, b: int) -> Seq<char>
    decreases b - a,
{
    if a >= b {
        Seq::empty()
    } else if a + 1 == b {
        hex_text(segment(o, a))
    } else {
        hex_text(segment(o, a)) + ":"@ + groups_text(o, a + 1, b)
    }
}

/// Whether an IPv6 address is an IPv4 address in disguise (`::ffff:0:0/96`).
pub open spec fn is_mapped(o: Seq<u8>) -> bool {
    segment(o, 0) == 0 && segment(o, 1) == 0 && segment(o, 2) == 0 && segment(o, 3) == 0 && segment(
        o,
        4,
    ) == 0 && segment(o, 5) == 0xffff
}

/// An IPv6 address as RFC 5952 writes it: the first of the longest runs of two or
/// more zero segments is left out.
pub open spec fn ipv6_text(o: Seq<u8>) -> Seq<char> {
    let i = longest_run(o);
    let n = zero_run(o, i);
    if is_mapped(o) {
        "::ffff:"@ + ipv4_text(o.skip(12))
    } else if n > 1 {
        groups_text(o, 0, i) + "::"@ + groups_text(o, i + n, 8)
    } else {
        groups_text(o, 0, 8)
    }
}

/// A socket address as it is usually written.
pub open spec fn socket_text(a: SocketAddr) -> Seq<char> {
    match a {
        SocketAddr::V4(a) => ipv4_text(a.ip@) + ":"@ + decimal_text(a.port as nat),
        SocketAddr::V6(a) => {
            let scope = if a.scope_id == 0 {
                Seq::empty()
            } else {
                "%"@ + decimal_text(a.scope_id as nat)
            };
            "["@ + ipv6_text(a.ip@) + scope + "]:"@ + decimal_text(a.port as nat)
        },
    }
}

impl Ipv4Addr {
    /// Appends the address to `out` in dotted decimal.
    pub fn push_text(&self, out: &mut String)
        ensures
            final(out)@ == old(out)@ + ipv4_text(self@),
    {
        push_decimal(out, self.octets[0] as u64);
        out.append(".");
        push_decimal(out, self.octets[1] as u64);
        out.append(".");
        push_decimal(out, self.octets[2] as u64);
        out.append(".");
        push_decimal(out, self.octets[3] as u64);
        assert(out@ =~= old(out)@ + ipv4_text(self@));
    }

    /// The address in dotted decimal.
    pub fn to_text(&self) -> (s: String)
        ensures
            s@ == ipv4_text(self@),
    {
        let mut out = String::new();
        self.push_text(&mut out);
        assert(out@ =~= ipv4_text(self@));
        out
    }
}

impl Ipv6Addr {
    /// Segment `i`.
    pub fn segment(&self, i: usize) -> (n: u16)
        requires
            i < 8,
        ensures
            n == segment(self@, i as int),
    {
        self.octets[2 * i] as u16 * 256 + self.octets[2 * i + 1] as u16
    }

    fn run_at(&self, i: usize) -> (n: usize)
        requires
            i <= 8,
        ensures
            n == zero_run(self@, i as int),
            n <= 8 - i,
        decreases 8 - i,
    {
        if i < 8 && self.segment(i) == 0 {
            1 + self.run_at(i + 1)
        } else {
            0
        }
    }

    fn push_groups(&self, out: &mut String, a: usize, b: usize)
        requires
            a <= b <= 8,
        ensures
            final(out)@ == old(out)@ + groups_text(self@, a as int, b as int),
        decreases b - a,
    {
        if a < b {
            push_hex(out, self.segment(a) as u64);
            if a + 1 < b {
                out.append(":");
                self.push_groups(out, a + 1, b);
            }
        }
        assert(out@ =~= old(out)@ + groups_text(self@, a as int, b as int));
    }

    /// Appends the address to `out` as RFC 5952 writes it.
    pub fn push_text(&self, out: &mut String)
        ensures
            final(out)@ == old(out)@ + ipv6_text(self@),
    {
        if self.segment(0) == 0 && self.segment(1) == 0 && self.segment(2) == 0 && self.segment(3)
            == 0 && self.segment(4) == 0 && self.segment(5) == 0xffff {
            let o = self.octets;
            let v4 = Ipv4Addr::new(o[12], o[13], o[14], o[15]);
            assert(v4@ =~= self@.skip(12));
            out.append("::ffff:");
            v4.push_text(out);
            assert(out@ =~= old(out)@ + ipv6_text(self@));
            return;
        }
        let mut start: usize = 0;
        let mut len: usize = self.run_at(0);
        let mut i: usize = 1;
        while i < 8
            invariant
                1 <= i <= 8,
                start < i,
                len == zero_run(self@, start as int),
                start + len <= 8,
                forall|j: int| 0 <= j < i ==> #[trigger] zero_run(self@, j) <= len,
                forall|j: int| 0 <= j < start ==> #[trigger] zero_run(self@, j) < len,
            decreases 8 - i,
        {
            let n: usize = self.run_at(i);
            if n > len {
                start = i;
                len = n;
            }
            i += 1;
        }
        proof {
            assert(is_longest_run(self@, start as int));
            let other = longest_run(self@);
            assert(is_longest_run(self@, other));
            assert(zero_run(self@, other) <= zero_run(self@, start as int));
            assert(zero_run(self@, start as int) <= zero_run(self@, other));
            assert(other == start);
        }
        if len > 1 {
            self.push_groups(out, 0, start);
            out.append("::");
            self.push_groups(out, start + len, 8);
        } else {
            self.push_groups(out, 0, 8);
        }
        assert(out@ =~= old(out)@ + ipv6_text(self@));
    }

    /// The address as RFC 5952 writes it.
    pub fn to_text(&self) -> (s: String)
        ensures
            s@ == ipv6_text(self@),
    {
        let mut out = String::new();
        self.push_text(&mut out);
        assert(out@ =~= ipv6_text(self@));
        out
    }
}

/// An IP address as it is usually written.
pub open spec fn ip_text(a: IpAddr) -> Seq<char> {
    match a {
        IpAddr::V4(a) => ipv4_text(a@),
        IpAddr::V6(a) => ipv6_text(a@),
    }
}

impl IpAddr {
    /// The address as it is usually written.
    pub fn to_text(&self) -> (s: String)
        ensures
            s@ == ip_text(*self),
    {
        match self {
            IpAddr::V4(a) => a.to_text(),
            IpAddr::V6(a) => a.to_text(),
        }
    }
}

impl SocketAddr {
    /// The port.
    pub fn port(&self) -> (p: u16)
        ensures
            p == socket_port(*self),
    {
        match self {
            SocketAddr::V4(a) => a.port,
            SocketAddr::V6(a) => a.port,
        }
    }

    /// The address as it is usually written.
    pub fn to_text(&self) -> (s: String)
        ensures
            s@ == socket_text(*self),
    {
        let mut out = String::new();
        match self {
            SocketAddr::V4(a) => {
                a.ip.push_text(&mut out);
                out.append(":");
                push_decimal(&mut out, a.port as u64);
            },
            SocketAddr::V6(a) => {
                out.append("[");
                a.ip.push_text(&mut out);
                if a.scope_id != 0 {
                    out.append("%");
                    push_decimal(&mut out, a.scope_id as u64);
                }
                out.append("]:");
                push_decimal(&mut out, a.port as u64);
            },
        }
        assert(out@ =~= socket_text(*self));
        out
    }
}

/// An address is the number whose highest byte is its first octet, and is found again from
/// that number.
pub proof fn law_address_is_a_number(a: &Ipv4Addr, n: u32, back: Ipv4Addr)
    requires
        call_ensures(Ipv4Addr::to_bits, (a,), n),
        call_ensures(Ipv4Addr::from_bits, (n,), back),
    ensures
        n == a.octets[0] * 0x100_0000 + a.octets[1] * 0x1_0000 + a.octets[2] * 0x100 + a.octets[3],
        back@ == a@,
{
    assert(a@[0] == a.octets[0] && a@[1] == a.octets[1] && a@[2] == a.octets[2] && a@[3]
        == a.octets[3]);
    law_numbers_tell_addresses_apart(a@, back@);
}

/// An IPv4 address is its four octets in order, and an IPv6 address its eight segments, the
/// high byte of each first.
pub proof fn law_addresses_are_made_in_order(
    o: (u8, u8, u8, u8),
    v4: Ipv4Addr,
    s: (u16, u16, u16, u16, u16, u16, u16, u16),
    v6: Ipv6Addr,
)
    requires
        call_ensures(Ipv4Addr::new, (o.0, o.1, o.2, o.3), v4),
        call_ensures(Ipv6Addr::new, (s.0, s.1, s.2, s.3, s.4, s.5, s.6, s.7), v6),
    ensures
        v4@ == seq![o.0, o.1, o.2, o.3],
        v6@[0] * 256 + v6@[1] == s.0,
        v6@[2] * 256 + v6@[3] == s.1,
        v6@[4] * 256 + v6@[5] == s.2,
        v6@[6] * 256 + v6@[7] == s.3,
        v6@[8] * 256 + v6@[9] == s.4,
        v6@[10] * 256 + v6@[11] == s.5,
        v6@[12] * 256 + v6@[13] == s.6,
        v6@[14] * 256 + v6@[15] == s.7,
{
    let t = seq![s.0, s.1, s.2, s.3, s.4, s.5, s.6, s.7];
    assert forall|i: int| 0 <= i < 8 implies #[trigger] v6@[2 * i] * 256 + v6@[2 * i + 1] == t[i] by {
        assert((2 * i) / 2 == i && (2 * i + 1) / 2 == i);
        assert((2 * i) % 2 == 0 && (2 * i + 1) % 2 == 1);
    }
    assert(v6@[2 * 0int] * 256 + v6@[2 * 0int + 1] == t[0]);
    assert(v6@[2 * 1int] * 256 + v6@[2 * 1int + 1] == t[1]);
    assert(v6@[2 * 2int] * 256 + v6@[2 * 2int + 1] == t[2]);
    assert(v6@[2 * 3int] * 256 + v6@[2 * 3int + 1] == t[3]);
    assert(v6@[2 * 4int] * 256 + v6@[2 * 4int + 1] == t[4]);
    assert(v6@[2 * 5int] * 256 + v6@[2 * 5int + 1] == t[5]);
    assert(v6@[2 * 6int] * 256 + v6@[2 * 6int + 1] == t[6]);
    assert(v6@[2 * 7int] * 256 + v6@[2 * 7int + 1] == t[7]);
}

/// Whether digits stand for this number.
pub open spec fn reads_as(s: Seq<char>, base: int, n: int) -> bool {
    s.len() > 0 && is_numeral(s, base) && number_of(s, base) == n
}

/// An IPv4 address is written as its four octets in decimal, in order, with dots between
/// them.
pub proof fn law_ipv4_text_reads_back(a: &Ipv4Addr, s: String) -> (parts: (
    Seq<char>,
    Seq<char>,
    Seq<char>,
    Seq<char>,
))
    requires
        call_ensures(Ipv4Addr::to_text, (a,), s),
    ensures
        s@ == parts.0 + seq!['.'] + parts.1 + seq!['.'] + parts.2 + seq!['.'] + parts.3,
        reads_as(parts.0, 10, a.octets[0] as int),
        reads_as(parts.1, 10, a.octets[1] as int),
        reads_as(parts.2, 10, a.octets[2] as int),
        reads_as(parts.3, 10, a.octets[3] as int),
{
    reveal_strlit(".");
    assert("."@ =~= seq!['.']);
    assert(a@[0] == a.octets[0] && a@[1] == a.octets[1] && a@[2] == a.octets[2] && a@[3]
        == a.octets[3]);
    lemma_digits_read_back(a@[0] as nat, 10);
    lemma_digits_read_back(a@[1] as nat, 10);
    lemma_digits_read_back(a@[2] as nat, 10);
    lemma_digits_read_back(a@[3] as nat, 10);
    (
        decimal_text(a@[0] as nat),
        decimal_text(a@[1] as nat),
        decimal_text(a@[2] as nat),
        decimal_text(a@[3] as nat),
    )
}

/// The eight segments of an IPv6 address.
pub open spec fn segments_of(a: Ipv6Addr) -> Seq<int> {
    Seq::new(8, |i: int| a.octets[2 * i] * 256 + a.octets[2 * i + 1])
}

/// Whether a text is these segments in hexadecimal, in order, with a colon between each two.
pub open spec fn spells(s: Seq<char>, segments: Seq<int>) -> bool
    decreases segments.len(),
{
    if segments.len() == 0 {
        s.len() == 0
    } else if segments.len() == 1 {
        reads_as(s, 16, segments[0])
    } else {
        exists|k: int|
            0 < k < s.len() && s[k] == ':' && reads_as(#[trigger] s.take(k), 16, segments[0])
                && spells(s.skip(k + 1), segments.skip(1))
    }
}

proof fn lemma_groups_spell(a: Ipv6Addr, i: int, j: int)
    requires
        0 <= i <= j <= 8,
    ensures
        spells(groups_text(a@, i, j), segments_of(a).subrange(i, j)),
    decreases j - i,
{
    let s = groups_text(a@, i, j);
    let t = segments_of(a).subrange(i, j);
    if i < j {
        assert(a@[2 * i] == a.octets[2 * i] && a@[2 * i + 1] == a.octets[2 * i + 1]);
        assert(t[0] == segment(a@, i));
        let head = hex_text(segment(a@, i));
        lemma_digits_read_back(segment(a@, i), 16);
        if i + 1 < j {
            lemma_groups_spell(a, i + 1, j);
            reveal_strlit(":");
            let k = head.len() as int;
            assert(s == head + ":"@ + groups_text(a@, i + 1, j));
            assert(s[k] == ':');
            assert(s.take(k) =~= head);
            assert(s.skip(k + 1) =~= groups_text(a@, i + 1, j));
            assert(t.skip(1) =~= segments_of(a).subrange(i + 1, j));
        }
    }
}

/// Whether the `n` segments from `i` on are zero.
pub open spec fn zeros_at(segments: Seq<int>, i: int, n: int) -> bool {
    &&& 0 <= i
    &&& 0 <= n
    &&& i + n <= segments.len()
    &&& forall|k: int| i <= k < i + n ==> segments[k] == 0
}

proof fn lemma_zero_run(a: Ipv6Addr, i: int)
    requires
        0 <= i <= 8,
    ensures
        zeros_at(segments_of(a), i, zero_run(a@, i) as int),
        forall|n: int| #[trigger] zeros_at(segments_of(a), i, n) ==> n <= zero_run(a@, i),
    decreases 8 - i,
{
    let t = segments_of(a);
    if i < 8 {
        assert(a@[2 * i] == a.octets[2 * i] && a@[2 * i + 1] == a.octets[2 * i + 1]);
        assert(t[i] == segment(a@, i));
        lemma_zero_run(a, i + 1);
        assert forall|n: int| #[trigger] zeros_at(t, i, n) implies n <= zero_run(a@, i) by {
            if n > 0 {
                assert(t[i] == 0);
                assert(zeros_at(t, i + 1, n - 1));
            }
        }
    }
}

proof fn lemma_longest_run_exists(o: Seq<u8>, n: int) -> (i: int)
    requires
        1 <= n <= 8,
    ensures
        0 <= i < n,
        forall|j: int| 0 <= j < n ==> #[trigger] zero_run(o, j) <= zero_run(o, i),
        forall|j: int| 0 <= j < i ==> #[trigger] zero_run(o, j) < zero_run(o, i),
    decreases n,
{
    if n == 1 {
        0
    } else {
        let i = lemma_longest_run_exists(o, n - 1);
        if zero_run(o, n - 1) > zero_run(o, i) {
            n - 1
        } else {
            i
        }
    }
}

/// An IPv6 address that is no IPv4 address in disguise is written as its segments in
/// hexadecimal, in order, with colons between them. Two or more zero segments in a row
/// are left out once: those of the longest run, and of the first where several are as long.
pub proof fn law_ipv6_text_reads_back(a: &Ipv6Addr, s: String) -> (r: (
    int,
    int,
    Seq<char>,
    Seq<char>,
))
    requires
        call_ensures(Ipv6Addr::to_text, (a,), s),
        !(zeros_at(segments_of(*a), 0, 5) && segments_of(*a)[5] == 0xffff),
    ensures
        ({
            let t = segments_of(*a);
            let (i, n, left, right) = r;
            &&& zeros_at(t, i, n)
            &&& forall|j: int, m: int| #[trigger]
                zeros_at(t, j, m) ==> m <= n && (j < i ==> m < n)
            &&& n >= 2 ==> s@ == left + seq![':', ':'] + right && spells(left, t.take(i))
                && spells(right, t.skip(i + n))
            &&& n < 2 ==> spells(s@, t)
        }),
{
    let t = segments_of(*a);
    let o = a@;
    assert forall|k: int| 0 <= k < 8 implies #[trigger] t[k] == segment(o, k) by {
        assert(o[2 * k] == a.octets[2 * k] && o[2 * k + 1] == a.octets[2 * k + 1]);
    }
    assert(!is_mapped(o)) by {
        if is_mapped(o) {
            assert(t[0] == 0 && t[1] == 0 && t[2] == 0 && t[3] == 0 && t[4] == 0 && t[5] == 0xffff);
            assert(zeros_at(t, 0, 5));
        }
    }
    let first = lemma_longest_run_exists(o, 8);
    assert(is_longest_run(o, first));
    let i = longest_run(o);
    assert(is_longest_run(o, i));
    let n = zero_run(o, i) as int;
    lemma_zero_run(*a, i);
    assert forall|j: int, m: int| #[trigger] zeros_at(t, j, m) implies m <= n && (j < i ==> m
        < n) by {
        lemma_zero_run(*a, j);
        if j < 8 {
            assert(zero_run(o, j) <= zero_run(o, i));
        }
    }
    let left = groups_text(o, 0, i);
    let right = groups_text(o, i + n, 8);
    lemma_groups_spell(*a, 0, i);
    lemma_groups_spell(*a, i + n, 8);
    lemma_groups_spell(*a, 0, 8);
    assert(t.subrange(0, i) =~= t.take(i));
    assert(t.subrange(i + n, 8) =~= t.skip(i + n));
    assert(t.subrange(0, 8) =~= t);
    reveal_strlit("::");
    assert("::"@ =~= seq![':', ':']);
    (i, n, left, right)
}

/// An IPv6 address that is an IPv4 address in disguise is written as that address behind
/// its prefix.
pub proof fn law_mapped_address_shows_its_ipv4(a: &Ipv6Addr, s: String, v4: &Ipv4Addr, t: String)
    requires
        call_ensures(Ipv6Addr::to_text, (a,), s),
        zeros_at(segments_of(*a), 0, 5),
        segments_of(*a)[5] == 0xffff,
        v4@ == a@.subrange(12, 16),
        call_ensures(Ipv4Addr::to_text, (v4,), t),
    ensures
        s@ == "::ffff:"@ + t@,
{
    let o = a@;
    let g = segments_of(*a);
    assert forall|k: int| 0 <= k < 8 implies #[trigger] g[k] == segment(o, k) by {
        assert(o[2 * k] == a.octets[2 * k] && o[2 * k + 1] == a.octets[2 * k + 1]);
    }
    assert(g[0] == 0 && g[1] == 0 && g[2] == 0 && g[3] == 0 && g[4] == 0);
    assert(is_mapped(o));
    assert(o.skip(12) =~= o.subrange(12, 16));
}

/// A socket address is written as its address and its port, in brackets and with the scope,
/// where there is one, for IPv6.
pub proof fn law_socket_text_reads_back(
    a: &SocketAddr,
    s: String,
    ip: IpAddr,
    t: String,
) -> (r: (Seq<char>, Seq<char>))
    requires
        call_ensures(SocketAddr::to_text, (a,), s),
        match *a {
            SocketAddr::V4(x) => ip == IpAddr::V4(x.ip),
            SocketAddr::V6(x) => ip == IpAddr::V6(x.ip),
        },
        call_ensures(IpAddr::to_text, (&ip,), t),
    ensures
        match *a {
            SocketAddr::V4(x) => s@ == t@ + seq![':'] + r.0 && reads_as(r.0, 10, x.port as int),
            SocketAddr::V6(x) => {
                &&& reads_as(r.0, 10, x.port as int)
                &&& x.scope_id == 0 ==> s@ == seq!['['] + t@ + seq![']', ':'] + r.0
                &&& x.scope_id != 0 ==> s@ == seq!['['] + t@ + seq!['%'] + r.1 + seq![']', ':']
                    + r.0 && reads_as(r.1, 10, x.scope_id as int)
            },
        },
{
    reveal_strlit(":");
    reveal_strlit("[");
    reveal_strlit("]:");
    reveal_strlit("%");
    assert(":"@ =~= seq![':']);
    assert("["@ =~= seq!['[']);
    assert("]:"@ =~= seq![']', ':']);
    assert("%"@ =~= seq!['%']);
    let port = socket_port(*a) as nat;
    lemma_digits_read_back(port, 10);
    let scope = match *a {
        SocketAddr::V4(_) => 0nat,
        SocketAddr::V6(x) => x.scope_id as nat,
    };
    lemma_digits_read_back(scope, 10);
    let r = (decimal_text(port), decimal_text(scope));
    if let SocketAddr::V6(x) = *a {
        if x.scope_id == 0 {
            assert(s@ =~= seq!['['] + t@ + seq![']', ':'] + r.0);
        } else {
            assert(s@ =~= seq!['['] + t@ + seq!['%'] + r.1 + seq![']', ':'] + r.0);
        }
    }
    r
}

/// The port of a socket is the one that it was made with.
pub proof fn law_port_is_the_sockets(v4: SocketAddrV4, v6: SocketAddrV6, p: u16, q: u16)
    requires
        call_ensures(SocketAddr::port, (&SocketAddr::V4(v4),), p),
        call_ensures(SocketAddr::port, (&SocketAddr::V6(v6),), q),
    ensures
        p == v4.port,
        q == v6.port,
{
}

/// The unspecified addresses have no octet that is not zero.
pub proof fn law_unspecified_is_all_zero(v4: Ipv4Addr, v6: Ipv6Addr, i: int)
    requires
        call_ensures(Ipv4Addr::unspecified, (), v4),
        call_ensures(Ipv6Addr::unspecified, (), v6),
    ensures
        0 <= i < 4 ==> v4@[i] == 0,
        0 <= i < 16 ==> v6@[i] == 0,
{
}

/// A segment is two octets, the high one first.
pub proof fn law_segment_is_two_octets(a: &Ipv6Addr, i: usize, n: u16)
    requires
        i < 8,
        call_ensures(Ipv6Addr::segment, (a, i), n),
    ensures
        a@[2 * i] * 256 + a@[2 * i + 1] == n,
{
}

} // verus!
