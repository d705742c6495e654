//! A DNS server that gives every name an address of its own from a private pool,
//! so that a packet to such an address tells the name it was meant for.
use crossbeam_queue::SegQueue;
use hickory_proto::op::{Message, MessageType, Query, ResponseCode};
use hickory_proto::rr::rdata::A;
use hickory_proto::rr::{Name, RData, Record};
use vstd::arithmetic::power2::{lemma2_to64, lemma_pow2_adds, lemma_pow2_pos, pow2};
use vstd::prelude::*;

use crate::address::{be32, law_numbers_tell_addresses_apart, Ipv4Addr};

verus! {

/// How long a client may keep an answer, in seconds.
pub const DNS_RESPONSE_TTL: u32 = 5;

/// How long a name keeps an address that is not used, in seconds: a week longer.
pub const CACHE_TTL_SECS: u64 = 5 + 7 * 24 * 60 * 60;

/// The number of the record type that asks for an IPv4 address.
pub const RECORD_TYPE_A: u16 = 1;

/// The response code of an answer.
pub const CODE_NO_ERROR: u8 = 0;

/// The response code of a refusal.
pub const CODE_REFUSED: u8 = 5;

/// An IPv4 network: an address in it, and the length of its prefix.
#[derive(Clone, Copy, Debug, PartialEq, Eq)]
pub struct Ipv4Net {
    pub addr: Ipv4Addr,
    pub prefix_len: u8,
}

impl Ipv4Net {
    /// The prefix is no longer than an address.
    pub open spec fn wf(&self) -> bool {
        self.prefix_len <= 32
    }

    /// How many addresses there are in the network.
    pub open spec fn size(&self) -> nat {
        pow2((32 - self.prefix_len) as nat)
    }

    /// The first address of the network, as a number.
    pub open spec fn first(&self) -> int {
        be32(self.addr@) - be32(self.addr@) % (self.size() as int)
    }

    /// How many addresses a host may have: all, or all but the first and the last
    /// where there are more than two.
    pub open spec fn hosts(&self) -> int {
        if self.prefix_len < 31 {
            self.size() - 2
        } else {
            self.size() as int
        }
    }

    /// Whether the network holds the address that is `n` as a number.
    pub open spec fn holds(&self, n: int) -> bool {
        self.first() <= n < self.first() + self.size()
    }

    /// `Ipv4Net::network`: the first address of the network.
    #[verifier::external_body]
    fn network(&self) -> (n: u32)
        requires
            self.wf(),
        ensures
            n == self.first(),
    {
        let net = ipnet::Ipv4Net::new(self.addr.octets.into(), self.prefix_len).unwrap();
        net.network().into()
    }

    /// `Ipv4Net::hosts` and the number of addresses that it runs over.
    #[verifier::external_body]
    fn host_count(&self) -> (n: u32)
        requires
            self.wf(),
        ensures
            n == self.hosts(),
    {
        let net = ipnet::Ipv4Net::new(self.addr.octets.into(), self.prefix_len).unwrap();
        net.hosts().count() as u32
    }

    /// `Ipv4Net::contains`: whether an address is in the network.
    #[verifier::external_body]
    pub(crate) fn contains(&self, ip: Ipv4Addr) -> (b: bool)
        requires
            self.wf(),
        ensures
            b == self.holds(be32(ip@)),
    {
        let net = ipnet::Ipv4Net::new(self.addr.octets.into(), self.prefix_len).unwrap();
        let ip = ipnet::Ipv4Net::new(ip.octets.into(), 32).unwrap();
        net.contains(&ip.addr())
    }
}

/// A network ends within the address space.
proof fn lemma_network_fits(net: Ipv4Net)
    requires
        net.wf(),
    ensures
        net.size() >= 1,
        0 <= net.first(),
        net.first() + net.size() <= 0x1_0000_0000,
        net.prefix_len < 31 ==> net.size() >= 4,
        net.prefix_len >= 31 ==> net.size() <= 2,
{
    let k = (32 - net.prefix_len) as nat;
    let a = be32(net.addr@);
    let size = net.size() as int;
    let blocks = pow2((32 - k) as nat) as int;
    lemma2_to64();
    lemma_pow2_pos(k);
    lemma_pow2_adds(k, (32 - k) as nat);
    assert(size * blocks == 0x1_0000_0000);
    if k >= 2 {
        lemma_pow2_adds(2, (k - 2) as nat);
        lemma_pow2_pos((k - 2) as nat);
        assert(size >= 4) by (nonlinear_arith)
            requires
                size == 4 * pow2((k - 2) as nat),
                pow2((k - 2) as nat) >= 1,
        ;
    }
    let q = a / size;
    assert(a == q * size + a % size && 0 <= a % size < size) by (nonlinear_arith)
        requires
            size >= 1,
            q == a / size,
    ;
    assert(q < blocks) by (nonlinear_arith)
        requires
            q * size <= a,
            a < size * blocks,
            size >= 1,
    ;
    assert(q * size + size <= size * blocks) by (nonlinear_arith)
        requires
            q + 1 <= blocks,
            size >= 1,
    ;
    assert(0 <= q * size) by (nonlinear_arith)
        requires
            q >= 0,
            size >= 1,
    ;
    assert(q >= 0) by (nonlinear_arith)
        requires
            a >= 0,
            size >= 1,
            q == a / size,
    ;
}

/// The addresses in a queue, in the order in which they leave it.
pub uninterp spec fn ip_queue_seq(q: SegQueue<u32>) -> Seq<u32>;

/// `SegQueue::new`: an empty queue.
#[verifier::external_body]
fn ip_queue_new() -> (q: SegQueue<u32>)
    ensures
        ip_queue_seq(q) == Seq::<u32>::empty(),
{
    SegQueue::new()
}

/// `SegQueue::push`: appends to the tail.
#[verifier::external_body]
fn ip_queue_push(q: &mut SegQueue<u32>, ip: u32)
    ensures
        ip_queue_seq(*final(q)) == ip_queue_seq(*old(q)).push(ip),
{
    q.push(ip)
}

/// `SegQueue::pop`: takes the head, if there is one.
#[verifier::external_body]
fn ip_queue_pop(q: &mut SegQueue<u32>) -> (ip: Option<u32>)
    ensures
        match ip {
            Some(x) => ip_queue_seq(*old(q)).len() > 0 && x == ip_queue_seq(*old(q))[0]
                && ip_queue_seq(*final(q)) == ip_queue_seq(*old(q)).drop_first(),
            None => ip_queue_seq(*old(q)).len() == 0 && ip_queue_seq(*final(q)) == ip_queue_seq(
                *old(q),
            ),
        },
{
    q.pop()
}

/// The addresses that names are given.
pub struct FakeDns {
    ip_net: Ipv4Net,
    recycled_ips: SegQueue<u32>,
    cursor: u32,
    max_hosts: u32,
}

impl FakeDns {
    /// The pool.
    pub closed spec fn net(&self) -> Ipv4Net {
        self.ip_net
    }

    /// Addresses that names have given back, the one to be used next first.
    pub closed spec fn recycled(&self) -> Seq<u32> {
        ip_queue_seq(self.recycled_ips)
    }

    /// How many hosts are past, counted from the first host address. Two are kept
    /// from the start.
    pub closed spec fn used(&self) -> int {
        self.cursor as int
    }

    /// The lowest address that is ever given out.
    pub open spec fn lowest(&self) -> int {
        self.net().first() + 3
    }

    /// The address that comes next when none was given back.
    pub open spec fn next_new(&self) -> int {
        self.net().first() + 1 + self.used()
    }

    /// Whether addresses that were never given out are left.
    pub open spec fn has_new(&self) -> bool {
        self.used() < self.net().hosts()
    }

    /// Whether an address was given out and not given back.
    pub open spec fn in_use(&self, ip: int) -> bool {
        &&& self.lowest() <= ip < self.next_new()
        &&& forall|i: int| 0 <= i < self.recycled().len() ==> self.recycled()[i] != ip
    }

    /// The addresses that were given back were given out, and none was given back
    /// twice.
    pub open spec fn sound(&self) -> bool {
        &&& self.used() >= 2
        &&& forall|i: int|
            0 <= i < self.recycled().len() ==> self.lowest() <= #[trigger] self.recycled()[i]
                < self.next_new()
        &&& forall|i: int, j: int|
            0 <= i < j < self.recycled().len() ==> self.recycled()[i] != self.recycled()[j]
    }

    /// The pool is a network and the count stays within its hosts.
    pub closed spec fn wf(&self) -> bool {
        &&& self.ip_net.wf()
        &&& self.max_hosts == self.ip_net.hosts()
        &&& self.cursor >= 2
        &&& self.cursor == 2 || self.cursor <= self.max_hosts
    }

    /// A pool of which nothing was given out.
    pub fn new(ip_net: Ipv4Net) -> (r: FakeDns)
        requires
            ip_net.wf(),
        ensures
            r.wf(),
            r.sound(),
            r.net() == ip_net,
            r.recycled() == Seq::<u32>::empty(),
            r.used() == 2,
            r.next_new() == r.lowest(),
    {
        FakeDns {
            ip_net,
            recycled_ips: ip_queue_new(),
            cursor: 2,
            max_hosts: ip_net.host_count(),
        }
    }

    /// How many names can have an address at once.
    pub fn max_hosts(&self) -> (n: u32)
        requires
            self.wf(),
        ensures
            n == self.net().hosts(),
    {
        self.max_hosts
    }

    /// Gives out an address: one that was given back, or else the next new one.
    /// `None` once all are out.
    pub fn allocate_unique_ip(&mut self) -> (r: Option<Ipv4Addr>)
        requires
            old(self).wf(),
        ensures
            final(self).wf(),
            allocates(*old(self), r, *final(self)),
            // An address that is given out was not in use, and is a host of the pool;
            // the others that are in use stay so.
            old(self).sound() ==> {
                &&& final(self).sound()
                &&& forall|x: int| #[trigger] old(self).in_use(x) ==> final(self).in_use(x)
                &&& r matches Some(ip) ==> !old(self).in_use(be32(ip@)) && final(self).in_use(
                    be32(ip@),
                ) && old(self).net().first() < be32(ip@) < old(self).net().first() + old(
                    self,
                ).net().size() - 1
            },
    {
        proof {
            lemma_network_fits(self.ip_net);
        }
        let ghost before = self.recycled();
        if let Some(ip) = ip_queue_pop(&mut self.recycled_ips) {
            proof {
                if old(self).sound() {
                    assert forall|i: int| 0 <= i < self.recycled().len() implies self.recycled()[i]
                        == before[i + 1] by {}
                    assert(ip == before[0]);
                }
            }
            return Some(Ipv4Addr::from_bits(ip));
        }
        if self.cursor >= self.max_hosts {
            return None;
        }
        let ip: u32 = self.ip_net.network() + 1 + self.cursor;
        self.cursor += 1;
        Some(Ipv4Addr::from_bits(ip))
    }

    /// Takes an address back that its name no longer needs.
    pub fn recycle(&mut self, ip: Ipv4Addr)
        requires
            old(self).wf(),
        ensures
            final(self).wf(),
            recycles(*old(self), ip, *final(self)),
            old(self).sound() && old(self).in_use(be32(ip@)) ==> final(self).sound()
                && !final(self).in_use(be32(ip@)),
            forall|x: int| #[trigger]
                old(self).in_use(x) && x != be32(ip@) ==> final(self).in_use(x),
    {
        let n: u32 = ip.to_bits();
        ip_queue_push(&mut self.recycled_ips, n);
        proof {
            let last = old(self).recycled().len() as int;
            assert(self.recycled()[last] == n);
        }
    }

    /// The address for a name: the one that it has, or else one that is given out
    /// now, which is to be kept for the name.
    pub fn resolve(&mut self, known: Option<Ipv4Addr>) -> (r: Option<(Ipv4Addr, bool)>)
        requires
            old(self).wf(),
        ensures
            final(self).wf(),
            old(self).sound() ==> final(self).sound() && forall|x: int| #[trigger]
                old(self).in_use(x) ==> final(self).in_use(x),
            match known {
                Some(ip) => r == Some((ip, false)) && *final(self) == *old(self),
                None => match r {
                    Some((ip, fresh)) => {
                        &&& fresh
                        &&& allocates(*old(self), Some(ip), *final(self))
                        &&& old(self).sound() ==> !old(self).in_use(be32(ip@))
                        &&& old(self).sound() ==> final(self).in_use(be32(ip@))
                    },
                    None => allocates(*old(self), None, *final(self)),
                },
            },
    {
        match known {
            Some(ip) => Some((ip, false)),
            None => match self.allocate_unique_ip() {
                Some(ip) => Some((ip, true)),
                None => None,
            },
        }
    }
}

/// What giving out an address does to the pool: one that was given back goes first,
/// or else the next new one. None is given out once all are out.
pub open spec fn allocates(before: FakeDns, r: Option<Ipv4Addr>, after: FakeDns) -> bool {
    &&& after.net() == before.net()
    &&& if before.recycled().len() > 0 {
        &&& r matches Some(ip) && be32(ip@) == before.recycled()[0]
        &&& after.recycled() == before.recycled().drop_first()
        &&& after.used() == before.used()
    } else {
        &&& after.recycled() == before.recycled()
        &&& match r {
            Some(ip) => before.has_new() && be32(ip@) == before.next_new() && after.used()
                == before.used() + 1,
            None => !before.has_new() && after.used() == before.used(),
        }
    }
}

/// What taking an address back does to the pool.
pub open spec fn recycles(before: FakeDns, ip: Ipv4Addr, after: FakeDns) -> bool {
    &&& after.net() == before.net()
    &&& after.used() == before.used()
    &&& after.recycled() == before.recycled().push(be32(ip@) as u32)
}

/// What is done with a pool.
pub enum PoolOp {
    /// An address is asked for, and this one given out.
    Allocate(Option<Ipv4Addr>),
    /// An address is given back.
    Recycle(Ipv4Addr),
}

/// A pool from its beginning: `pools` is the pool before each operation, and at
/// last. Only an address that is in use is given back.
pub open spec fn is_pool_run(pools: Seq<FakeDns>, ops: Seq<PoolOp>) -> bool {
    &&& pools.len() == ops.len() + 1
    &&& pools[0].recycled().len() == 0
    &&& pools[0].used() == 2
    &&& forall|i: int|
        0 <= i < ops.len() ==> match #[trigger] ops[i] {
            PoolOp::Allocate(r) => allocates(pools[i], r, pools[i + 1]),
            PoolOp::Recycle(ip) => pools[i].in_use(be32(ip@)) && recycles(
                pools[i],
                ip,
                pools[i + 1],
            ),
        }
}

proof fn lemma_pool_step(before: FakeDns, op: PoolOp, after: FakeDns)
    requires
        before.sound(),
        match op {
            PoolOp::Allocate(r) => allocates(before, r, after),
            PoolOp::Recycle(ip) => before.in_use(be32(ip@)) && recycles(before, ip, after),
        },
    ensures
        after.sound(),
        op matches PoolOp::Allocate(Some(ip)) ==> !before.in_use(be32(ip@)) && after.in_use(
            be32(ip@),
        ),
        forall|x: int| #[trigger]
            before.in_use(x) && (op matches PoolOp::Recycle(ip) ==> be32(ip@) != x)
                ==> after.in_use(x),
{
    match op {
        PoolOp::Allocate(_) => {
            if before.recycled().len() > 0 {
                assert forall|i: int| 0 <= i < after.recycled().len() implies after.recycled()[i]
                    == before.recycled()[i + 1] by {}
            }
        },
        PoolOp::Recycle(ip) => {
            let last = before.recycled().len() as int;
            assert(after.recycled()[last] == be32(ip@));
            assert forall|i: int| 0 <= i < last implies after.recycled()[i] == before.recycled()[i]
                by {}
        },
    }
}

/// In every state of a pool, the addresses that were given back were given out, and
/// none was given back twice.
pub proof fn law_pool_stays_sound(pools: Seq<FakeDns>, ops: Seq<PoolOp>, n: int)
    requires
        is_pool_run(pools, ops),
        0 <= n <= ops.len(),
    ensures
        pools[n].sound(),
    decreases n,
{
    if n > 0 {
        law_pool_stays_sound(pools, ops, n - 1);
        lemma_pool_step(pools[n - 1], ops[n - 1], pools[n]);
    }
}

proof fn lemma_address_stays_in_use(
    pools: Seq<FakeDns>,
    ops: Seq<PoolOp>,
    i: int,
    n: int,
    ip: Ipv4Addr,
)
    requires
        is_pool_run(pools, ops),
        0 <= i < n <= ops.len(),
        ops[i] == PoolOp::Allocate(Some(ip)),
        forall|k: int| i < k < n ==> !(#[trigger] ops[k] matches PoolOp::Recycle(c) && c@ == ip@),
    ensures
        pools[n].in_use(be32(ip@)),
    decreases n,
{
    law_pool_stays_sound(pools, ops, n - 1);
    lemma_pool_step(pools[n - 1], ops[n - 1], pools[n]);
    if n - 1 > i {
        lemma_address_stays_in_use(pools, ops, i, n - 1, ip);
        if let PoolOp::Recycle(c) = ops[n - 1] {
            if be32(c@) == be32(ip@) {
                law_numbers_tell_addresses_apart(c@, ip@);
            }
        }
    }
}

/// No two names share an address: whatever a pool gives out and takes back, an
/// address that was given out is not given out again before it was taken back.
pub proof fn law_addresses_are_not_shared(
    pools: Seq<FakeDns>,
    ops: Seq<PoolOp>,
    i: int,
    j: int,
    held: Ipv4Addr,
    given: Ipv4Addr,
)
    requires
        is_pool_run(pools, ops),
        0 <= i < j < ops.len(),
        ops[i] == PoolOp::Allocate(Some(held)),
        ops[j] == PoolOp::Allocate(Some(given)),
        forall|k: int| i < k < j ==> !(#[trigger] ops[k] matches PoolOp::Recycle(c) && c@ == held@),
    ensures
        held@ != given@,
{
    lemma_address_stays_in_use(pools, ops, i, j, held);
    law_pool_stays_sound(pools, ops, j);
    lemma_pool_step(pools[j], ops[j], pools[j + 1]);
}

/// A DNS message of `hickory-proto`.
#[verifier::external_type_specification]
#[verifier::external_body]
pub struct ExMessage(Message);

/// A question of a DNS message.
#[verifier::external_type_specification]
#[verifier::external_body]
pub struct ExQuery(Query);

/// A domain name of a DNS message.
#[verifier::external_type_specification]
#[verifier::external_body]
pub struct ExName(Name);

/// The message that `hickory-proto` reads from bytes, where it reads one.
pub uninterp spec fn dns_message(bytes: Seq<u8>) -> Option<Message>;

/// The questions of a message, in order.
pub uninterp spec fn dns_queries(message: Message) -> Seq<Query>;

/// The name that a question asks for.
pub uninterp spec fn dns_query_name(query: Query) -> Name;

/// The number of the record type that a question asks for.
pub uninterp spec fn dns_query_type(query: Query) -> u16;

/// The name with its ASCII letters in lower case.
pub uninterp spec fn dns_lowercase(name: Name) -> Name;

/// The name as ASCII text.
pub uninterp spec fn dns_ascii(name: Name) -> Seq<char>;

/// The name as text for people.
pub uninterp spec fn dns_utf8(name: Name) -> Seq<char>;

/// The message marked as a response, or as a query.
pub uninterp spec fn dns_marked(message: Message, response: bool) -> Message;

/// The message with this response code.
pub uninterp spec fn dns_coded(message: Message, code: u8) -> Message;

/// The message with one more answer: the name has this IPv4 address, for that many
/// seconds.
pub uninterp spec fn dns_answered(message: Message, name: Name, ttl: u32, ip: Seq<u8>) -> Message;

/// The bytes of a message, where it can be written.
pub uninterp spec fn dns_bytes(message: Message) -> Option<Seq<u8>>;

/// `Message::from_vec`: the message that the bytes are, if they are one. Which it is
/// is left to the name.
#[verifier::external_body]
fn message_from_vec(bytes: &[u8]) -> (r: Option<Message>)
    ensures
        r == dns_message(bytes@),
{
    Message::from_vec(bytes).ok()
}

/// `Message::queries`: the questions of the message.
#[verifier::external_body]
fn message_queries(message: &Message) -> (r: &[Query])
    ensures
        r@ == dns_queries(*message),
{
    message.queries()
}

/// `Query::name`: the name that the question asks for, as a copy.
#[verifier::external_body]
fn query_name(query: &Query) -> (r: Name)
    ensures
        r == dns_query_name(*query),
{
    query.name().clone()
}

/// `Query::query_type`: the type of the records that the question asks for, as its
/// number.
#[verifier::external_body]
fn query_type(query: &Query) -> (n: u16)
    ensures
        n == dns_query_type(*query),
{
    query.query_type().into()
}

/// `Name::to_lowercase`: the name with its ASCII letters in lower case.
#[verifier::external_body]
fn name_lowercase(name: &Name) -> (r: Name)
    ensures
        r == dns_lowercase(*name),
{
    name.to_lowercase()
}

/// `Name::to_ascii`: the name as ASCII text.
#[verifier::external_body]
fn name_ascii(name: &Name) -> (s: String)
    ensures
        s@ == dns_ascii(*name),
{
    name.to_ascii()
}

/// `Name::to_utf8`: the name as text for people.
#[verifier::external_body]
fn name_utf8(name: &Name) -> (s: String)
    ensures
        s@ == dns_utf8(*name),
{
    name.to_utf8()
}

/// `Message::set_message_type`: marks the message as a response, or as a query.
#[verifier::external_body]
fn message_mark(message: &mut Message, response: bool)
    ensures
        *final(message) == dns_marked(*old(message), response),
{
    let message_type = match response {
        true => MessageType::Response,
        false => MessageType::Query,
    };
    message.set_message_type(message_type);
}

/// `Message::set_response_code`: sets the response code to the one that has this
/// number.
#[verifier::external_body]
fn message_set_code(message: &mut Message, code: u8)
    ensures
        *final(message) == dns_coded(*old(message), code),
{
    message.set_response_code(ResponseCode::from(0, code));
}

/// `Message::add_answer` on the address record of a name: appends it to the answers.
#[verifier::external_body]
fn message_add_address(message: &mut Message, name: Name, ttl: u32, ip: Ipv4Addr)
    ensures
        *final(message) == dns_answered(*old(message), name, ttl, ip@),
{
    message.add_answer(Record::from_rdata(name, ttl, RData::A(A(ip.octets.into()))));
}

/// `Message::to_vec`: the bytes of the message, where it can be written. What they
/// are is left to the name.
#[verifier::external_body]
fn message_to_vec(message: &Message) -> (r: Option<Vec<u8>>)
    ensures
        match r {
            Some(v) => dns_bytes(*message) == Some(v@),
            None => dns_bytes(*message) is None,
        },
{
    message.to_vec().ok()
}

/// The first question of a message, if it asks anything.
pub open spec fn first_question(message: Option<Message>) -> Option<Query> {
    match message {
        Some(m) => if dns_queries(m).len() > 0 {
            Some(dns_queries(m)[0])
        } else {
            None
        },
        None => None,
    }
}

/// The message turned into a response with this code.
pub open spec fn dns_status(message: Message, code: u8) -> Message {
    dns_coded(dns_marked(message, true), code)
}

/// The message turned into a response that gives the name of a question an address.
pub open spec fn dns_answer(message: Message, question: Query, ip: Seq<u8>) -> Message {
    dns_answered(
        dns_status(message, CODE_NO_ERROR),
        dns_query_name(question),
        DNS_RESPONSE_TTL,
        ip,
    )
}

/// The first question of a DNS query: the name in a form that names the same
/// however it is spelled, the name as it was asked for, and the record type.
#[derive(Clone, Debug, PartialEq, Eq)]
pub struct DnsQuestion {
    pub key: String,
    pub name: String,
    pub query_type: u16,
}

impl DnsQuestion {
    /// Whether this is what a question asks.
    pub open spec fn tells(self, question: Query) -> bool {
        &&& self.key@ == dns_ascii(dns_lowercase(dns_query_name(question)))
        &&& self.name@ == dns_utf8(dns_query_name(question))
        &&& self.query_type == dns_query_type(question)
    }
}

/// What a query asks of the server.
#[derive(Clone, Debug, PartialEq, Eq)]
pub enum DnsPlan {
    /// Nothing that it could answer.
    Ignore,
    /// Something that it refuses.
    Refuse,
    /// The address of this name.
    Answer(DnsQuestion),
}

/// What a query asks of the server, given its first question, if it has one: only
/// the address of a name is answered.
pub fn plan_query(question: Option<DnsQuestion>) -> (r: DnsPlan)
    ensures
        r == match question {
            Some(q) => if q.query_type == RECORD_TYPE_A {
                DnsPlan::Answer(q)
            } else {
                DnsPlan::Refuse
            },
            None => DnsPlan::Ignore,
        },
{
    match question {
        Some(q) => {
            if q.query_type != RECORD_TYPE_A {
                return DnsPlan::Refuse;
            }
            DnsPlan::Answer(q)
        },
        None => DnsPlan::Ignore,
    }
}

/// What a query asks of the server. What is no query asks nothing.
pub fn read_query(query: &[u8]) -> (r: DnsPlan)
    ensures
        match first_question(dns_message(query@)) {
            Some(question) => if dns_query_type(question) == RECORD_TYPE_A {
                r matches DnsPlan::Answer(q) && q.tells(question)
            } else {
                r is Refuse
            },
            None => r is Ignore,
        },
{
    let message = match message_from_vec(query) {
        Some(message) => message,
        None => return plan_query(None),
    };
    let queries = message_queries(&message);
    if queries.len() == 0 {
        return plan_query(None);
    }
    let question = &queries[0];
    let name = query_name(question);
    plan_query(
        Some(
            DnsQuestion {
                key: name_ascii(&name_lowercase(&name)),
                name: name_utf8(&name),
                query_type: query_type(question),
            },
        ),
    )
}

/// What the server sends back, and what it has given out for it.
pub struct DnsReply {
    /// The bytes of the response, if there is one.
    pub response: Option<Vec<u8>>,
    /// An address that was given out now and is to be kept for the name.
    pub mapped: Option<Ipv4Addr>,
}

impl DnsReply {
    /// Whether the response is this message.
    pub open spec fn sends(self, message: Message) -> bool {
        match dns_bytes(message) {
            Some(bytes) => self.response matches Some(v) && v@ == bytes,
            None => self.response is None,
        }
    }
}

impl FakeDns {
    /// Answers a query, given the address that the name it asks for has already, if
    /// any. Only the address of a name is answered; with the pool exhausted there is
    /// no response, nor to what is no query.
    pub fn handle_dns_query(&mut self, query: &[u8], known: Option<Ipv4Addr>) -> (r: DnsReply)
        requires
            old(self).wf(),
        ensures
            final(self).wf(),
            old(self).sound() ==> final(self).sound() && forall|x: int| #[trigger]
                old(self).in_use(x) ==> final(self).in_use(x),
            match first_question(dns_message(query@)) {
                None => r.response is None && r.mapped is None && *final(self) == *old(self),
                Some(question) => {
                    let message = dns_message(query@)->0;
                    if dns_query_type(question) != RECORD_TYPE_A {
                        &&& r.sends(dns_status(message, CODE_REFUSED))
                        &&& r.mapped is None
                        &&& *final(self) == *old(self)
                    } else {
                        match known {
                            Some(ip) => {
                                &&& r.sends(dns_answer(message, question, ip@))
                                &&& r.mapped is None
                                &&& *final(self) == *old(self)
                            },
                            None => {
                                &&& allocates(*old(self), r.mapped, *final(self))
                                &&& match r.mapped {
                                    Some(ip) => {
                                        &&& r.sends(dns_answer(message, question, ip@))
                                        &&& old(self).sound() ==> !old(self).in_use(be32(ip@))
                                            && final(self).in_use(be32(ip@))
                                    },
                                    None => r.response is None,
                                }
                            },
                        }
                    }
                },
            },
    {
        let mut message = match message_from_vec(query) {
            Some(message) => message,
            None => return DnsReply { response: None, mapped: None },
        };
        let queries = message_queries(&message);
        if queries.len() == 0 {
            return DnsReply { response: None, mapped: None };
        }
        let name = query_name(&queries[0]);
        let record_type: u16 = query_type(&queries[0]);
        message_mark(&mut message, true);
        if record_type != RECORD_TYPE_A {
            message_set_code(&mut message, CODE_REFUSED);
            return DnsReply { response: message_to_vec(&message), mapped: None };
        }
        let (ip, fresh) = match self.resolve(known) {
            Some(given) => given,
            None => return DnsReply { response: None, mapped: None },
        };
        message_set_code(&mut message, CODE_NO_ERROR);
        message_add_address(&mut message, name, DNS_RESPONSE_TTL, ip);
        DnsReply {
            response: message_to_vec(&message),
            mapped: if fresh {
                Some(ip)
            } else {
                None
            },
        }
    }
}

/// A new pool gives out the third address behind the network's own first; the two between
/// them are kept. It has one where it has more than two hosts.
pub proof fn law_first_address_of_a_pool(
    net: Ipv4Net,
    made: FakeDns,
    pool: &mut FakeDns,
    r: Option<Ipv4Addr>,
)
    requires
        net.wf(),
        call_ensures(FakeDns::new, (net,), made),
        *old(pool) == made,
        call_ensures(FakeDns::allocate_unique_ip, (pool,), r),
    ensures
        r is Some <==> net.prefix_len <= 29,
        r matches Some(ip) ==> {
            let n = ip@[0] * 0x100_0000 + ip@[1] * 0x1_0000 + ip@[2] * 0x100 + ip@[3];
            &&& n % (pow2((32 - net.prefix_len) as nat) as int) == 3
            &&& n - 3 <= net.addr@[0] * 0x100_0000 + net.addr@[1] * 0x1_0000 + net.addr@[2] * 0x100
                + net.addr@[3] < n - 3 + pow2((32 - net.prefix_len) as nat)
        },
{
    lemma_network_fits(net);
    let k = (32 - net.prefix_len) as nat;
    let size = pow2(k) as int;
    let a = be32(net.addr@);
    lemma2_to64();
    if k >= 3 {
        lemma_pow2_adds(3, (k - 3) as nat);
        lemma_pow2_pos((k - 3) as nat);
        assert(size >= 8) by (nonlinear_arith)
            requires
                size == 8 * pow2((k - 3) as nat),
                pow2((k - 3) as nat) >= 1,
        ;
        assert((a - a % size + 3) % size == 3) by (nonlinear_arith)
            requires
                size >= 8,
                a >= 0,
        {
            vstd::arithmetic::div_mod::lemma_fundamental_div_mod(a, size);
            vstd::arithmetic::div_mod::lemma_fundamental_div_mod_converse(
                a - a % size + 3,
                size,
                a / size,
                3,
            );
        }
        assert(0 <= a % size < size) by (nonlinear_arith)
            requires
                size >= 8,
        ;
    }
}

/// While nothing is given back, addresses are given out one after the other.
pub proof fn law_new_addresses_follow_each_other(
    pool: &mut FakeDns,
    first: Ipv4Addr,
    later: &mut FakeDns,
    second: Option<Ipv4Addr>,
)
    requires
        old(pool).wf(),
        old(pool).recycled().len() == 0,
        call_ensures(FakeDns::allocate_unique_ip, (pool,), Some(first)),
        *old(later) == *final(pool),
        call_ensures(FakeDns::allocate_unique_ip, (later,), second),
    ensures
        second matches Some(ip) ==> be32(ip@) == be32(first@) + 1,
{
}

/// A pool says that it is exhausted only where every host address from the third on is
/// in use.
pub proof fn law_exhausted_pool_has_given_out_all(
    pool: &mut FakeDns,
    r: Option<Ipv4Addr>,
    ip: int,
)
    requires
        old(pool).wf(),
        call_ensures(FakeDns::allocate_unique_ip, (pool,), r),
        r is None,
        old(pool).net().prefix_len <= 29,
        old(pool).net().first() + 3 <= ip <= old(pool).net().first() + pow2(
            (32 - old(pool).net().prefix_len) as nat,
        ) - 2,
    ensures
        old(pool).in_use(ip),
{
}

/// An address that is given back is given out again once those that were given back before
/// it have been: at once where there are none.
pub proof fn law_address_given_back_is_given_out(
    pool: &mut FakeDns,
    back: Ipv4Addr,
    later: &mut FakeDns,
    r: Option<Ipv4Addr>,
)
    requires
        old(pool).wf(),
        call_ensures(FakeDns::recycle, (pool, back), ()),
        *old(later) == *final(pool),
        call_ensures(FakeDns::allocate_unique_ip, (later,), r),
    ensures
        old(pool).recycled().len() == 0 ==> (r matches Some(ip) && ip@ == back@),
        old(pool).recycled().len() > 0 ==> (r matches Some(ip) && be32(ip@) == old(
            pool).recycled()[0] && final(later).recycled().last() == be32(back@)),
{
    if old(pool).recycled().len() == 0 {
        if let Some(ip) = r {
            law_numbers_tell_addresses_apart(ip@, back@);
        }
    }
}

/// A name that has an address keeps it, and costs the pool nothing; another one is given
/// what the pool gives out, and that is to be kept.
pub proof fn law_name_keeps_its_address(
    pool: &mut FakeDns,
    known: Option<Ipv4Addr>,
    r: Option<(Ipv4Addr, bool)>,
    other: &mut FakeDns,
    given: Option<Ipv4Addr>,
)
    requires
        old(pool).wf(),
        call_ensures(FakeDns::resolve, (pool, known), r),
        *old(other) == *old(pool),
        call_ensures(FakeDns::allocate_unique_ip, (other,), given),
    ensures
        known matches Some(ip) ==> r == Some((ip, false)) && *final(pool) == *old(pool),
        known is None ==> (r is Some <==> given is Some),
        known is None ==> (r matches Some((ip, fresh)) ==> fresh && (given matches Some(x) && x@
            == ip@)),
{
    if known is None {
        if let Some((ip, _)) = r {
            if let Some(x) = given {
                law_numbers_tell_addresses_apart(x@, ip@);
            }
        }
    }
}

/// Of the questions, only those for records of type 1 are answered, and as they were
/// asked; others are refused, and no question is ignored.
pub proof fn law_only_addresses_are_answered(question: Option<DnsQuestion>, r: DnsPlan)
    requires
        call_ensures(plan_query, (question,), r),
    ensures
        r is Ignore <==> question is None,
        question matches Some(q) ==> (r is Refuse <==> q.query_type != 1),
        r matches DnsPlan::Answer(q) ==> question == Some(q),
{
}

/// What a query asks is what its first question asks: nothing where it has none, the
/// address of the name where that is what the question is for.
pub proof fn law_first_question_is_read(query: &[u8], r: DnsPlan)
    requires
        call_ensures(read_query, (query,), r),
    ensures
        r is Ignore <==> (dns_message(query@) matches Some(m) ==> dns_queries(m).len() == 0),
        dns_message(query@) matches Some(m) ==> (dns_queries(m).len() > 0 ==> {
            let question = dns_queries(m)[0];
            &&& r is Refuse <==> dns_query_type(question) != 1
            &&& r is Answer <==> dns_query_type(question) == 1
            &&& r matches DnsPlan::Answer(q) ==> q.name@ == dns_utf8(dns_query_name(question))
                && q.key@ == dns_ascii(dns_lowercase(dns_query_name(question))) && q.query_type == 1
        }),
{
}

/// A name's address is answered for five seconds, without an error; any other question is
/// answered with code 5 and gives nothing out. Where nothing is asked, or the pool has no
/// address for a name without one, there is no response.
pub proof fn law_query_is_answered(
    pool: &mut FakeDns,
    query: &[u8],
    known: Option<Ipv4Addr>,
    r: DnsReply,
    m: Message,
)
    requires
        old(pool).wf(),
        call_ensures(FakeDns::handle_dns_query, (pool, query, known), r),
        dns_message(query@) == Some(m),
    ensures
        dns_queries(m).len() == 0 ==> r.response is None,
        dns_queries(m).len() > 0 && dns_query_type(dns_queries(m)[0]) != 1 ==> {
            let refusal = dns_bytes(dns_coded(dns_marked(m, true), 5));
            &&& refusal matches Some(b) ==> (r.response matches Some(v) && v@ == b)
            &&& refusal is None ==> r.response is None
        },
        dns_queries(m).len() == 0 || dns_query_type(dns_queries(m)[0]) != 1 || known is Some
            ==> r.mapped is None && *final(pool) == *old(pool),
        dns_queries(m).len() > 0 && dns_query_type(dns_queries(m)[0]) == 1 ==> {
            let given = if known is Some {
                known
            } else {
                r.mapped
            };
            &&& given matches Some(ip) ==> {
                let answer = dns_bytes(
                    dns_answered(
                        dns_coded(dns_marked(m, true), 0),
                        dns_query_name(dns_queries(m)[0]),
                        5,
                        ip@,
                    ),
                );
                &&& answer matches Some(b) ==> (r.response matches Some(v) && v@ == b)
                &&& answer is None ==> r.response is None
            }
            &&& given is None ==> r.response is None
        },
{
}

/// What is no message is not answered, and gives nothing out.
pub proof fn law_noise_is_not_answered(
    pool: &mut FakeDns,
    query: &[u8],
    known: Option<Ipv4Addr>,
    r: DnsReply,
)
    requires
        old(pool).wf(),
        call_ensures(FakeDns::handle_dns_query, (pool, query, known), r),
        dns_message(query@) is None,
    ensures
        r.response is None,
        r.mapped is None,
        *final(pool) == *old(pool),
{
}

/// A pool has as many hosts as its network has addresses, without the first and the last
/// where there are more than two.
pub proof fn law_hosts_of_a_pool(pool: &FakeDns, n: u32)
    requires
        pool.wf(),
        call_ensures(FakeDns::max_hosts, (pool,), n),
    ensures
        pool.net().prefix_len <= 30 ==> n + 2 == pow2((32 - pool.net().prefix_len) as nat),
        pool.net().prefix_len == 31 ==> n == 2,
        pool.net().prefix_len == 32 ==> n == 1,
{
    lemma2_to64();
}

} // verus!
