//! UDP sessions over the tunnel.
use std::hash::RandomState;

use bytes::Bytes;
use dashmap::DashMap;
use vstd::prelude::*;

use crate::error::Error;
use crate::time::{Duration, NANOS_PER_SEC};
use crate::tunnel::Address;

use super::connection::next_backoff;

verus! {

/// First pause after a datagram could not be read, in seconds.
pub const DATAGRAM_INITIAL_DELAY_SECS: u64 = 1;

/// Longest pause after a datagram could not be read, in seconds.
pub const DATAGRAM_MAX_DELAY_SECS: u64 = 60;

/// How many datagrams wait for a session at most.
pub const UDP_SESSION_CHANNEL_BUFFER_SIZE: usize = 128;

/// The concurrent hash map of `dashmap`.
#[verifier::external_type_specification]
#[verifier::external_body]
#[verifier::reject_recursive_types(K)]
#[verifier::reject_recursive_types(V)]
#[verifier::reject_recursive_types(S)]
pub struct ExDashMap<K, V, S>(DashMap<K, V, S>);

/// What a map from sessions to channels holds.
pub uninterp spec fn session_map(m: DashMap<u64, u64, RandomState>) -> Map<u64, u64>;

/// `DashMap::new`: an empty map.
#[verifier::external_body]
fn map_new() -> (m: DashMap<u64, u64, RandomState>)
    ensures
        session_map(m).dom() == Set::<u64>::empty(),
{
    DashMap::new()
}

/// `DashMap::insert`: sets the value of a key.
#[verifier::external_body]
fn map_insert(m: &mut DashMap<u64, u64, RandomState>, key: u64, value: u64)
    ensures
        session_map(*final(m)) == session_map(*old(m)).insert(key, value),
{
    m.insert(key, value);
}

/// `DashMap::remove`: takes a key out.
#[verifier::external_body]
fn map_remove(m: &mut DashMap<u64, u64, RandomState>, key: u64)
    ensures
        session_map(*final(m)) == session_map(*old(m)).remove(key),
{
    m.remove(&key);
}

/// `DashMap::get`: the value of a key.
#[verifier::external_body]
fn map_get(m: &DashMap<u64, u64, RandomState>, key: u64) -> (v: Option<u64>)
    ensures
        match v {
            Some(x) => session_map(*m).dom().contains(key) && session_map(*m)[key] == x,
            None => !session_map(*m).dom().contains(key),
        },
{
    m.get(&key).map(|entry| *entry)
}

/// The active UDP sessions, and the channel that leads to each. Channels are
/// numbered in the order in which they were made.
pub struct UdpDispatcher {
    dispatch_map: DashMap<u64, u64, RandomState>,
    next_channel: u64,
}

impl UdpDispatcher {
    /// The channel of each active session.
    pub closed spec fn channels(&self) -> Map<u64, u64> {
        session_map(self.dispatch_map)
    }

    /// The number of the next channel.
    pub closed spec fn next(&self) -> u64 {
        self.next_channel
    }

    /// Every channel in use was made before the next one.
    pub open spec fn wf(&self) -> bool {
        forall|id: u64| #[trigger]
            self.channels().dom().contains(id) ==> self.channels()[id] < self.next()
    }

    /// No session yet.
    pub fn new() -> (r: UdpDispatcher)
        ensures
            r.wf(),
            r.channels().dom() == Set::<u64>::empty(),
            r.next() == 0,
    {
        UdpDispatcher { dispatch_map: map_new(), next_channel: 0 }
    }

    /// Whether numbers for channels are left.
    pub fn can_register(&self) -> (b: bool)
        ensures
            b == (self.next() < u64::MAX),
    {
        self.next_channel < u64::MAX
    }

    /// Registers a session and gives the number of its new channel. A session
    /// that was registered before is no longer reached through its old one.
    pub fn register_session(&mut self, session_id: u64) -> (channel: u64)
        requires
            old(self).wf(),
            old(self).next() < u64::MAX,
        ensures
            final(self).wf(),
            channel == old(self).next(),
            final(self).next() == old(self).next() + 1,
            final(self).channels() == old(self).channels().insert(session_id, channel),
            forall|id: u64| #[trigger]
                old(self).channels().dom().contains(id) ==> old(self).channels()[id] != channel,
    {
        let channel: u64 = self.next_channel;
        map_insert(&mut self.dispatch_map, session_id, channel);
        self.next_channel = channel + 1;
        proof {
            assert forall|id: u64| #[trigger] self.channels().dom().contains(id) implies self.channels()[id]
                < self.next() by {
                if id != session_id {
                    assert(old(self).channels().dom().contains(id));
                }
            }
        }
        channel
    }

    /// Forgets a session.
    pub fn unregister_session(&mut self, session_id: u64)
        requires
            old(self).wf(),
        ensures
            final(self).wf(),
            final(self).next() == old(self).next(),
            final(self).channels() == old(self).channels().remove(session_id),
    {
        map_remove(&mut self.dispatch_map, session_id);
        proof {
            assert forall|id: u64| #[trigger] self.channels().dom().contains(id) implies self.channels()[id]
                < self.next() by {
                if id != session_id {
                    assert(old(self).channels().dom().contains(id));
                }
            }
        }
    }

    /// The channel that a datagram for a session goes to; a datagram for an
    /// unknown session is dropped.
    pub fn dispatch(&self, session_id: u64) -> (channel: Option<u64>)
        ensures
            match channel {
                Some(c) => self.channels().dom().contains(session_id)
                    && self.channels()[session_id] == c,
                None => !self.channels().dom().contains(session_id),
            },
    {
        map_get(&self.dispatch_map, session_id)
    }

    /// Settles a delivery: a session that nobody receives for is forgotten.
    pub fn delivered(&mut self, session_id: u64, received: bool)
        requires
            old(self).wf(),
        ensures
            final(self).wf(),
            final(self).next() == old(self).next(),
            final(self).channels() == if received {
                old(self).channels()
            } else {
                old(self).channels().remove(session_id)
            },
    {
        if !received {
            self.unregister_session(session_id);
        }
    }
}

/// No two sessions share a channel.
pub open spec fn channels_differ(channels: Map<u64, u64>) -> bool {
    forall|a: u64, b: u64|
        channels.dom().contains(a) && channels.dom().contains(b) && a != b ==> #[trigger]
            channels[a] != #[trigger] channels[b]
}

/// Registering a session with a channel that is not in use keeps the channels of
/// all sessions apart.
pub proof fn law_sessions_stay_apart(channels: Map<u64, u64>, id: u64, channel: u64)
    requires
        channels_differ(channels),
        forall|k: u64| #[trigger] channels.dom().contains(k) ==> channels[k] != channel,
    ensures
        channels_differ(channels.insert(id, channel)),
        channels_differ(channels.remove(id)),
{
}

/// The numbers of UDP sessions, counted from one.
#[derive(Clone, Copy, Debug, PartialEq, Eq, Structural)]
pub struct SessionIds {
    pub next: u64,
}

impl SessionIds {
    /// The first number is one.
    pub fn new() -> (r: SessionIds)
        ensures
            r.next == 1,
    {
        SessionIds { next: 1 }
    }

    /// A number for a new session. The count starts over once it has used all
    /// numbers.
    pub fn open_associate(&mut self) -> (id: u64)
        ensures
            id == old(self).next,
            final(self).next == if id == u64::MAX {
                0
            } else {
                (id + 1) as u64
            },
    {
        let id: u64 = self.next;
        self.next = id.wrapping_add(1);
        id
    }
}

/// The pause after a datagram could not be read.
#[derive(Clone, Copy, Debug, PartialEq, Eq, Structural)]
pub struct ReadDelay {
    pub current: Duration,
}

impl ReadDelay {
    /// Between a second and a minute.
    pub open spec fn wf(&self) -> bool {
        NANOS_PER_SEC <= self.current.nanos <= 60 * NANOS_PER_SEC
    }

    /// A second.
    pub fn new() -> (r: ReadDelay)
        ensures
            r.wf(),
            r.current.nanos == NANOS_PER_SEC,
    {
        ReadDelay { current: Duration::from_secs(DATAGRAM_INITIAL_DELAY_SECS) }
    }

    /// A datagram was read: the next pause is a second again.
    pub fn on_success(&mut self)
        ensures
            final(self).wf(),
            final(self).current.nanos == NANOS_PER_SEC,
    {
        self.current = Duration::from_secs(DATAGRAM_INITIAL_DELAY_SECS);
    }

    /// Reading failed: how long to wait now. The next pause is twice as long, up
    /// to a minute.
    pub fn on_failure(&mut self) -> (wait: Duration)
        requires
            old(self).wf(),
        ensures
            final(self).wf(),
            wait == old(self).current,
            final(self).current.nanos == next_backoff(old(self).current.nanos as int),
    {
        let wait = self.current;
        self.current = wait.doubled().min(Duration::from_secs(DATAGRAM_MAX_DELAY_SECS));
        wait
    }
}

/// What reading from the connection came to.
pub enum DatagramEvent {
    /// The connection failed, also after it was tried again.
    Failed(Error),
    /// The bytes were no packet of the tunnel.
    Undecodable,
    /// The packet was a part of a datagram that is not complete yet.
    Incomplete,
    /// The packet does not fit the others of its datagram.
    Inconsistent,
    /// A datagram is complete.
    Complete(u64, Address, Bytes),
}

/// What reading a datagram does next.
pub enum DatagramStep {
    /// Read the next packet.
    ReadNext,
    /// Reading is over.
    Finish(Result<(u64, Address, Bytes), Error>),
}

/// Takes one event of reading a datagram: only a complete one or a failure of the
/// connection ends it, a bad packet is skipped.
pub fn read_datagram(event: DatagramEvent) -> (r: DatagramStep)
    ensures
        r == match event {
            DatagramEvent::Failed(e) => DatagramStep::Finish(Err(e)),
            DatagramEvent::Complete(id, address, data) => DatagramStep::Finish(
                Ok((id, address, data)),
            ),
            _ => DatagramStep::ReadNext,
        },
{
    match event {
        DatagramEvent::Failed(e) => DatagramStep::Finish(Err(e)),
        DatagramEvent::Undecodable => DatagramStep::ReadNext,
        DatagramEvent::Incomplete => DatagramStep::ReadNext,
        DatagramEvent::Inconsistent => DatagramStep::ReadNext,
        DatagramEvent::Complete(id, address, data) => DatagramStep::Finish(Ok((id, address, data))),
    }
}

/// A session that is registered is reached through its new channel, which no other session
/// had, and every other session is reached as before.
pub proof fn law_registered_session_is_reached(
    dispatcher: &mut UdpDispatcher,
    id: u64,
    channel: u64,
    other: u64,
    before: Option<u64>,
    after: Option<u64>,
)
    requires
        old(dispatcher).wf(),
        old(dispatcher).next() < u64::MAX,
        call_ensures(UdpDispatcher::dispatch, (old(dispatcher), other), before),
        call_ensures(UdpDispatcher::register_session, (dispatcher, id), channel),
        call_ensures(UdpDispatcher::dispatch, (final(dispatcher), other), after),
    ensures
        other == id ==> after == Some(channel),
        other != id ==> after == before && after != Some(channel),
        before != Some(channel),
{
}

/// A session that is forgotten is not reached any more, and every other one is reached as
/// before.
pub proof fn law_forgotten_session_is_not_reached(
    dispatcher: &mut UdpDispatcher,
    id: u64,
    other: u64,
    before: Option<u64>,
    after: Option<u64>,
)
    requires
        old(dispatcher).wf(),
        call_ensures(UdpDispatcher::dispatch, (old(dispatcher), other), before),
        call_ensures(UdpDispatcher::unregister_session, (dispatcher, id), ()),
        call_ensures(UdpDispatcher::dispatch, (final(dispatcher), other), after),
    ensures
        other == id ==> after is None,
        other != id ==> after == before,
{
}

/// Only a delivery that nobody received makes a session forgotten, and only that session.
pub proof fn law_deserted_session_is_forgotten(
    dispatcher: &mut UdpDispatcher,
    id: u64,
    received: bool,
    other: u64,
    before: Option<u64>,
    after: Option<u64>,
)
    requires
        old(dispatcher).wf(),
        call_ensures(UdpDispatcher::dispatch, (old(dispatcher), other), before),
        call_ensures(UdpDispatcher::delivered, (dispatcher, id, received), ()),
        call_ensures(UdpDispatcher::dispatch, (final(dispatcher), other), after),
    ensures
        other == id && !received ==> after is None,
        other != id || received ==> after == before,
{
}

/// A dispatcher reaches no session at first.
pub proof fn law_new_dispatcher_reaches_none(d: UdpDispatcher, id: u64, r: Option<u64>)
    requires
        call_ensures(UdpDispatcher::new, (), d),
        call_ensures(UdpDispatcher::dispatch, (&d, id), r),
    ensures
        r is None,
{
}

/// Sessions are numbered one by one, and no two in a row have the same number.
pub proof fn law_sessions_are_numbered_in_turn(
    ids: &mut SessionIds,
    first: u64,
    later: &mut SessionIds,
    second: u64,
)
    requires
        call_ensures(SessionIds::open_associate, (ids,), first),
        *old(later) == *final(ids),
        call_ensures(SessionIds::open_associate, (later,), second),
    ensures
        first == old(ids).next,
        second != first,
        first < u64::MAX ==> second == first + 1,
        first == u64::MAX ==> second == 0,
{
}

/// The first session has the number one.
pub proof fn law_first_session_is_one(ids: SessionIds)
    requires
        call_ensures(SessionIds::new, (), ids),
    ensures
        ids.next == 1,
{
}

/// Of two failures in a row, the pause after the second is twice as long as the one after
/// the first, up to a minute.
pub proof fn law_read_pause_doubles(
    delay: &mut ReadDelay,
    first: Duration,
    later: &mut ReadDelay,
    second: Duration,
)
    requires
        old(delay).wf(),
        call_ensures(ReadDelay::on_failure, (delay,), first),
        *old(later) == *final(delay),
        call_ensures(ReadDelay::on_failure, (later,), second),
    ensures
        first == old(delay).current,
        first.nanos <= 30_000_000_000 ==> second.nanos == 2 * first.nanos,
        first.nanos >= 30_000_000_000 ==> second.nanos == 60_000_000_000,
{
}

/// At first, and after each datagram that was read, the pause is a second.
pub proof fn law_read_pause_starts_at_a_second(delay: &mut ReadDelay, new: ReadDelay)
    requires
        call_ensures(ReadDelay::on_success, (delay,), ()),
        call_ensures(ReadDelay::new, (), new),
    ensures
        final(delay).current.nanos == 1_000_000_000,
        new.current.nanos == 1_000_000_000,
{
}

/// Reading ends with the datagram that is complete, unchanged, or with the failure of the
/// connection; nothing else ends it.
pub proof fn law_reading_ends_with_a_datagram(event: DatagramEvent, r: DatagramStep)
    requires
        call_ensures(read_datagram, (event,), r),
    ensures
        r matches DatagramStep::Finish(Ok((id, address, data))) ==> event
            == DatagramEvent::Complete(id, address, data),
        r matches DatagramStep::Finish(Err(e)) ==> event == DatagramEvent::Failed(e),
        r is ReadNext <==> !(event is Complete) && !(event is Failed),
{
}

/// A session can be registered until the last number was used.
pub proof fn law_numbers_are_left(d: &UdpDispatcher, b: bool)
    requires
        call_ensures(UdpDispatcher::can_register, (d,), b),
    ensures
        b <==> d.next() != u64::MAX,
{
}

} // verus!
