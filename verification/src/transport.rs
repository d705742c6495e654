//! Limits of a QUIC transport, as far as they were set.
use vstd::prelude::*;

use crate::time::Duration;

verus! {

/// Limits that may be set.
#[derive(Clone, Copy, Debug, PartialEq, Eq, Structural)]
pub struct Limits {
    pub max_handshake_duration: Option<Duration>,
    pub max_idle_timeout: Option<Duration>,
    pub max_keep_alive_period: Option<Duration>,
    pub max_open_bidirectional_streams: Option<u64>,
    pub bidirectional_local_data_window: Option<u64>,
    pub bidirectional_remote_data_window: Option<u64>,
}

/// One limit that the transport is told of.
#[derive(Clone, Copy, Debug, PartialEq, Eq, Structural)]
pub enum LimitSetting {
    BidirectionalLocalDataWindow(u64),
    BidirectionalRemoteDataWindow(u64),
    MaxOpenLocalBidirectionalStreams(u64),
    MaxOpenRemoteBidirectionalStreams(u64),
    MaxHandshakeDuration(Duration),
    MaxKeepAlivePeriod(Duration),
    MaxIdleTimeout(Duration),
}

/// The limit as a list of one, or of none.
pub open spec fn listed(limit: Option<LimitSetting>) -> Seq<LimitSetting> {
    match limit {
        Some(l) => seq![l],
        None => Seq::empty(),
    }
}

impl Limits {
    /// What the transport is told, in this order: the first that it does not
    /// accept is the one that is reported. The number of streams holds for both
    /// sides.
    pub open spec fn in_order(self) -> Seq<LimitSetting> {
        listed(
            match self.bidirectional_local_data_window {
                Some(n) => Some(LimitSetting::BidirectionalLocalDataWindow(n)),
                None => None,
            },
        ) + listed(
            match self.bidirectional_remote_data_window {
                Some(n) => Some(LimitSetting::BidirectionalRemoteDataWindow(n)),
                None => None,
            },
        ) + listed(
            match self.max_open_bidirectional_streams {
                Some(n) => Some(LimitSetting::MaxOpenLocalBidirectionalStreams(n)),
                None => None,
            },
        ) + listed(
            match self.max_open_bidirectional_streams {
                Some(n) => Some(LimitSetting::MaxOpenRemoteBidirectionalStreams(n)),
                None => None,
            },
        ) + listed(
            match self.max_handshake_duration {
                Some(d) => Some(LimitSetting::MaxHandshakeDuration(d)),
                None => None,
            },
        ) + listed(
            match self.max_keep_alive_period {
                Some(d) => Some(LimitSetting::MaxKeepAlivePeriod(d)),
                None => None,
            },
        ) + listed(
            match self.max_idle_timeout {
                Some(d) => Some(LimitSetting::MaxIdleTimeout(d)),
                None => None,
            },
        )
    }

    /// Nothing set.
    pub open spec fn unset() -> Limits {
        Limits {
            max_handshake_duration: None,
            max_idle_timeout: None,
            max_keep_alive_period: None,
            max_open_bidirectional_streams: None,
            bidirectional_local_data_window: None,
            bidirectional_remote_data_window: None,
        }
    }

    /// Nothing set.
    pub fn new() -> (r: Limits)
        ensures
            r == Limits::unset(),
    {
        Limits {
            max_handshake_duration: None,
            max_idle_timeout: None,
            max_keep_alive_period: None,
            max_open_bidirectional_streams: None,
            bidirectional_local_data_window: None,
            bidirectional_remote_data_window: None,
        }
    }

    /// What the transport is told, in order.
    pub fn settings(&self) -> (v: Vec<LimitSetting>)
        ensures
            v@ == self.in_order(),
    {
        let mut v: Vec<LimitSetting> = Vec::new();
        if let Some(n) = self.bidirectional_local_data_window {
            v.push(LimitSetting::BidirectionalLocalDataWindow(n));
        }
        if let Some(n) = self.bidirectional_remote_data_window {
            v.push(LimitSetting::BidirectionalRemoteDataWindow(n));
        }
        if let Some(n) = self.max_open_bidirectional_streams {
            v.push(LimitSetting::MaxOpenLocalBidirectionalStreams(n));
        }
        if let Some(n) = self.max_open_bidirectional_streams {
            v.push(LimitSetting::MaxOpenRemoteBidirectionalStreams(n));
        }
        if let Some(d) = self.max_handshake_duration {
            v.push(LimitSetting::MaxHandshakeDuration(d));
        }
        if let Some(d) = self.max_keep_alive_period {
            v.push(LimitSetting::MaxKeepAlivePeriod(d));
        }
        if let Some(d) = self.max_idle_timeout {
            v.push(LimitSetting::MaxIdleTimeout(d));
        }
        assert(v@ =~= self.in_order());
        v
    }
}

/// The place of a limit among what the transport is told.
pub open spec fn place(limit: LimitSetting) -> int {
    match limit {
        LimitSetting::BidirectionalLocalDataWindow(_) => 0,
        LimitSetting::BidirectionalRemoteDataWindow(_) => 1,
        LimitSetting::MaxOpenLocalBidirectionalStreams(_) => 2,
        LimitSetting::MaxOpenRemoteBidirectionalStreams(_) => 3,
        LimitSetting::MaxHandshakeDuration(_) => 4,
        LimitSetting::MaxKeepAlivePeriod(_) => 5,
        LimitSetting::MaxIdleTimeout(_) => 6,
    }
}

/// The transport is told each limit that was set, with its value, and no other; the number
/// of streams holds for both sides.
pub proof fn law_limits_are_told(limits: &Limits, v: Vec<LimitSetting>, l: LimitSetting)
    requires
        call_ensures(Limits::settings, (limits,), v),
    ensures
        v@.contains(l) <==> match l {
            LimitSetting::BidirectionalLocalDataWindow(n) => limits.bidirectional_local_data_window
                == Some(n),
            LimitSetting::BidirectionalRemoteDataWindow(n) =>
                limits.bidirectional_remote_data_window == Some(n),
            LimitSetting::MaxOpenLocalBidirectionalStreams(n) =>
                limits.max_open_bidirectional_streams == Some(n),
            LimitSetting::MaxOpenRemoteBidirectionalStreams(n) =>
                limits.max_open_bidirectional_streams == Some(n),
            LimitSetting::MaxHandshakeDuration(d) => limits.max_handshake_duration == Some(d),
            LimitSetting::MaxKeepAlivePeriod(d) => limits.max_keep_alive_period == Some(d),
            LimitSetting::MaxIdleTimeout(d) => limits.max_idle_timeout == Some(d),
        },
{
    lemma_in_order(*limits, l);
}

/// The transport is told its limits in a fixed order, each once: the windows, the streams,
/// the handshake, the keep-alive period and the idle timeout.
pub proof fn law_limits_are_told_in_order(limits: &Limits, v: Vec<LimitSetting>, i: int, j: int)
    requires
        call_ensures(Limits::settings, (limits,), v),
        0 <= i < j < v@.len(),
    ensures
        place(v@[i]) < place(v@[j]),
{
    lemma_in_order(*limits, v@[i]);
}

#[verifier::rlimit(40)]
proof fn lemma_in_order(limits: Limits, l: LimitSetting)
    ensures
        limits.in_order().contains(l) <==> match l {
            LimitSetting::BidirectionalLocalDataWindow(n) => limits.bidirectional_local_data_window
                == Some(n),
            LimitSetting::BidirectionalRemoteDataWindow(n) =>
                limits.bidirectional_remote_data_window == Some(n),
            LimitSetting::MaxOpenLocalBidirectionalStreams(n) =>
                limits.max_open_bidirectional_streams == Some(n),
            LimitSetting::MaxOpenRemoteBidirectionalStreams(n) =>
                limits.max_open_bidirectional_streams == Some(n),
            LimitSetting::MaxHandshakeDuration(d) => limits.max_handshake_duration == Some(d),
            LimitSetting::MaxKeepAlivePeriod(d) => limits.max_keep_alive_period == Some(d),
            LimitSetting::MaxIdleTimeout(d) => limits.max_idle_timeout == Some(d),
        },
        rising(limits.in_order(), 7),
{
    let a = match limits.bidirectional_local_data_window {
        Some(n) => Some(LimitSetting::BidirectionalLocalDataWindow(n)),
        None => None,
    };
    let b = match limits.bidirectional_remote_data_window {
        Some(n) => Some(LimitSetting::BidirectionalRemoteDataWindow(n)),
        None => None,
    };
    let c = match limits.max_open_bidirectional_streams {
        Some(n) => Some(LimitSetting::MaxOpenLocalBidirectionalStreams(n)),
        None => None,
    };
    let d = match limits.max_open_bidirectional_streams {
        Some(n) => Some(LimitSetting::MaxOpenRemoteBidirectionalStreams(n)),
        None => None,
    };
    let e = match limits.max_handshake_duration {
        Some(n) => Some(LimitSetting::MaxHandshakeDuration(n)),
        None => None,
    };
    let f = match limits.max_keep_alive_period {
        Some(n) => Some(LimitSetting::MaxKeepAlivePeriod(n)),
        None => None,
    };
    let g = match limits.max_idle_timeout {
        Some(n) => Some(LimitSetting::MaxIdleTimeout(n)),
        None => None,
    };
    let t1 = listed(a);
    let t2 = t1 + listed(b);
    let t3 = t2 + listed(c);
    let t4 = t3 + listed(d);
    let t5 = t4 + listed(e);
    let t6 = t5 + listed(f);
    let t7 = t6 + listed(g);
    assert(limits.in_order() == t7);
    assert(Seq::<LimitSetting>::empty() + listed(a) =~= t1);
    lemma_listed_behind(Seq::empty(), a, 0, l);
    lemma_listed_behind(t1, b, 1, l);
    lemma_listed_behind(t2, c, 2, l);
    lemma_listed_behind(t3, d, 3, l);
    lemma_listed_behind(t4, e, 4, l);
    lemma_listed_behind(t5, f, 5, l);
    lemma_listed_behind(t6, g, 6, l);
}

/// Whether the limits come in order, all of them before place `n`.
spec fn rising(s: Seq<LimitSetting>, n: int) -> bool {
    &&& forall|i: int| 0 <= i < s.len() ==> place(#[trigger] s[i]) < n
    &&& forall|i: int, j: int|
        0 <= i < j < s.len() ==> place(#[trigger] s[i]) < place(#[trigger] s[j])
}

proof fn lemma_listed_behind(
    s: Seq<LimitSetting>,
    limit: Option<LimitSetting>,
    n: int,
    l: LimitSetting,
)
    requires
        rising(s, n),
        limit matches Some(x) ==> place(x) == n,
    ensures
        rising(s + listed(limit), n + 1),
        (s + listed(limit)).contains(l) <==> s.contains(l) || limit == Some(l),
{
    let t = s + listed(limit);
    if s.contains(l) {
        let i = choose|i: int| 0 <= i < s.len() && s[i] == l;
        assert(t[i] == l);
    }
    if limit == Some(l) {
        assert(t[s.len() as int] == l);
    }
    if t.contains(l) {
        let i = choose|i: int| 0 <= i < t.len() && t[i] == l;
        if i < s.len() {
            assert(s[i] == l);
        }
    }
}

} // verus!
