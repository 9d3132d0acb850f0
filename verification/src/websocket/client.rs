//! Subscription bookkeeping for the streams.
//!
//! The desired set is the only source of truth. The venue keeps no subscription state across
//! connections, so after a reconnect the whole desired set is replayed; every outbound
//! request is recorded under a fresh id so that a rejection, which the venue echoes only by
//! id, can name the selector it refused.
use vstd::prelude::*;

use std::collections::HashMap;

use super::messages::{views, CandleParams, Heartbeat, Op, SymbolsParams, WsRequest};
use super::{
    probe_interval_is_sound, spec_probe_sound, spec_stream_url, stream_url, DEFAULT_IDLE_PROBE_SECS,
    SERVER_IDLE_DISCONNECT_SECS,
};
use crate::common::Market;
use crate::http::Network;
use crate::json::{json_array, json_items, opt_decimal, opt_member, ToJson};
use crate::text::{decimal, json_string, owned, push_str, str_eq, u64_decimal};

verus! {

broadcast use vstd::std_specs::hash::group_hash_axioms;

/// What a subscription selector is, by value.
pub enum SubscriptionKey {
    Candle((Seq<char>, Seq<char>, Seq<char>)),
    Trade((Seq<char>, Seq<Seq<char>>)),
    Ticker((Seq<char>, Seq<Seq<char>>)),
}

/// One feed this client can subscribe to. The channels do not share a selector shape, so
/// the selector travels with its channel.
#[derive(Debug, Clone, PartialEq, Eq)]
pub enum Subscription {
    Candle(CandleParams),
    Trade(SymbolsParams),
    Ticker(SymbolsParams),
}

impl View for Subscription {
    type V = SubscriptionKey;

    open spec fn view(&self) -> SubscriptionKey {
        match self {
            Subscription::Candle(p) => SubscriptionKey::Candle(p@),
            Subscription::Trade(p) => SubscriptionKey::Trade(p@),
            Subscription::Ticker(p) => SubscriptionKey::Ticker(p@),
        }
    }
}

impl Subscription {
    /// Candles for one symbol at one interval.
    pub fn candles(symbol: &str, interval: &str) -> (s: Self)
        ensures
            s@ == SubscriptionKey::Candle((CandleParams::CHANNEL@, symbol@, interval@)),
    {
        Subscription::Candle(CandleParams::new(symbol, interval))
    }

    /// Public trades for one symbol.
    pub fn trades(symbol: &str) -> (s: Self)
        ensures
            s@ == SubscriptionKey::Trade((SymbolsParams::TRADE@, seq![symbol@])),
    {
        Subscription::Trade(SymbolsParams::trade(symbol))
    }

    /// Top of book and rolling statistics for one symbol.
    pub fn ticker(symbol: &str) -> (s: Self)
        ensures
            s@ == SubscriptionKey::Ticker((SymbolsParams::TICKER@, seq![symbol@])),
    {
        Subscription::Ticker(SymbolsParams::ticker(symbol))
    }

    pub open spec fn spec_channel(self) -> Seq<char> {
        match self {
            Subscription::Candle(p) => p.channel@,
            Subscription::Trade(p) => p.channel@,
            Subscription::Ticker(p) => p.channel@,
        }
    }

    /// The venue channel this selector addresses.
    pub fn channel(&self) -> (c: &str)
        ensures
            c@ == self.spec_channel(),
    {
        match self {
            Subscription::Candle(p) => p.channel.as_str(),
            Subscription::Trade(p) => p.channel.as_str(),
            Subscription::Ticker(p) => p.channel.as_str(),
        }
    }

    /// A selector-for-selector copy.
    pub fn duplicate(&self) -> (s: Self)
        ensures
            s@ == self@,
    {
        match self {
            Subscription::Candle(p) => Subscription::Candle(p.duplicate()),
            Subscription::Trade(p) => Subscription::Trade(p.duplicate()),
            Subscription::Ticker(p) => Subscription::Ticker(p.duplicate()),
        }
    }

    /// Whether two selectors name the same feed.
    pub fn same_as(&self, other: &Self) -> (b: bool)
        ensures
            b == (self@ == other@),
    {
        match (self, other) {
            (Subscription::Candle(a), Subscription::Candle(b)) => a.same_as(b),
            (Subscription::Trade(a), Subscription::Trade(b)) => a.same_as(b),
            (Subscription::Ticker(a), Subscription::Ticker(b)) => a.same_as(b),
            _ => false,
        }
    }

    /// The exact request frame for `op` on this selector, tagged with `id`.
    pub open spec fn request_json(self, op: Op, id: u64) -> Seq<char> {
        match self {
            Subscription::Candle(p) => WsRequest { op, id: Some(id), params: p }.json(),
            Subscription::Trade(p) => WsRequest { op, id: Some(id), params: p }.json(),
            Subscription::Ticker(p) => WsRequest { op, id: Some(id), params: p }.json(),
        }
    }

    /// Encodes a subscribe or unsubscribe for this selector.
    pub fn to_request(&self, op: Op, id: u64) -> (s: String)
        ensures
            s@ == self.request_json(op, id),
    {
        match self {
            Subscription::Candle(p) => {
                let r = WsRequest { op, id: Some(id), params: p.duplicate() };
                let s = r.to_json();
                proof {
                    assert(r.json() == WsRequest { op, id: Some(id), params: *p }.json());
                }
                s
            },
            Subscription::Trade(p) => {
                let r = WsRequest { op, id: Some(id), params: p.duplicate() };
                let s = r.to_json();
                proof {
                    lemma_symbols_json_by_view(r.params, *p);
                    assert(r.json() == WsRequest { op, id: Some(id), params: *p }.json());
                }
                s
            },
            Subscription::Ticker(p) => {
                let r = WsRequest { op, id: Some(id), params: p.duplicate() };
                let s = r.to_json();
                proof {
                    lemma_symbols_json_by_view(r.params, *p);
                    assert(r.json() == WsRequest { op, id: Some(id), params: *p }.json());
                }
                s
            },
        }
    }
}

/// The params object of a selector, by its value.
pub open spec fn key_params_json(k: SubscriptionKey) -> Seq<char> {
    match k {
        SubscriptionKey::Candle((channel, symbol, interval)) => "{\"channel\":"@ + json_string(channel)
            + ",\"symbol\":"@ + json_string(symbol) + ",\"interval\":"@ + json_string(interval)
            + "}"@,
        SubscriptionKey::Trade((channel, symbols)) => "{\"channel\":"@ + json_string(channel)
            + ",\"symbols\":"@ + json_array(symbols.map_values(|s: Seq<char>| json_string(s)))
            + "}"@,
        SubscriptionKey::Ticker((channel, symbols)) => "{\"channel\":"@ + json_string(channel)
            + ",\"symbols\":"@ + json_array(symbols.map_values(|s: Seq<char>| json_string(s)))
            + "}"@,
    }
}

/// The exact request frame for `op` on the selector `k`, tagged with `id`.
pub open spec fn key_request_json(k: SubscriptionKey, op: Op, id: u64) -> Seq<char> {
    "{\"op\":"@ + json_string(op.spec_text()) + opt_member(",\"id\":"@, opt_decimal(Some(id)))
        + ",\"params\":"@ + key_params_json(k) + "}"@
}

/// A selector's request frame depends on its value alone.
pub proof fn lemma_request_json_is_by_key(s: Subscription, op: Op, id: u64)
    ensures
        s.request_json(op, id) == key_request_json(s@, op, id),
{
    match s {
        Subscription::Candle(p) => {},
        Subscription::Trade(p) => {
            assert(json_items(p.symbols@) =~= views(p.symbols@).map_values(
                |x: Seq<char>| json_string(x),
            ));
        },
        Subscription::Ticker(p) => {
            assert(json_items(p.symbols@) =~= views(p.symbols@).map_values(
                |x: Seq<char>| json_string(x),
            ));
        },
    }
}

/// Selectors with the same value encode alike.
proof fn lemma_symbols_json_by_view(a: SymbolsParams, b: SymbolsParams)
    requires
        a@ == b@,
    ensures
        a.json() == b.json(),
{
    let va = super::messages::views(a.symbols@);
    let vb = super::messages::views(b.symbols@);
    assert(va == vb);
    assert(va.len() == a.symbols@.len() && vb.len() == b.symbols@.len());
    assert forall|i: int| 0 <= i < a.symbols@.len() implies #[trigger] a.symbols@[i]@
        == b.symbols@[i]@ by {
        assert(va[i] == a.symbols@[i]@);
        assert(vb[i] == b.symbols@[i]@);
    }
    let ja = crate::json::json_items(a.symbols@);
    let jb = crate::json::json_items(b.symbols@);
    assert forall|i: int| 0 <= i < ja.len() implies ja[i] == jb[i] by {
        assert(a.symbols@[i]@ == b.symbols@[i]@);
        assert(ja[i] == a.symbols@[i].json());
        assert(jb[i] == b.symbols@[i].json());
    }
    assert(ja =~= jb);
}

/// A request awaiting its acknowledgement.
#[derive(Debug, Clone)]
pub struct Pending {
    pub op: Op,
    pub subscription: Subscription,
}

/// A subscribe or unsubscribe the venue refused.
#[derive(Debug, Clone, PartialEq, Eq)]
pub struct Rejection {
    pub op: Op,
    /// The refused selector, when the acknowledgement carried an id this client issued.
    pub subscription: Option<Subscription>,
    pub reason: String,
}

/// The values of the desired list.
pub open spec fn keys(v: Seq<Subscription>) -> Seq<SubscriptionKey> {
    v.map_values(|s: Subscription| s@)
}

/// Subscription bookkeeping: the selectors wanted, the requests awaiting acknowledgement,
/// and the last request id issued.
#[derive(Debug)]
pub struct State {
    pub desired: Vec<Subscription>,
    pub pending: HashMap<u64, Pending>,
    pub next_id: u64,
}

impl Default for State {
    fn default() -> (s: Self)
        ensures
            s.desired@.len() == 0,
            s.pending@ == Map::<u64, Pending>::empty(),
            s.next_id == 0,
    {
        State { desired: Vec::new(), pending: HashMap::new(), next_id: 0 }
    }
}

impl State {
    /// No selector is wanted twice, so the desired list matches what the connection holds.
    pub open spec fn wf(self) -> bool {
        keys(self.desired@).no_duplicates()
    }

    /// Issues a request id: one more than the last, never reused.
    pub fn take_id(&mut self) -> (id: u64)
        requires
            old(self).next_id < u64::MAX,
        ensures
            id == old(self).next_id + 1,
            final(self).next_id == id,
            final(self).desired == old(self).desired,
            final(self).pending == old(self).pending,
    {
        self.next_id = self.next_id + 1;
        self.next_id
    }

    fn position(&self, subscription: &Subscription) -> (r: Option<usize>)
        ensures
            r matches Some(i) ==> i < self.desired@.len() && keys(self.desired@)[i as int]
                == subscription@ && !keys(self.desired@).take(i as int).contains(subscription@),
            r is None ==> !keys(self.desired@).contains(subscription@),
    {
        let mut i: usize = 0;
        while i < self.desired.len()
            invariant
                i <= self.desired.len(),
                !keys(self.desired@).take(i as int).contains(subscription@),
            decreases self.desired.len() - i,
        {
            if self.desired[i].same_as(subscription) {
                return Some(i);
            }
            proof {
                assert(keys(self.desired@).take(i + 1) == keys(self.desired@).take(i as int).push(
                    self.desired@[i as int]@,
                ));
            }
            i = i + 1;
        }
        proof {
            assert(keys(self.desired@).take(self.desired.len() as int) == keys(self.desired@));
        }
        None
    }

    /// Records a selector as wanted, reporting whether it was not already. A repeat must not
    /// reach the venue, or the replay after a reconnect would halve the feed's duplication.
    pub fn want(&mut self, subscription: &Subscription) -> (added: bool)
        ensures
            added == !keys(old(self).desired@).contains(subscription@),
            added ==> keys(final(self).desired@) == keys(old(self).desired@).push(subscription@),
            !added ==> final(self).desired == old(self).desired,
            final(self).pending == old(self).pending,
            final(self).next_id == old(self).next_id,
            old(self).wf() ==> final(self).wf(),
    {
        match self.position(subscription) {
            Some(_) => false,
            None => {
                let ghost before = self.desired@;
                self.desired.push(subscription.duplicate());
                proof {
                    assert(keys(self.desired@) =~= keys(before).push(subscription@));
                }
                true
            },
        }
    }

    /// Drops a selector, reporting whether it was wanted.
    pub fn unwant(&mut self, subscription: &Subscription) -> (removed: bool)
        ensures
            removed == keys(old(self).desired@).contains(subscription@),
            removed ==> exists|i: int|
                0 <= i < old(self).desired@.len() && keys(old(self).desired@)[i] == subscription@
                    && final(self).desired@ == old(self).desired@.remove(i),
            !removed ==> final(self).desired == old(self).desired,
            final(self).pending == old(self).pending,
            final(self).next_id == old(self).next_id,
            old(self).wf() ==> final(self).wf() && !keys(final(self).desired@).contains(
                subscription@,
            ),
    {
        match self.position(subscription) {
            None => false,
            Some(i) => {
                let ghost before = self.desired@;
                self.desired.remove(i);
                proof {
                    assert(keys(self.desired@) =~= keys(before).remove(i as int));
                    if keys(before).no_duplicates() {
                        assert forall|a: int, b: int|
                            0 <= a < b < keys(self.desired@).len() implies keys(self.desired@)[a]
                            != keys(self.desired@)[b] by {
                            let a0 = if a < i { a } else { a + 1 };
                            let b0 = if b < i { b } else { b + 1 };
                            assert(keys(before)[a0] != keys(before)[b0]);
                        }
                        assert forall|j: int| 0 <= j < keys(self.desired@).len() implies keys(
                            self.desired@,
                        )[j] != subscription@ by {
                            let j0 = if j < i { j } else { j + 1 };
                            assert(keys(before)[j0] != keys(before)[i as int]);
                        }
                    }
                }
                true
            },
        }
    }

    /// Composes a request for `op` on `subscription`, records it as awaiting
    /// acknowledgement under a fresh id, and returns the id and the frame to send.
    pub fn record_request(&mut self, op: Op, subscription: Subscription) -> (r: (u64, String))
        requires
            old(self).next_id < u64::MAX,
        ensures
            r.0 == old(self).next_id + 1,
            final(self).next_id == r.0,
            r.1@ == subscription.request_json(op, r.0),
            final(self).pending@ == old(self).pending@.insert(r.0, Pending { op, subscription }),
            final(self).desired == old(self).desired,
    {
        let id = self.take_id();
        let text = subscription.to_request(op, id);
        self.pending.insert(id, Pending { op, subscription });
        (id, text)
    }

    /// Forgets a request whose frame never reached the venue.
    pub fn forget_request(&mut self, id: u64)
        ensures
            final(self).pending@ == old(self).pending@.remove(id),
            final(self).desired == old(self).desired,
            final(self).next_id == old(self).next_id,
    {
        self.pending.remove(&id);
    }

    /// Matches an acknowledgement to the request that produced it. The pending entry is
    /// consumed either way; a failure becomes a [`Rejection`] naming the refused selector
    /// when the id is known, and still surfaces without one.
    pub fn resolve_ack(&mut self, ack_id: Option<u64>, outcome: Result<(), String>) -> (r: Option<
        Rejection,
    >)
        ensures
            final(self).pending@ == (match ack_id {
                Some(id) => old(self).pending@.remove(id),
                None => old(self).pending@,
            }),
            final(self).desired == old(self).desired,
            final(self).next_id == old(self).next_id,
            outcome is Ok ==> r is None,
            outcome is Err ==> (r matches Some(rej) && rej.reason == outcome->Err_0 && (match ack_id {
                Some(id) => if old(self).pending@.contains_key(id) {
                    rej.op == old(self).pending@[id].op && rej.subscription == Some(
                        old(self).pending@[id].subscription,
                    )
                } else {
                    rej.op == Op::Subscribe && rej.subscription is None
                },
                None => rej.op == Op::Subscribe && rej.subscription is None,
            })),
    {
        let entry: Option<Pending> = match ack_id {
            Some(id) => self.pending.remove(&id),
            None => None,
        };
        match outcome {
            Ok(()) => None,
            Err(reason) => {
                let (op, subscription) = match entry {
                    Some(p) => (p.op, Some(p.subscription)),
                    None => (Op::Subscribe, None),
                };
                Some(Rejection { op, subscription, reason })
            },
        }
    }

    /// Prepares the replay onto a replacement connection: acknowledgements owed by the old
    /// connection are dropped, and every desired selector is subscribed again under a fresh
    /// id, in order. Returns the ids and frames to send.
    pub fn replay(&mut self) -> (frames: Vec<(u64, String)>)
        requires
            old(self).next_id + old(self).desired@.len() <= u64::MAX,
        ensures
            frames@.len() == old(self).desired@.len(),
            final(self).next_id == old(self).next_id + old(self).desired@.len(),
            final(self).desired == old(self).desired,
            forall|i: int|
                0 <= i < frames@.len() ==> {
                    &&& #[trigger] frames@[i].0 == old(self).next_id + 1 + i
                    &&& frames@[i].1@ == old(self).desired@[i].request_json(Op::Subscribe, frames@[i].0)
                    &&& final(self).pending@.contains_key(frames@[i].0)
                    &&& final(self).pending@[frames@[i].0].op == Op::Subscribe
                    &&& final(self).pending@[frames@[i].0].subscription@ == old(self).desired@[i]@
                },
            final(self).pending@.dom().len() == old(self).desired@.len(),
            forall|id: u64| #[trigger]
                final(self).pending@.contains_key(id) ==> old(self).next_id < id <= old(
                    self,
                ).next_id + old(self).desired@.len(),
    {
        self.pending.clear();
        let ghost start = self.next_id;
        let mut frames: Vec<(u64, String)> = Vec::new();
        let mut i: usize = 0;
        while i < self.desired.len()
            invariant
                i <= self.desired.len(),
                self.desired == old(self).desired,
                start == old(self).next_id,
                start + self.desired@.len() <= u64::MAX,
                self.next_id == start + i,
                frames@.len() == i,
                self.pending@.dom().finite(),
                self.pending@.dom().len() == i,
                forall|j: int|
                    0 <= j < i ==> {
                        &&& #[trigger] frames@[j].0 == start + 1 + j
                        &&& frames@[j].1@ == self.desired@[j].request_json(Op::Subscribe, frames@[j].0)
                        &&& self.pending@.contains_key(frames@[j].0)
                        &&& self.pending@[frames@[j].0].op == Op::Subscribe
                        &&& self.pending@[frames@[j].0].subscription@ == self.desired@[j]@
                    },
                forall|id: u64| #[trigger]
                    self.pending@.contains_key(id) ==> start < id <= start + i,
            decreases self.desired.len() - i,
        {
            let subscription = self.desired[i].duplicate();
            let id = self.take_id();
            let text = subscription.to_request(Op::Subscribe, id);
            proof {
                lemma_request_json_by_view(subscription, self.desired@[i as int], Op::Subscribe, id);
                assert(!self.pending@.contains_key(id));
            }
            self.pending.insert(id, Pending { op: Op::Subscribe, subscription });
            frames.push((id, text));
            i = i + 1;
        }
        frames
    }
}

/// Selectors with the same value produce the same request frames.
proof fn lemma_request_json_by_view(a: Subscription, b: Subscription, op: Op, id: u64)
    requires
        a@ == b@,
    ensures
        a.request_json(op, id) == b.request_json(op, id),
{
    match (a, b) {
        (Subscription::Candle(x), Subscription::Candle(y)) => {},
        (Subscription::Trade(x), Subscription::Trade(y)) => {
            lemma_symbols_json_by_view(x, y);
        },
        (Subscription::Ticker(x), Subscription::Ticker(y)) => {
            lemma_symbols_json_by_view(x, y);
        },
        _ => {},
    }
}

/// Wanting a selector twice sends it once: after a first `want`, whether it added the
/// selector or found it there, the desired list holds it, so a second `want` reports nothing
/// to do; and a list without repeats stays without repeats.
pub proof fn lemma_want_is_idempotent(desired: Seq<SubscriptionKey>, s: SubscriptionKey)
    ensures
        ({
            let after = if desired.contains(s) {
                desired
            } else {
                desired.push(s)
            };
            &&& after.contains(s)
            &&& (desired.no_duplicates() ==> after.no_duplicates())
        }),
{
    if !desired.contains(s) {
        assert(desired.push(s)[desired.len() as int] == s);
        if desired.no_duplicates() {
            assert forall|i: int, j: int|
                0 <= i < desired.push(s).len() && 0 <= j < desired.push(s).len() && i != j implies desired.push(s)[i]
                != desired.push(s)[j] by {
                if i < desired.len() && j < desired.len() {
                } else if i < desired.len() {
                    assert(desired[i] != s);
                } else {
                    assert(desired[j] != s);
                }
            }
        }
    }
}

/// How an inbound text frame is to be handled.
#[derive(Debug, Clone, Copy, PartialEq, Eq, Structural)]
pub enum FrameKind {
    /// The transport's marker for a replacement connection.
    Reconnected,
    /// A keepalive in either direction.
    Heartbeat,
    /// An acknowledgement of a subscribe or unsubscribe.
    Ack,
    /// A push on the candle channel.
    Candle,
    /// A push on the trade channel.
    Trades,
    /// A push on the ticker channel.
    Tickers,
    /// Well-formed but unhandled: an unknown op or channel.
    Unrecognized,
}

/// The frame kind, given whether the frame is the reconnect marker and the frame's `op` and
/// `channel` fields. Acknowledgements carry `op`; channel pushes carry `channel`.
pub open spec fn spec_classify(
    reconnect_marker: bool,
    op: Option<Seq<char>>,
    channel: Option<Seq<char>>,
) -> FrameKind {
    if reconnect_marker {
        FrameKind::Reconnected
    } else if op is Some {
        let o = op->0;
        if o == "ping"@ || o == "pong"@ {
            FrameKind::Heartbeat
        } else if o == "subscribe"@ || o == "unsubscribe"@ {
            FrameKind::Ack
        } else {
            FrameKind::Unrecognized
        }
    } else if channel == Some(CandleParams::CHANNEL@) {
        FrameKind::Candle
    } else if channel == Some(SymbolsParams::TRADE@) {
        FrameKind::Trades
    } else if channel == Some(SymbolsParams::TICKER@) {
        FrameKind::Tickers
    } else {
        FrameKind::Unrecognized
    }
}

/// Sorts an inbound frame by its marker, `op` and `channel` fields.
pub fn classify_frame(reconnect_marker: bool, op: Option<&str>, channel: Option<&str>) -> (k:
    FrameKind)
    ensures
        k == spec_classify(
            reconnect_marker,
            match op {
                Some(o) => Some(o@),
                None => None,
            },
            match channel {
                Some(c) => Some(c@),
                None => None,
            },
        ),
{
    if reconnect_marker {
        return FrameKind::Reconnected;
    }
    match op {
        Some(o) => {
            if str_eq(o, "ping") || str_eq(o, "pong") {
                FrameKind::Heartbeat
            } else if str_eq(o, "subscribe") || str_eq(o, "unsubscribe") {
                FrameKind::Ack
            } else {
                FrameKind::Unrecognized
            }
        },
        None => match channel {
            Some(c) => {
                if str_eq(c, CandleParams::CHANNEL) {
                    FrameKind::Candle
                } else if str_eq(c, SymbolsParams::TRADE) {
                    FrameKind::Trades
                } else if str_eq(c, SymbolsParams::TICKER) {
                    FrameKind::Tickers
                } else {
                    FrameKind::Unrecognized
                }
            },
            None => FrameKind::Unrecognized,
        },
    }
}

/// Failure modes of the streaming client.
#[derive(Debug, Clone, PartialEq, Eq)]
pub enum WsError {
    /// A send before the client connected.
    NotConnected,
    /// A probe interval, in seconds, that leaves no room to detect a dead link in time.
    ProbeIntervalTooLong(u64),
    /// The transport failed.
    Transport(String),
}

/// What a streaming error says.
pub open spec fn ws_error_message(e: WsError) -> Seq<char> {
    match e {
        WsError::NotConnected => "web socket client is not connected"@,
        WsError::ProbeIntervalTooLong(secs) => "probe interval of "@ + decimal(secs as nat)
            + "s leaves no room for a ping and its reply before the venue drops an idle connection; it must stay under half the idle limit"@,
        WsError::Transport(t) => "transport failed: "@ + t@,
    }
}

impl WsError {
    /// The error as text.
    pub fn message(&self) -> (s: String)
        ensures
            s@ == ws_error_message(*self),
    {
        match self {
            WsError::NotConnected => owned("web socket client is not connected"),
            WsError::ProbeIntervalTooLong(secs) => {
                let mut s = owned("probe interval of ");
                let digits = u64_decimal(*secs);
                push_str(&mut s, digits.as_str());
                push_str(
                    &mut s,
                    "s leaves no room for a ping and its reply before the venue drops an idle connection; it must stay under half the idle limit",
                );
                s
            },
            WsError::Transport(t) => {
                let mut s = owned("transport failed: ");
                push_str(&mut s, t.as_str());
                s
            },
        }
    }
}

/// The streaming client's own state for one network and market: where it connects, how
/// often it probes an idle link, and its subscription bookkeeping. The connection itself is
/// the transport's.
#[derive(Debug)]
pub struct SodexWebSocketClient {
    url: String,
    probe_interval_secs: u64,
    state: State,
}

/// What a streaming client holds.
pub struct WsClientView {
    pub url: Seq<char>,
    pub probe_interval_secs: u64,
    pub desired: Seq<SubscriptionKey>,
    pub pending: Map<u64, Pending>,
    pub next_id: u64,
}

impl View for SodexWebSocketClient {
    type V = WsClientView;

    closed spec fn view(&self) -> WsClientView {
        WsClientView {
            url: self.url@,
            probe_interval_secs: self.probe_interval_secs,
            desired: keys(self.state.desired@),
            pending: self.state.pending@,
            next_id: self.state.next_id,
        }
    }
}

impl SodexWebSocketClient {
    #[verifier::type_invariant]
    spec fn sound(self) -> bool {
        &&& spec_probe_sound(self.probe_interval_secs, SERVER_IDLE_DISCONNECT_SECS)
        &&& self.state.wf()
    }

    /// A client for one network and market, probing at the default interval.
    pub fn new(network: Network, market: Market) -> (c: Self)
        ensures
            c@.url == spec_stream_url(network, market),
            c@.probe_interval_secs == DEFAULT_IDLE_PROBE_SECS,
            c@.desired.len() == 0,
            c@.pending == Map::<u64, Pending>::empty(),
            c@.next_id == 0,
    {
        let state = State::default();
        proof {
            assert(keys(state.desired@) =~= Seq::<SubscriptionKey>::empty());
        }
        SodexWebSocketClient {
            url: stream_url(network, market),
            probe_interval_secs: DEFAULT_IDLE_PROBE_SECS,
            state,
        }
    }

    /// Overrides how long the client waits before probing an idle link; an interval that
    /// leaves no room for a ping and its reply before the venue hangs up is refused.
    pub fn with_probe_interval_secs(self, probe_secs: u64) -> (r: Result<Self, WsError>)
        ensures
            spec_probe_sound(probe_secs, SERVER_IDLE_DISCONNECT_SECS) ==> (r matches Ok(c) && c@
                == (WsClientView { probe_interval_secs: probe_secs, ..self@ })),
            !spec_probe_sound(probe_secs, SERVER_IDLE_DISCONNECT_SECS) ==> r == Err::<Self, WsError>(
                WsError::ProbeIntervalTooLong(probe_secs),
            ),
    {
        proof {
            use_type_invariant(&self);
        }
        if !probe_interval_is_sound(probe_secs) {
            return Err(WsError::ProbeIntervalTooLong(probe_secs));
        }
        let SodexWebSocketClient { url, probe_interval_secs: _, state } = self;
        Ok(SodexWebSocketClient { url, probe_interval_secs: probe_secs, state })
    }

    /// The stream URL.
    pub fn url(&self) -> (u: &str)
        ensures
            u@ == self@.url,
    {
        self.url.as_str()
    }

    /// Seconds of silence before the transport sends a keepalive.
    pub fn heartbeat_interval_secs(&self) -> (s: u64)
        ensures
            s == self@.probe_interval_secs,
    {
        self.probe_interval_secs
    }

    /// Seconds before a link is declared dead: one probe interval for the ping and one for
    /// its reply, inside the venue's idle limit.
    pub fn heartbeat_timeout_secs(&self) -> (s: u64)
        ensures
            s == 2 * self@.probe_interval_secs,
            s < SERVER_IDLE_DISCONNECT_SECS,
    {
        proof {
            use_type_invariant(self);
        }
        self.probe_interval_secs * 2
    }

    /// The keepalive the transport sends: the venue's text `ping`, not an empty control
    /// frame, which this venue does not count as activity.
    pub fn heartbeat_payload(&self) -> (s: String)
        ensures
            s@ == "{\"op\":"@ + json_string("ping"@) + "}"@,
    {
        Heartbeat::ping().to_json()
    }

    /// The most recently issued request id; the next one is one more.
    pub fn last_request_id(&self) -> (n: u64)
        ensures
            n == self@.next_id,
    {
        self.state.next_id
    }

    /// How many selectors this client wants subscribed.
    pub fn wanted_count(&self) -> (n: usize)
        ensures
            n == self@.desired.len(),
    {
        self.state.desired.len()
    }

    /// The selectors this client wants subscribed, in order.
    pub fn subscriptions(&self) -> (v: Vec<Subscription>)
        ensures
            keys(v@) == self@.desired,
    {
        let mut v: Vec<Subscription> = Vec::new();
        let mut i: usize = 0;
        while i < self.state.desired.len()
            invariant
                i <= self.state.desired@.len(),
                keys(v@) == keys(self.state.desired@).take(i as int),
            decreases self.state.desired@.len() - i,
        {
            let ghost before = v@;
            v.push(self.state.desired[i].duplicate());
            proof {
                assert(keys(v@) =~= keys(before).push(self.state.desired@[i as int]@));
                assert(keys(self.state.desired@).take(i + 1) =~= keys(self.state.desired@).take(
                    i as int,
                ).push(keys(self.state.desired@)[i as int]));
            }
            i = i + 1;
        }
        proof {
            assert(keys(self.state.desired@).take(i as int) =~= keys(self.state.desired@));
        }
        v
    }

    /// Subscribes to a feed: the request id and frame to send, or nothing when the feed is
    /// already wanted.
    pub fn subscribe(&mut self, subscription: Subscription) -> (r: Option<(u64, String)>)
        requires
            old(self)@.next_id < u64::MAX,
        ensures
            old(self)@.desired.contains(subscription@) ==> r is None && final(self)@ == old(self)@,
            !old(self)@.desired.contains(subscription@) ==> (r matches Some((id, frame)) && id
                == old(self)@.next_id + 1 && frame@ == subscription.request_json(Op::Subscribe, id)
                && final(self)@.desired == old(self)@.desired.push(subscription@) && final(self)@.pending
                == old(self)@.pending.insert(id, Pending { op: Op::Subscribe, subscription })
                && final(self)@.next_id == id),
            final(self)@.url == old(self)@.url,
            final(self)@.probe_interval_secs == old(self)@.probe_interval_secs,
    {
        proof {
            use_type_invariant(&*self);
        }
        let mut state = State::default();
        std::mem::swap(&mut state, &mut self.state);
        let r = if state.want(&subscription) {
            Some(state.record_request(Op::Subscribe, subscription))
        } else {
            None
        };
        self.state = state;
        r
    }

    /// Unsubscribes from a feed: the request id and frame to send, or nothing when the feed
    /// is not wanted.
    pub fn unsubscribe(&mut self, subscription: &Subscription) -> (r: Option<(u64, String)>)
        requires
            old(self)@.next_id < u64::MAX,
        ensures
            !old(self)@.desired.contains(subscription@) ==> r is None && final(self)@ == old(self)@,
            old(self)@.desired.contains(subscription@) ==> (r matches Some((id, frame)) && id
                == old(self)@.next_id + 1 && frame@ == subscription.request_json(Op::Unsubscribe, id)
                && !final(self)@.desired.contains(subscription@) && final(self)@.next_id == id
                && final(self)@.desired == old(self)@.desired.remove(
                    old(self)@.desired.index_of(subscription@),
                ) && final(self)@.pending == old(self)@.pending.insert(id, final(self)@.pending[id])
                && final(self)@.pending[id].op == Op::Unsubscribe
                && final(self)@.pending[id].subscription@ == subscription@),
            final(self)@.url == old(self)@.url,
            final(self)@.probe_interval_secs == old(self)@.probe_interval_secs,
    {
        proof {
            use_type_invariant(&*self);
        }
        let mut state = State::default();
        std::mem::swap(&mut state, &mut self.state);
        let ghost before = state.desired@;
        let r = if state.unwant(subscription) {
            proof {
                let i = choose|i: int|
                    0 <= i < before.len() && keys(before)[i] == subscription@ && state.desired@
                        == before.remove(i);
                let c = keys(before).index_of(subscription@);
                assert(keys(before)[i] == subscription@);
                assert(keys(before).contains(subscription@));
                assert(keys(before)[c] == subscription@);
                assert(c == i);
                assert(keys(state.desired@) =~= keys(before).remove(i));
            }
            let copy = subscription.duplicate();
            let ghost c = copy;
            let sent = state.record_request(Op::Unsubscribe, copy);
            proof {
                lemma_request_json_by_view(c, *subscription, Op::Unsubscribe, sent.0);
            }
            Some(sent)
        } else {
            None
        };
        self.state = state;
        r
    }

    /// Forgets a request whose frame never reached the venue.
    pub fn send_failed(&mut self, id: u64)
        ensures
            final(self)@ == (WsClientView { pending: old(self)@.pending.remove(id), ..old(self)@ }),
    {
        proof {
            use_type_invariant(&*self);
        }
        let mut state = State::default();
        std::mem::swap(&mut state, &mut self.state);
        state.forget_request(id);
        self.state = state;
    }

    /// Matches an acknowledgement to its request, as [`State::resolve_ack`] does.
    pub fn acknowledged(&mut self, ack_id: Option<u64>, outcome: Result<(), String>) -> (r: Option<
        Rejection,
    >)
        ensures
            final(self)@ == (WsClientView {
                pending: match ack_id {
                    Some(id) => old(self)@.pending.remove(id),
                    None => old(self)@.pending,
                },
                ..old(self)@
            }),
            outcome is Ok ==> r is None,
            outcome is Err ==> (r matches Some(rej) && rej.reason == outcome->Err_0 && (match ack_id {
                Some(id) => if old(self)@.pending.contains_key(id) {
                    rej.op == old(self)@.pending[id].op && rej.subscription == Some(
                        old(self)@.pending[id].subscription,
                    )
                } else {
                    rej.op == Op::Subscribe && rej.subscription is None
                },
                None => rej.op == Op::Subscribe && rej.subscription is None,
            })),
    {
        proof {
            use_type_invariant(&*self);
        }
        let mut state = State::default();
        std::mem::swap(&mut state, &mut self.state);
        let r = state.resolve_ack(ack_id, outcome);
        self.state = state;
        r
    }

    /// The frames that replay the wanted feeds onto a replacement connection, as
    /// [`State::replay`] prepares them.
    pub fn reconnected(&mut self) -> (frames: Vec<(u64, String)>)
        requires
            old(self)@.next_id + old(self)@.desired.len() <= u64::MAX,
        ensures
            frames@.len() == old(self)@.desired.len(),
            final(self)@.desired == old(self)@.desired,
            final(self)@.next_id == old(self)@.next_id + old(self)@.desired.len(),
            final(self)@.pending.dom().len() == old(self)@.desired.len(),
            forall|i: int|
                0 <= i < frames@.len() ==> {
                    &&& #[trigger] frames@[i].0 == old(self)@.next_id + 1 + i
                    &&& frames@[i].1@ == key_request_json(
                        old(self)@.desired[i],
                        Op::Subscribe,
                        frames@[i].0,
                    )
                    &&& final(self)@.pending.contains_key(frames@[i].0)
                    &&& final(self)@.pending[frames@[i].0].op == Op::Subscribe
                    &&& final(self)@.pending[frames@[i].0].subscription@ == old(self)@.desired[i]
                },
            final(self)@.url == old(self)@.url,
            final(self)@.probe_interval_secs == old(self)@.probe_interval_secs,
    {
        proof {
            use_type_invariant(&*self);
        }
        let mut state = State::default();
        std::mem::swap(&mut state, &mut self.state);
        let ghost before = state.desired@;
        let frames = state.replay();
        proof {
            assert forall|i: int| 0 <= i < frames@.len() implies #[trigger] frames@[i].1@
                == key_request_json(keys(before)[i], Op::Subscribe, frames@[i].0) by {
                lemma_request_json_is_by_key(before[i], Op::Subscribe, frames@[i].0);
            }
        }
        self.state = state;
        frames
    }
}

} // verus!
