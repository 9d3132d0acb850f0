//! WebSocket streams.
//!
//! Streams carry no authorization: any client may subscribe to any account's data, so
//! account activity on this venue is not private.
//!
//! The venue drops a connection after 60 seconds without a subscription or pushed data, so
//! silence is indistinguishable from a dead link and must be probed. [`Keepalive`] resets on
//! any inbound frame, pings once idle, and calls for a reconnect if the pong does not arrive.
use vstd::prelude::*;

pub mod client;
pub mod messages;

use crate::common::Market;
use crate::http::Network;
use crate::signing::nonce::sat_sub;
use crate::text::{owned, push_char, push_str};

verus! {

/// How long the venue tolerates silence before dropping the connection.
pub const SERVER_IDLE_DISCONNECT_MS: u64 = 60_000;

/// The same threshold in whole seconds.
pub const SERVER_IDLE_DISCONNECT_SECS: u64 = 60;

/// Default idle period before probing with a ping. A detection cycle costs two of these,
/// one waiting for traffic and one waiting for the pong, so it stays under half the
/// disconnect threshold.
pub const DEFAULT_IDLE_PROBE_MS: u64 = 20_000;

/// The default probe period in whole seconds.
pub const DEFAULT_IDLE_PROBE_SECS: u64 = 20;

/// Whether a probe interval leaves room for a ping and its reply before the venue hangs up.
pub open spec fn spec_probe_sound(probe: u64, limit: u64) -> bool {
    probe > 0 && probe * 2 < limit
}

/// Whether a probe interval in seconds leaves room for a ping and its reply before the venue
/// drops an idle connection.
pub fn probe_interval_is_sound(probe_secs: u64) -> (b: bool)
    ensures
        b == spec_probe_sound(probe_secs, SERVER_IDLE_DISCONNECT_SECS),
{
    probe_secs > 0 && probe_secs <= (SERVER_IDLE_DISCONNECT_SECS - 1) / 2
}

pub open spec fn spec_stream_url(network: Network, market: Market) -> Seq<char> {
    network.spec_ws_base() + seq!['/'] + market.spec_path_segment()
}

/// WebSocket URL for one network and market.
pub fn stream_url(network: Network, market: Market) -> (s: String)
    ensures
        s@ == spec_stream_url(network, market),
{
    let mut s = owned(network.ws_base());
    push_char(&mut s, '/');
    push_str(&mut s, market.path_segment());
    s
}

/// What the connection should do next.
#[derive(Debug, Clone, Copy, PartialEq, Eq, Structural)]
pub enum KeepaliveAction {
    /// Traffic is recent enough; do nothing.
    Idle,
    /// Silent for a full probe period; send a ping.
    SendPing,
    /// A ping went unanswered for a full probe period; the link is presumed dead.
    Reconnect,
}

/// The state a [`Keepalive`] tracks.
#[derive(Debug, Clone, Copy, PartialEq, Eq)]
pub struct KeepaliveState {
    pub probe_after_ms: u64,
    pub last_inbound_ms: u64,
    pub ping_sent_at_ms: Option<u64>,
}

/// The decision at `now_ms`: with a ping outstanding, reconnect once a full probe period
/// has passed since it was sent; otherwise ping once a full probe period has passed since
/// the last inbound frame. Elapsed time saturates at zero for a clock that steps back.
pub open spec fn spec_poll(s: KeepaliveState, now_ms: u64) -> KeepaliveAction {
    match s.ping_sent_at_ms {
        Some(sent_at) => if sat_sub(now_ms, sent_at) >= s.probe_after_ms {
            KeepaliveAction::Reconnect
        } else {
            KeepaliveAction::Idle
        },
        None => if sat_sub(now_ms, s.last_inbound_ms) >= s.probe_after_ms {
            KeepaliveAction::SendPing
        } else {
            KeepaliveAction::Idle
        },
    }
}

/// Liveness tracker for one connection. Time is supplied by the caller.
#[derive(Debug)]
pub struct Keepalive {
    probe_after_ms: u64,
    last_inbound_ms: u64,
    ping_sent_at_ms: Option<u64>,
}

impl View for Keepalive {
    type V = KeepaliveState;

    closed spec fn view(&self) -> KeepaliveState {
        KeepaliveState {
            probe_after_ms: self.probe_after_ms,
            last_inbound_ms: self.last_inbound_ms,
            ping_sent_at_ms: self.ping_sent_at_ms,
        }
    }
}

impl Keepalive {
    /// The probe interval always leaves room for a ping/pong cycle.
    #[verifier::type_invariant]
    spec fn sound(self) -> bool {
        spec_probe_sound(self.probe_after_ms, SERVER_IDLE_DISCONNECT_MS)
    }

    /// Creates a tracker using [`DEFAULT_IDLE_PROBE_MS`].
    pub fn new(now_ms: u64) -> (k: Self)
        ensures
            k@ == (KeepaliveState {
                probe_after_ms: DEFAULT_IDLE_PROBE_MS,
                last_inbound_ms: now_ms,
                ping_sent_at_ms: None,
            }),
    {
        Self::with_probe_interval(now_ms, DEFAULT_IDLE_PROBE_MS)
    }

    /// Creates a tracker with an explicit probe interval, which must be under half the
    /// venue's disconnect threshold: a longer one could never call for a reconnect before
    /// the venue hung up.
    pub fn with_probe_interval(now_ms: u64, probe_after_ms: u64) -> (k: Self)
        requires
            spec_probe_sound(probe_after_ms, SERVER_IDLE_DISCONNECT_MS),
        ensures
            k@ == (KeepaliveState { probe_after_ms, last_inbound_ms: now_ms, ping_sent_at_ms: None }),
    {
        Keepalive { probe_after_ms, last_inbound_ms: now_ms, ping_sent_at_ms: None }
    }

    /// Records that a frame arrived. Any inbound frame counts, not just a pong.
    pub fn on_inbound(&mut self, now_ms: u64)
        ensures
            final(self)@ == (KeepaliveState {
                last_inbound_ms: now_ms,
                ping_sent_at_ms: None,
                ..old(self)@
            }),
    {
        proof {
            use_type_invariant(&*self);
        }
        self.last_inbound_ms = now_ms;
        self.ping_sent_at_ms = None;
    }

    /// Records that a ping was sent, starting the pong deadline.
    pub fn on_ping_sent(&mut self, now_ms: u64)
        ensures
            final(self)@ == (KeepaliveState { ping_sent_at_ms: Some(now_ms), ..old(self)@ }),
    {
        proof {
            use_type_invariant(&*self);
        }
        self.ping_sent_at_ms = Some(now_ms);
    }

    /// Decides what the connection should do at `now_ms`.
    pub fn poll(&self, now_ms: u64) -> (a: KeepaliveAction)
        ensures
            a == spec_poll(self@, now_ms),
    {
        match self.ping_sent_at_ms {
            Some(sent_at) => {
                if now_ms.saturating_sub(sent_at) >= self.probe_after_ms {
                    KeepaliveAction::Reconnect
                } else {
                    KeepaliveAction::Idle
                }
            },
            None => {
                if now_ms.saturating_sub(self.last_inbound_ms) >= self.probe_after_ms {
                    KeepaliveAction::SendPing
                } else {
                    KeepaliveAction::Idle
                }
            },
        }
    }
}

/// The detection cycle: traffic last seen at `t`, a ping once silence reaches the probe
/// interval, and a reconnect when that ping goes a further interval unanswered, all decided
/// before the venue's idle limit expires. Traffic before the interval elapses keeps the
/// link idle.
pub proof fn lemma_detection_cycle(probe: u64, t: u64)
    requires
        spec_probe_sound(probe, SERVER_IDLE_DISCONNECT_MS),
        t + 2 * probe <= u64::MAX,
    ensures
        ({
            let quiet = KeepaliveState { probe_after_ms: probe, last_inbound_ms: t, ping_sent_at_ms: None };
            let pinged = KeepaliveState { ping_sent_at_ms: Some((t + probe) as u64), ..quiet };
            &&& forall|now: u64| t <= now < t + probe ==> spec_poll(quiet, now) == KeepaliveAction::Idle
            &&& spec_poll(quiet, (t + probe) as u64) == KeepaliveAction::SendPing
            &&& forall|now: u64| t + probe <= now < t + 2 * probe ==> spec_poll(pinged, now) == KeepaliveAction::Idle
            &&& spec_poll(pinged, (t + 2 * probe) as u64) == KeepaliveAction::Reconnect
            &&& t + 2 * probe < t + SERVER_IDLE_DISCONNECT_MS
        }),
{
}

/// An inbound frame clears any outstanding ping and restarts the silence timer.
pub proof fn lemma_inbound_resets(s: KeepaliveState, t: u64, now: u64)
    requires
        t <= now,
        now < t + s.probe_after_ms,
    ensures
        spec_poll(KeepaliveState { last_inbound_ms: t, ping_sent_at_ms: None, ..s }, now)
            == KeepaliveAction::Idle,
{
}

} // verus!
