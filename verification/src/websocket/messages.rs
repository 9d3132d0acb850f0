//! WebSocket wire protocol types.
use vstd::prelude::*;

use crate::common::enums::OrderSide;
use crate::json::{json_array, json_items, opt_decimal, opt_member, push_array, push_lit, push_opt_u64, ToJson};
use crate::text::{json_string, owned, push_json_string, push_str, str_eq};

verus! {

/// Operations the client can send.
#[derive(Debug, Clone, Copy, PartialEq, Eq, Structural)]
pub enum Op {
    Subscribe,
    Unsubscribe,
    Ping,
    Pong,
}

impl Op {
    /// The lowercase name the venue uses.
    pub open spec fn spec_text(self) -> Seq<char> {
        match self {
            Op::Subscribe => "subscribe"@,
            Op::Unsubscribe => "unsubscribe"@,
            Op::Ping => "ping"@,
            Op::Pong => "pong"@,
        }
    }

    /// The lowercase name the venue uses.
    pub fn as_str(self) -> (s: &'static str)
        ensures
            s@ == self.spec_text(),
    {
        match self {
            Op::Subscribe => "subscribe",
            Op::Unsubscribe => "unsubscribe",
            Op::Ping => "ping",
            Op::Pong => "pong",
        }
    }

    /// The operation with the given name, if any.
    pub fn from_name(name: &str) -> (r: Option<Op>)
        ensures
            r matches Some(op) ==> op.spec_text() == name@,
            r is None ==> (forall|op: Op| op.spec_text() != name@),
    {
        proof {
            reveal_strlit("subscribe");
            reveal_strlit("unsubscribe");
            reveal_strlit("ping");
            reveal_strlit("pong");
        }
        if str_eq(name, "subscribe") {
            Some(Op::Subscribe)
        } else if str_eq(name, "unsubscribe") {
            Some(Op::Unsubscribe)
        } else if str_eq(name, "ping") {
            Some(Op::Ping)
        } else if str_eq(name, "pong") {
            Some(Op::Pong)
        } else {
            proof {
                assert forall|op: Op| op.spec_text() != name@ by {
                    match op {
                        Op::Subscribe => {},
                        Op::Unsubscribe => {},
                        Op::Ping => {},
                        Op::Pong => {},
                    }
                }
            }
            None
        }
    }
}

/// A client request. `op` selects the operation; `params` carries the channel selector.
/// `id` is echoed in the acknowledgement, the only way to correlate the two.
#[derive(Debug, Clone)]
pub struct WsRequest<P> {
    pub op: Op,
    pub id: Option<u64>,
    pub params: P,
}

impl<P: ToJson> ToJson for WsRequest<P> {
    open spec fn json(&self) -> Seq<char> {
        "{\"op\":"@ + json_string(self.op.spec_text()) + opt_member(
            ",\"id\":"@,
            opt_decimal(self.id),
        ) + ",\"params\":"@ + self.params.json() + "}"@
    }

    fn write_json(&self, out: &mut String) {
        let ghost start = out@;
        push_lit(out, "{\"op\":");
        push_json_string(out, self.op.as_str());
        push_opt_u64(out, ",\"id\":", self.id);
        push_lit(out, ",\"params\":");
        self.params.write_json(out);
        push_lit(out, "}");
        proof {
            assert(out@ =~= start + self.json());
        }
    }
}

impl<P: ToJson> WsRequest<P> {
    /// The exact frame text.
    pub fn to_json(&self) -> (s: String)
        ensures
            s@ == self.json(),
    {
        let mut out = String::new();
        self.write_json(&mut out);
        proof {
            assert(out@ =~= self.json());
        }
        out
    }
}

/// A bare `{"op":"ping"}` frame, without `params`.
#[derive(Debug, Clone, Copy)]
pub struct Heartbeat {
    pub op: Op,
}

impl Heartbeat {
    pub fn ping() -> (h: Self)
        ensures
            h.op == Op::Ping,
    {
        Heartbeat { op: Op::Ping }
    }

    /// The exact frame text.
    pub fn to_json(&self) -> (s: String)
        ensures
            s@ == "{\"op\":"@ + json_string(self.op.spec_text()) + "}"@,
    {
        let mut out = owned("{\"op\":");
        push_json_string(&mut out, self.op.as_str());
        push_lit(&mut out, "}");
        out
    }
}

/// Placeholder reason for a failure the venue reported without a message.
pub const FAILURE_WITHOUT_MESSAGE: &'static str = "venue reported failure without an error message";

/// Acknowledgement of a subscribe or unsubscribe. `success` is authoritative: a `false`
/// carries the reason in `error`, and the echoed `result` may be absent.
#[derive(Debug, Clone)]
pub struct WsAck<R> {
    pub op: Op,
    pub id: Option<u64>,
    pub result: Option<R>,
    pub success: bool,
    pub conn_id: Option<String>,
    pub error: Option<String>,
    pub time_in: Option<u64>,
    pub time_out: Option<u64>,
}

impl<R> WsAck<R> {
    /// The echoed selector on success; otherwise the venue's error text, or a placeholder
    /// when the venue reported failure without a message.
    pub fn into_result(self) -> (r: Result<Option<R>, String>)
        ensures
            self.success ==> r == Ok::<Option<R>, String>(self.result),
            !self.success && self.error is Some ==> r == Err::<Option<R>, String>(self.error->0),
            !self.success && self.error is None ==> (r matches Err(s) && s@
                == FAILURE_WITHOUT_MESSAGE@),
    {
        if self.success {
            Ok(self.result)
        } else {
            match self.error {
                Some(e) => Err(e),
                None => Err(owned(FAILURE_WITHOUT_MESSAGE)),
            }
        }
    }
}

/// Subscription selector for the candle channel. Doubles as the unsubscribe selector: the
/// venue matches an unsubscribe against the subscribed params field for field.
#[derive(Debug, Clone, PartialEq, Eq)]
pub struct CandleParams {
    pub channel: String,
    pub symbol: String,
    pub interval: String,
}

impl View for CandleParams {
    type V = (Seq<char>, Seq<char>, Seq<char>);

    open spec fn view(&self) -> (Seq<char>, Seq<char>, Seq<char>) {
        (self.channel@, self.symbol@, self.interval@)
    }
}

impl CandleParams {
    /// Channel name as the venue spells it.
    pub const CHANNEL: &'static str = "candle";

    pub fn new(symbol: &str, interval: &str) -> (p: Self)
        ensures
            p@ == (Self::CHANNEL@, symbol@, interval@),
    {
        CandleParams { channel: owned(Self::CHANNEL), symbol: owned(symbol), interval: owned(interval) }
    }

    /// A field-for-field copy.
    pub fn duplicate(&self) -> (p: Self)
        ensures
            p@ == self@,
    {
        CandleParams {
            channel: self.channel.clone(),
            symbol: self.symbol.clone(),
            interval: self.interval.clone(),
        }
    }

    /// Whether two selectors name the same feed.
    pub fn same_as(&self, other: &Self) -> (b: bool)
        ensures
            b == (self@ == other@),
    {
        str_eq(self.channel.as_str(), other.channel.as_str()) && str_eq(
            self.symbol.as_str(),
            other.symbol.as_str(),
        ) && str_eq(self.interval.as_str(), other.interval.as_str())
    }
}

impl ToJson for CandleParams {
    open spec fn json(&self) -> Seq<char> {
        "{\"channel\":"@ + json_string(self.channel@) + ",\"symbol\":"@ + json_string(self.symbol@)
            + ",\"interval\":"@ + json_string(self.interval@) + "}"@
    }

    fn write_json(&self, out: &mut String) {
        let ghost start = out@;
        push_lit(out, "{\"channel\":");
        push_json_string(out, self.channel.as_str());
        push_lit(out, ",\"symbol\":");
        push_json_string(out, self.symbol.as_str());
        push_lit(out, ",\"interval\":");
        push_json_string(out, self.interval.as_str());
        push_lit(out, "}");
        proof {
            assert(out@ =~= start + self.json());
        }
    }
}

/// A symbol name as a JSON value.
impl ToJson for String {
    open spec fn json(&self) -> Seq<char> {
        json_string(self@)
    }

    fn write_json(&self, out: &mut String) {
        push_json_string(out, self.as_str());
    }
}

/// The characters of each string.
pub open spec fn views(v: Seq<String>) -> Seq<Seq<char>> {
    v.map_values(|s: String| s@)
}

/// Subscription selector for the channels keyed by symbol list (`trade`, `ticker`).
#[derive(Debug, Clone, PartialEq, Eq)]
pub struct SymbolsParams {
    pub channel: String,
    pub symbols: Vec<String>,
}

impl View for SymbolsParams {
    type V = (Seq<char>, Seq<Seq<char>>);

    open spec fn view(&self) -> (Seq<char>, Seq<Seq<char>>) {
        (self.channel@, views(self.symbols@))
    }
}

impl SymbolsParams {
    /// Public trade channel.
    pub const TRADE: &'static str = "trade";

    /// 24-hour rolling statistics with top of book.
    pub const TICKER: &'static str = "ticker";

    pub fn new(channel: &str, symbols: Vec<String>) -> (p: Self)
        ensures
            p.channel@ == channel@,
            p.symbols == symbols,
    {
        SymbolsParams { channel: owned(channel), symbols }
    }

    /// One symbol on the trade channel.
    pub fn trade(symbol: &str) -> (p: Self)
        ensures
            p@ == (Self::TRADE@, seq![symbol@]),
    {
        let p = Self::new(Self::TRADE, vec![owned(symbol)]);
        proof {
            assert(views(p.symbols@) =~= seq![symbol@]);
        }
        p
    }

    /// One symbol on the ticker channel.
    pub fn ticker(symbol: &str) -> (p: Self)
        ensures
            p@ == (Self::TICKER@, seq![symbol@]),
    {
        let p = Self::new(Self::TICKER, vec![owned(symbol)]);
        proof {
            assert(views(p.symbols@) =~= seq![symbol@]);
        }
        p
    }

    /// The single symbol this selector names, if it names exactly one.
    pub fn sole_symbol(&self) -> (r: Option<&str>)
        ensures
            self.symbols@.len() == 1 ==> (r matches Some(s) && s@ == self.symbols@[0]@),
            self.symbols@.len() != 1 ==> r is None,
    {
        if self.symbols.len() == 1 {
            Some(self.symbols[0].as_str())
        } else {
            None
        }
    }

    /// A field-for-field copy.
    pub fn duplicate(&self) -> (p: Self)
        ensures
            p@ == self@,
    {
        let mut symbols: Vec<String> = Vec::new();
        let mut i: usize = 0;
        while i < self.symbols.len()
            invariant
                i <= self.symbols.len(),
                views(symbols@) == views(self.symbols@.take(i as int)),
            decreases self.symbols.len() - i,
        {
            let c = owned(self.symbols[i].as_str());
            proof {
                assert(self.symbols@.take(i + 1) == self.symbols@.take(i as int).push(self.symbols@[i as int]));
                assert(views(symbols@.push(c)) =~= views(symbols@).push(c@));
                assert(views(self.symbols@.take(i as int).push(self.symbols@[i as int])) =~= views(self.symbols@.take(i as int)).push(self.symbols@[i as int]@));
            }
            symbols.push(c);
            i = i + 1;
        }
        proof {
            assert(self.symbols@.take(self.symbols.len() as int) == self.symbols@);
        }
        SymbolsParams { channel: self.channel.clone(), symbols }
    }

    /// Whether two selectors name the same feed.
    pub fn same_as(&self, other: &Self) -> (b: bool)
        ensures
            b == (self@ == other@),
    {
        if !str_eq(self.channel.as_str(), other.channel.as_str()) {
            return false;
        }
        if self.symbols.len() != other.symbols.len() {
            proof {
                assert(views(self.symbols@).len() != views(other.symbols@).len());
            }
            return false;
        }
        let mut i: usize = 0;
        while i < self.symbols.len()
            invariant
                i <= self.symbols.len(),
                self.symbols.len() == other.symbols.len(),
                self.channel@ == other.channel@,
                forall|j: int| 0 <= j < i ==> self.symbols@[j]@ == other.symbols@[j]@,
            decreases self.symbols.len() - i,
        {
            if !str_eq(self.symbols[i].as_str(), other.symbols[i].as_str()) {
                proof {
                    assert(views(self.symbols@)[i as int] != views(other.symbols@)[i as int]);
                }
                return false;
            }
            i = i + 1;
        }
        proof {
            assert(views(self.symbols@) =~= views(other.symbols@));
        }
        true
    }
}

impl ToJson for SymbolsParams {
    open spec fn json(&self) -> Seq<char> {
        "{\"channel\":"@ + json_string(self.channel@) + ",\"symbols\":"@ + json_array(
            json_items(self.symbols@),
        ) + "}"@
    }

    fn write_json(&self, out: &mut String) {
        let ghost start = out@;
        push_lit(out, "{\"channel\":");
        push_json_string(out, self.channel.as_str());
        push_lit(out, ",\"symbols\":");
        push_array(out, &self.symbols);
        push_lit(out, "}");
        proof {
            assert(out@ =~= start + self.json());
        }
    }
}

/// One public trade. Prices and sizes stay as decimal strings.
#[derive(Debug, Clone, PartialEq, Eq)]
pub struct Trade {
    /// Time the venue produced this frame, milliseconds.
    pub event_time_ms: u64,
    /// Time the trade occurred, milliseconds.
    pub trade_time_ms: u64,
    pub trade_id: u64,
    pub symbol: String,
    /// The aggressing side: `BUY` prints at the ask, so this names the taker.
    pub side: OrderSide,
    pub price: String,
    pub quantity: String,
    /// Buyer's account id.
    pub buyer_account_id: u64,
    /// Seller's account id.
    pub seller_account_id: u64,
}

/// A push frame carrying channel data.
#[derive(Debug, Clone)]
pub struct WsUpdate<T> {
    pub channel: String,
    pub update_type: String,
    pub data: T,
}

/// One OHLC bar, prices and sizes kept as the venue's decimal strings.
#[derive(Debug, Clone, PartialEq, Eq)]
pub struct Candle {
    /// Bar open time, milliseconds.
    pub open_time_ms: u64,
    /// Time this update was produced, milliseconds. Moves within an open bar.
    pub update_time_ms: u64,
    pub symbol: String,
    pub interval: String,
    pub open: String,
    pub high: String,
    pub low: String,
    pub close: String,
    /// Base-asset volume.
    pub volume: String,
    /// Quote-asset volume.
    pub quote_volume: String,
    /// Trades in the bar.
    pub trade_count: u64,
    /// Whether the bar has closed. Only closed bars are safe to trade on: the channel
    /// republishes the forming bar on every block.
    pub closed: bool,
}

impl Candle {
    /// Whether this bar is final and therefore safe to act on.
    pub fn is_final(&self) -> (b: bool)
        ensures
            b == self.closed,
    {
        self.closed
    }
}

} // verus!
