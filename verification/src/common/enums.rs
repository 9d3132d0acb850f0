//! Venue enumerations.
//!
//! Request fields carry the **integer** form of each value and responses carry the **status
//! string**, so every enumeration maps both ways, and each mapping is proved to round-trip.
//!
//! Several names appear in more than one enumeration with different numbers: `EXPIRED` is 6
//! in [`OrderStatus`] but 7 in [`ExecutionType`], and [`OrderStatus`] jumps from 6 to 10.
//! They are distinct types with no conversion between them.
//!
//! Some variants exist so responses parse but are refused in order placement: `FOK`,
//! [`PositionSide::Long`] / [`PositionSide::Short`], and [`TriggerType::LastPrice`] /
//! [`TriggerType::IndexPrice`]; `is_supported_for_placement` marks them.
use vstd::prelude::*;

use crate::text::str_eq;

verus! {

/// Order direction.
#[derive(Debug, Clone, Copy, PartialEq, Eq, Hash, Structural)]
pub enum OrderSide {
    Buy,
    Sell,
}

impl OrderSide {
    /// The integer form used in request payloads.
    pub open spec fn wire_int(self) -> u8 {
        match self {
            OrderSide::Buy => 1u8,
            OrderSide::Sell => 2u8,
        }
    }

    /// The status string used in responses.
    pub open spec fn wire_text(self) -> Seq<char> {
        match self {
            OrderSide::Buy => "BUY"@,
            OrderSide::Sell => "SELL"@,
        }
    }

    /// The variant whose integer form is `value`, if any.
    pub open spec fn parse_int(value: u8) -> Option<Self> {
        if value == 1 {
            Some(OrderSide::Buy)
        } else if value == 2 {
            Some(OrderSide::Sell)
        } else {
            None
        }
    }

    /// The variant whose status string is `value`, if any.
    pub open spec fn parse_text(value: Seq<char>) -> Option<Self> {
        if value == "BUY"@ {
            Some(OrderSide::Buy)
        } else if value == "SELL"@ {
            Some(OrderSide::Sell)
        } else {
            None
        }
    }

    /// The integer form used in request payloads.
    pub fn as_int(self) -> (n: u8)
        ensures
            n == self.wire_int(),
    {
        match self {
            OrderSide::Buy => 1,
            OrderSide::Sell => 2,
        }
    }

    /// The status string used in responses.
    pub fn as_str(self) -> (s: &'static str)
        ensures
            s@ == self.wire_text(),
    {
        match self {
            OrderSide::Buy => "BUY",
            OrderSide::Sell => "SELL",
        }
    }

    /// Parses the integer form.
    pub fn from_int(value: u8) -> (r: Option<Self>)
        ensures
            r == Self::parse_int(value),
    {
        match value {
            1 => Some(OrderSide::Buy),
            2 => Some(OrderSide::Sell),
            _ => None,
        }
    }

    /// Parses the status string.
    pub fn from_str_value(value: &str) -> (r: Option<Self>)
        ensures
            r == Self::parse_text(value@),
    {
        if str_eq(value, "BUY") {
            Some(OrderSide::Buy)
        } else if str_eq(value, "SELL") {
            Some(OrderSide::Sell)
        } else {
            None
        }
    }

    /// Every variant, in declaration order.
    pub fn all() -> (r: Vec<Self>)
        ensures
            r@ == seq![OrderSide::Buy, OrderSide::Sell],
    {
        vec![OrderSide::Buy, OrderSide::Sell]
    }

    /// The venue's documented codes: each variant goes by exactly this number and this name
    /// on the wire, and reading that number or name gives the variant back.
    pub proof fn lemma_documented_codes()
        ensures
            OrderSide::Buy.wire_int() == 1u8 && OrderSide::Buy.wire_text() == "BUY"@,
            OrderSide::parse_int(1u8) == Some(OrderSide::Buy) && OrderSide::parse_text("BUY"@) == Some(OrderSide::Buy),
            OrderSide::Sell.wire_int() == 2u8 && OrderSide::Sell.wire_text() == "SELL"@,
            OrderSide::parse_int(2u8) == Some(OrderSide::Sell) && OrderSide::parse_text("SELL"@) == Some(OrderSide::Sell),
    {
        OrderSide::Buy.lemma_round_trip();
        OrderSide::Sell.lemma_round_trip();
    }

    /// Both wire forms identify the variant they were produced from.
    pub proof fn lemma_round_trip(self)
        ensures
            Self::parse_int(self.wire_int()) == Some(self),
            Self::parse_text(self.wire_text()) == Some(self),
    {
        reveal_strlit("BUY");
        assert("BUY"@ =~= seq!['B', 'U', 'Y']);
        reveal_strlit("SELL");
        assert("SELL"@ =~= seq!['S', 'E', 'L', 'L']);
    }

    /// Two variants never share an integer form or a status string.
    pub proof fn lemma_injective(self, other: Self)
        ensures
            self.wire_int() == other.wire_int() ==> self == other,
            self.wire_text() == other.wire_text() ==> self == other,
    {
        self.lemma_round_trip();
        other.lemma_round_trip();
    }

}

/// Order type.
#[derive(Debug, Clone, Copy, PartialEq, Eq, Hash, Structural)]
pub enum OrderType {
    Limit,
    Market,
}

impl OrderType {
    /// The integer form used in request payloads.
    pub open spec fn wire_int(self) -> u8 {
        match self {
            OrderType::Limit => 1u8,
            OrderType::Market => 2u8,
        }
    }

    /// The status string used in responses.
    pub open spec fn wire_text(self) -> Seq<char> {
        match self {
            OrderType::Limit => "LIMIT"@,
            OrderType::Market => "MARKET"@,
        }
    }

    /// The variant whose integer form is `value`, if any.
    pub open spec fn parse_int(value: u8) -> Option<Self> {
        if value == 1 {
            Some(OrderType::Limit)
        } else if value == 2 {
            Some(OrderType::Market)
        } else {
            None
        }
    }

    /// The variant whose status string is `value`, if any.
    pub open spec fn parse_text(value: Seq<char>) -> Option<Self> {
        if value == "LIMIT"@ {
            Some(OrderType::Limit)
        } else if value == "MARKET"@ {
            Some(OrderType::Market)
        } else {
            None
        }
    }

    /// The integer form used in request payloads.
    pub fn as_int(self) -> (n: u8)
        ensures
            n == self.wire_int(),
    {
        match self {
            OrderType::Limit => 1,
            OrderType::Market => 2,
        }
    }

    /// The status string used in responses.
    pub fn as_str(self) -> (s: &'static str)
        ensures
            s@ == self.wire_text(),
    {
        match self {
            OrderType::Limit => "LIMIT",
            OrderType::Market => "MARKET",
        }
    }

    /// Parses the integer form.
    pub fn from_int(value: u8) -> (r: Option<Self>)
        ensures
            r == Self::parse_int(value),
    {
        match value {
            1 => Some(OrderType::Limit),
            2 => Some(OrderType::Market),
            _ => None,
        }
    }

    /// Parses the status string.
    pub fn from_str_value(value: &str) -> (r: Option<Self>)
        ensures
            r == Self::parse_text(value@),
    {
        if str_eq(value, "LIMIT") {
            Some(OrderType::Limit)
        } else if str_eq(value, "MARKET") {
            Some(OrderType::Market)
        } else {
            None
        }
    }

    /// Every variant, in declaration order.
    pub fn all() -> (r: Vec<Self>)
        ensures
            r@ == seq![OrderType::Limit, OrderType::Market],
    {
        vec![OrderType::Limit, OrderType::Market]
    }

    /// The venue's documented codes: each variant goes by exactly this number and this name
    /// on the wire, and reading that number or name gives the variant back.
    pub proof fn lemma_documented_codes()
        ensures
            OrderType::Limit.wire_int() == 1u8 && OrderType::Limit.wire_text() == "LIMIT"@,
            OrderType::parse_int(1u8) == Some(OrderType::Limit) && OrderType::parse_text("LIMIT"@) == Some(OrderType::Limit),
            OrderType::Market.wire_int() == 2u8 && OrderType::Market.wire_text() == "MARKET"@,
            OrderType::parse_int(2u8) == Some(OrderType::Market) && OrderType::parse_text("MARKET"@) == Some(OrderType::Market),
    {
        OrderType::Limit.lemma_round_trip();
        OrderType::Market.lemma_round_trip();
    }

    /// Both wire forms identify the variant they were produced from.
    pub proof fn lemma_round_trip(self)
        ensures
            Self::parse_int(self.wire_int()) == Some(self),
            Self::parse_text(self.wire_text()) == Some(self),
    {
        reveal_strlit("LIMIT");
        assert("LIMIT"@ =~= seq!['L', 'I', 'M', 'I', 'T']);
        reveal_strlit("MARKET");
        assert("MARKET"@ =~= seq!['M', 'A', 'R', 'K', 'E', 'T']);
    }

    /// Two variants never share an integer form or a status string.
    pub proof fn lemma_injective(self, other: Self)
        ensures
            self.wire_int() == other.wire_int() ==> self == other,
            self.wire_text() == other.wire_text() ==> self == other,
    {
        self.lemma_round_trip();
        other.lemma_round_trip();
    }

}

/// How long an order rests.
#[derive(Debug, Clone, Copy, PartialEq, Eq, Hash, Structural)]
pub enum TimeInForce {
    /// Rests until cancelled.
    Gtc,
    /// Fill or kill. Documented as **not supported yet**.
    Fok,
    /// Immediate or cancel. Required for market orders.
    Ioc,
    /// Post only: expires if it would fill immediately.
    Gtx,
}

impl TimeInForce {
    /// The integer form used in request payloads.
    pub open spec fn wire_int(self) -> u8 {
        match self {
            TimeInForce::Gtc => 1u8,
            TimeInForce::Fok => 2u8,
            TimeInForce::Ioc => 3u8,
            TimeInForce::Gtx => 4u8,
        }
    }

    /// The status string used in responses.
    pub open spec fn wire_text(self) -> Seq<char> {
        match self {
            TimeInForce::Gtc => "GTC"@,
            TimeInForce::Fok => "FOK"@,
            TimeInForce::Ioc => "IOC"@,
            TimeInForce::Gtx => "GTX"@,
        }
    }

    /// The variant whose integer form is `value`, if any.
    pub open spec fn parse_int(value: u8) -> Option<Self> {
        if value == 1 {
            Some(TimeInForce::Gtc)
        } else if value == 2 {
            Some(TimeInForce::Fok)
        } else if value == 3 {
            Some(TimeInForce::Ioc)
        } else if value == 4 {
            Some(TimeInForce::Gtx)
        } else {
            None
        }
    }

    /// The variant whose status string is `value`, if any.
    pub open spec fn parse_text(value: Seq<char>) -> Option<Self> {
        if value == "GTC"@ {
            Some(TimeInForce::Gtc)
        } else if value == "FOK"@ {
            Some(TimeInForce::Fok)
        } else if value == "IOC"@ {
            Some(TimeInForce::Ioc)
        } else if value == "GTX"@ {
            Some(TimeInForce::Gtx)
        } else {
            None
        }
    }

    /// The integer form used in request payloads.
    pub fn as_int(self) -> (n: u8)
        ensures
            n == self.wire_int(),
    {
        match self {
            TimeInForce::Gtc => 1,
            TimeInForce::Fok => 2,
            TimeInForce::Ioc => 3,
            TimeInForce::Gtx => 4,
        }
    }

    /// The status string used in responses.
    pub fn as_str(self) -> (s: &'static str)
        ensures
            s@ == self.wire_text(),
    {
        match self {
            TimeInForce::Gtc => "GTC",
            TimeInForce::Fok => "FOK",
            TimeInForce::Ioc => "IOC",
            TimeInForce::Gtx => "GTX",
        }
    }

    /// Parses the integer form.
    pub fn from_int(value: u8) -> (r: Option<Self>)
        ensures
            r == Self::parse_int(value),
    {
        match value {
            1 => Some(TimeInForce::Gtc),
            2 => Some(TimeInForce::Fok),
            3 => Some(TimeInForce::Ioc),
            4 => Some(TimeInForce::Gtx),
            _ => None,
        }
    }

    /// Parses the status string.
    pub fn from_str_value(value: &str) -> (r: Option<Self>)
        ensures
            r == Self::parse_text(value@),
    {
        if str_eq(value, "GTC") {
            Some(TimeInForce::Gtc)
        } else if str_eq(value, "FOK") {
            Some(TimeInForce::Fok)
        } else if str_eq(value, "IOC") {
            Some(TimeInForce::Ioc)
        } else if str_eq(value, "GTX") {
            Some(TimeInForce::Gtx)
        } else {
            None
        }
    }

    /// Every variant, in declaration order.
    pub fn all() -> (r: Vec<Self>)
        ensures
            r@ == seq![TimeInForce::Gtc, TimeInForce::Fok, TimeInForce::Ioc, TimeInForce::Gtx],
    {
        vec![TimeInForce::Gtc, TimeInForce::Fok, TimeInForce::Ioc, TimeInForce::Gtx]
    }

    /// The venue's documented codes: each variant goes by exactly this number and this name
    /// on the wire, and reading that number or name gives the variant back.
    pub proof fn lemma_documented_codes()
        ensures
            TimeInForce::Gtc.wire_int() == 1u8 && TimeInForce::Gtc.wire_text() == "GTC"@,
            TimeInForce::parse_int(1u8) == Some(TimeInForce::Gtc) && TimeInForce::parse_text("GTC"@) == Some(TimeInForce::Gtc),
            TimeInForce::Fok.wire_int() == 2u8 && TimeInForce::Fok.wire_text() == "FOK"@,
            TimeInForce::parse_int(2u8) == Some(TimeInForce::Fok) && TimeInForce::parse_text("FOK"@) == Some(TimeInForce::Fok),
            TimeInForce::Ioc.wire_int() == 3u8 && TimeInForce::Ioc.wire_text() == "IOC"@,
            TimeInForce::parse_int(3u8) == Some(TimeInForce::Ioc) && TimeInForce::parse_text("IOC"@) == Some(TimeInForce::Ioc),
            TimeInForce::Gtx.wire_int() == 4u8 && TimeInForce::Gtx.wire_text() == "GTX"@,
            TimeInForce::parse_int(4u8) == Some(TimeInForce::Gtx) && TimeInForce::parse_text("GTX"@) == Some(TimeInForce::Gtx),
    {
        TimeInForce::Gtc.lemma_round_trip();
        TimeInForce::Fok.lemma_round_trip();
        TimeInForce::Ioc.lemma_round_trip();
        TimeInForce::Gtx.lemma_round_trip();
    }

    /// Both wire forms identify the variant they were produced from.
    pub proof fn lemma_round_trip(self)
        ensures
            Self::parse_int(self.wire_int()) == Some(self),
            Self::parse_text(self.wire_text()) == Some(self),
    {
        reveal_strlit("GTC");
        assert("GTC"@ =~= seq!['G', 'T', 'C']);
        reveal_strlit("FOK");
        assert("FOK"@ =~= seq!['F', 'O', 'K']);
        reveal_strlit("IOC");
        assert("IOC"@ =~= seq!['I', 'O', 'C']);
        reveal_strlit("GTX");
        assert("GTX"@ =~= seq!['G', 'T', 'X']);
    }

    /// Two variants never share an integer form or a status string.
    pub proof fn lemma_injective(self, other: Self)
        ensures
            self.wire_int() == other.wire_int() ==> self == other,
            self.wire_text() == other.wire_text() ==> self == other,
    {
        self.lemma_round_trip();
        other.lemma_round_trip();
    }

}

/// Lifecycle state of an order.
///
/// Distinct from [`ExecutionType`]: the two share names but not values.
#[derive(Debug, Clone, Copy, PartialEq, Eq, Hash, Structural)]
pub enum OrderStatus {
    New,
    PartiallyFilled,
    Filled,
    Canceled,
    Rejected,
    Expired,
    /// Perps only, for triggered TP/SL orders. Note the gap: 6 to 10.
    Triggered,
}

impl OrderStatus {
    /// The integer form used in request payloads.
    pub open spec fn wire_int(self) -> u8 {
        match self {
            OrderStatus::New => 1u8,
            OrderStatus::PartiallyFilled => 2u8,
            OrderStatus::Filled => 3u8,
            OrderStatus::Canceled => 4u8,
            OrderStatus::Rejected => 5u8,
            OrderStatus::Expired => 6u8,
            OrderStatus::Triggered => 10u8,
        }
    }

    /// The status string used in responses.
    pub open spec fn wire_text(self) -> Seq<char> {
        match self {
            OrderStatus::New => "NEW"@,
            OrderStatus::PartiallyFilled => "PARTIALLY_FILLED"@,
            OrderStatus::Filled => "FILLED"@,
            OrderStatus::Canceled => "CANCELED"@,
            OrderStatus::Rejected => "REJECTED"@,
            OrderStatus::Expired => "EXPIRED"@,
            OrderStatus::Triggered => "TRIGGERED"@,
        }
    }

    /// The variant whose integer form is `value`, if any.
    pub open spec fn parse_int(value: u8) -> Option<Self> {
        if value == 1 {
            Some(OrderStatus::New)
        } else if value == 2 {
            Some(OrderStatus::PartiallyFilled)
        } else if value == 3 {
            Some(OrderStatus::Filled)
        } else if value == 4 {
            Some(OrderStatus::Canceled)
        } else if value == 5 {
            Some(OrderStatus::Rejected)
        } else if value == 6 {
            Some(OrderStatus::Expired)
        } else if value == 10 {
            Some(OrderStatus::Triggered)
        } else {
            None
        }
    }

    /// The variant whose status string is `value`, if any.
    pub open spec fn parse_text(value: Seq<char>) -> Option<Self> {
        if value == "NEW"@ {
            Some(OrderStatus::New)
        } else if value == "PARTIALLY_FILLED"@ {
            Some(OrderStatus::PartiallyFilled)
        } else if value == "FILLED"@ {
            Some(OrderStatus::Filled)
        } else if value == "CANCELED"@ {
            Some(OrderStatus::Canceled)
        } else if value == "REJECTED"@ {
            Some(OrderStatus::Rejected)
        } else if value == "EXPIRED"@ {
            Some(OrderStatus::Expired)
        } else if value == "TRIGGERED"@ {
            Some(OrderStatus::Triggered)
        } else {
            None
        }
    }

    /// The integer form used in request payloads.
    pub fn as_int(self) -> (n: u8)
        ensures
            n == self.wire_int(),
    {
        match self {
            OrderStatus::New => 1,
            OrderStatus::PartiallyFilled => 2,
            OrderStatus::Filled => 3,
            OrderStatus::Canceled => 4,
            OrderStatus::Rejected => 5,
            OrderStatus::Expired => 6,
            OrderStatus::Triggered => 10,
        }
    }

    /// The status string used in responses.
    pub fn as_str(self) -> (s: &'static str)
        ensures
            s@ == self.wire_text(),
    {
        match self {
            OrderStatus::New => "NEW",
            OrderStatus::PartiallyFilled => "PARTIALLY_FILLED",
            OrderStatus::Filled => "FILLED",
            OrderStatus::Canceled => "CANCELED",
            OrderStatus::Rejected => "REJECTED",
            OrderStatus::Expired => "EXPIRED",
            OrderStatus::Triggered => "TRIGGERED",
        }
    }

    /// Parses the integer form.
    pub fn from_int(value: u8) -> (r: Option<Self>)
        ensures
            r == Self::parse_int(value),
    {
        match value {
            1 => Some(OrderStatus::New),
            2 => Some(OrderStatus::PartiallyFilled),
            3 => Some(OrderStatus::Filled),
            4 => Some(OrderStatus::Canceled),
            5 => Some(OrderStatus::Rejected),
            6 => Some(OrderStatus::Expired),
            10 => Some(OrderStatus::Triggered),
            _ => None,
        }
    }

    /// Parses the status string.
    pub fn from_str_value(value: &str) -> (r: Option<Self>)
        ensures
            r == Self::parse_text(value@),
    {
        if str_eq(value, "NEW") {
            Some(OrderStatus::New)
        } else if str_eq(value, "PARTIALLY_FILLED") {
            Some(OrderStatus::PartiallyFilled)
        } else if str_eq(value, "FILLED") {
            Some(OrderStatus::Filled)
        } else if str_eq(value, "CANCELED") {
            Some(OrderStatus::Canceled)
        } else if str_eq(value, "REJECTED") {
            Some(OrderStatus::Rejected)
        } else if str_eq(value, "EXPIRED") {
            Some(OrderStatus::Expired)
        } else if str_eq(value, "TRIGGERED") {
            Some(OrderStatus::Triggered)
        } else {
            None
        }
    }

    /// Every variant, in declaration order.
    pub fn all() -> (r: Vec<Self>)
        ensures
            r@ == seq![OrderStatus::New, OrderStatus::PartiallyFilled, OrderStatus::Filled, OrderStatus::Canceled, OrderStatus::Rejected, OrderStatus::Expired, OrderStatus::Triggered],
    {
        vec![OrderStatus::New, OrderStatus::PartiallyFilled, OrderStatus::Filled, OrderStatus::Canceled, OrderStatus::Rejected, OrderStatus::Expired, OrderStatus::Triggered]
    }

    /// The venue's documented codes: each variant goes by exactly this number and this name
    /// on the wire, and reading that number or name gives the variant back.
    pub proof fn lemma_documented_codes()
        ensures
            OrderStatus::New.wire_int() == 1u8 && OrderStatus::New.wire_text() == "NEW"@,
            OrderStatus::parse_int(1u8) == Some(OrderStatus::New) && OrderStatus::parse_text("NEW"@) == Some(OrderStatus::New),
            OrderStatus::PartiallyFilled.wire_int() == 2u8 && OrderStatus::PartiallyFilled.wire_text() == "PARTIALLY_FILLED"@,
            OrderStatus::parse_int(2u8) == Some(OrderStatus::PartiallyFilled) && OrderStatus::parse_text("PARTIALLY_FILLED"@) == Some(OrderStatus::PartiallyFilled),
            OrderStatus::Filled.wire_int() == 3u8 && OrderStatus::Filled.wire_text() == "FILLED"@,
            OrderStatus::parse_int(3u8) == Some(OrderStatus::Filled) && OrderStatus::parse_text("FILLED"@) == Some(OrderStatus::Filled),
            OrderStatus::Canceled.wire_int() == 4u8 && OrderStatus::Canceled.wire_text() == "CANCELED"@,
            OrderStatus::parse_int(4u8) == Some(OrderStatus::Canceled) && OrderStatus::parse_text("CANCELED"@) == Some(OrderStatus::Canceled),
            OrderStatus::Rejected.wire_int() == 5u8 && OrderStatus::Rejected.wire_text() == "REJECTED"@,
            OrderStatus::parse_int(5u8) == Some(OrderStatus::Rejected) && OrderStatus::parse_text("REJECTED"@) == Some(OrderStatus::Rejected),
            OrderStatus::Expired.wire_int() == 6u8 && OrderStatus::Expired.wire_text() == "EXPIRED"@,
            OrderStatus::parse_int(6u8) == Some(OrderStatus::Expired) && OrderStatus::parse_text("EXPIRED"@) == Some(OrderStatus::Expired),
            OrderStatus::Triggered.wire_int() == 10u8 && OrderStatus::Triggered.wire_text() == "TRIGGERED"@,
            OrderStatus::parse_int(10u8) == Some(OrderStatus::Triggered) && OrderStatus::parse_text("TRIGGERED"@) == Some(OrderStatus::Triggered),
    {
        OrderStatus::New.lemma_round_trip();
        OrderStatus::PartiallyFilled.lemma_round_trip();
        OrderStatus::Filled.lemma_round_trip();
        OrderStatus::Canceled.lemma_round_trip();
        OrderStatus::Rejected.lemma_round_trip();
        OrderStatus::Expired.lemma_round_trip();
        OrderStatus::Triggered.lemma_round_trip();
    }

    /// Both wire forms identify the variant they were produced from.
    pub proof fn lemma_round_trip(self)
        ensures
            Self::parse_int(self.wire_int()) == Some(self),
            Self::parse_text(self.wire_text()) == Some(self),
    {
        reveal_strlit("NEW");
        assert("NEW"@ =~= seq!['N', 'E', 'W']);
        reveal_strlit("PARTIALLY_FILLED");
        assert("PARTIALLY_FILLED"@ =~= seq!['P', 'A', 'R', 'T', 'I', 'A', 'L', 'L', 'Y', '_', 'F', 'I', 'L', 'L', 'E', 'D']);
        reveal_strlit("FILLED");
        assert("FILLED"@ =~= seq!['F', 'I', 'L', 'L', 'E', 'D']);
        reveal_strlit("CANCELED");
        assert("CANCELED"@ =~= seq!['C', 'A', 'N', 'C', 'E', 'L', 'E', 'D']);
        reveal_strlit("REJECTED");
        assert("REJECTED"@ =~= seq!['R', 'E', 'J', 'E', 'C', 'T', 'E', 'D']);
        reveal_strlit("EXPIRED");
        assert("EXPIRED"@ =~= seq!['E', 'X', 'P', 'I', 'R', 'E', 'D']);
        reveal_strlit("TRIGGERED");
        assert("TRIGGERED"@ =~= seq!['T', 'R', 'I', 'G', 'G', 'E', 'R', 'E', 'D']);
    }

    /// Two variants never share an integer form or a status string.
    pub proof fn lemma_injective(self, other: Self)
        ensures
            self.wire_int() == other.wire_int() ==> self == other,
            self.wire_text() == other.wire_text() ==> self == other,
    {
        self.lemma_round_trip();
        other.lemma_round_trip();
    }

}

/// What happened to an order in an execution report.
///
/// Distinct from [`OrderStatus`]: `EXPIRED` is 7 here and 6 there.
#[derive(Debug, Clone, Copy, PartialEq, Eq, Hash, Structural)]
pub enum ExecutionType {
    New,
    PartiallyFilled,
    Filled,
    Canceled,
    Rejected,
    /// Size reduced only.
    Modified,
    Expired,
    /// Both size and price changed.
    Replaced,
}

impl ExecutionType {
    /// The integer form used in request payloads.
    pub open spec fn wire_int(self) -> u8 {
        match self {
            ExecutionType::New => 1u8,
            ExecutionType::PartiallyFilled => 2u8,
            ExecutionType::Filled => 3u8,
            ExecutionType::Canceled => 4u8,
            ExecutionType::Rejected => 5u8,
            ExecutionType::Modified => 6u8,
            ExecutionType::Expired => 7u8,
            ExecutionType::Replaced => 8u8,
        }
    }

    /// The status string used in responses.
    pub open spec fn wire_text(self) -> Seq<char> {
        match self {
            ExecutionType::New => "NEW"@,
            ExecutionType::PartiallyFilled => "PARTIALLY_FILLED"@,
            ExecutionType::Filled => "FILLED"@,
            ExecutionType::Canceled => "CANCELED"@,
            ExecutionType::Rejected => "REJECTED"@,
            ExecutionType::Modified => "MODIFIED"@,
            ExecutionType::Expired => "EXPIRED"@,
            ExecutionType::Replaced => "REPLACED"@,
        }
    }

    /// The variant whose integer form is `value`, if any.
    pub open spec fn parse_int(value: u8) -> Option<Self> {
        if value == 1 {
            Some(ExecutionType::New)
        } else if value == 2 {
            Some(ExecutionType::PartiallyFilled)
        } else if value == 3 {
            Some(ExecutionType::Filled)
        } else if value == 4 {
            Some(ExecutionType::Canceled)
        } else if value == 5 {
            Some(ExecutionType::Rejected)
        } else if value == 6 {
            Some(ExecutionType::Modified)
        } else if value == 7 {
            Some(ExecutionType::Expired)
        } else if value == 8 {
            Some(ExecutionType::Replaced)
        } else {
            None
        }
    }

    /// The variant whose status string is `value`, if any.
    pub open spec fn parse_text(value: Seq<char>) -> Option<Self> {
        if value == "NEW"@ {
            Some(ExecutionType::New)
        } else if value == "PARTIALLY_FILLED"@ {
            Some(ExecutionType::PartiallyFilled)
        } else if value == "FILLED"@ {
            Some(ExecutionType::Filled)
        } else if value == "CANCELED"@ {
            Some(ExecutionType::Canceled)
        } else if value == "REJECTED"@ {
            Some(ExecutionType::Rejected)
        } else if value == "MODIFIED"@ {
            Some(ExecutionType::Modified)
        } else if value == "EXPIRED"@ {
            Some(ExecutionType::Expired)
        } else if value == "REPLACED"@ {
            Some(ExecutionType::Replaced)
        } else {
            None
        }
    }

    /// The integer form used in request payloads.
    pub fn as_int(self) -> (n: u8)
        ensures
            n == self.wire_int(),
    {
        match self {
            ExecutionType::New => 1,
            ExecutionType::PartiallyFilled => 2,
            ExecutionType::Filled => 3,
            ExecutionType::Canceled => 4,
            ExecutionType::Rejected => 5,
            ExecutionType::Modified => 6,
            ExecutionType::Expired => 7,
            ExecutionType::Replaced => 8,
        }
    }

    /// The status string used in responses.
    pub fn as_str(self) -> (s: &'static str)
        ensures
            s@ == self.wire_text(),
    {
        match self {
            ExecutionType::New => "NEW",
            ExecutionType::PartiallyFilled => "PARTIALLY_FILLED",
            ExecutionType::Filled => "FILLED",
            ExecutionType::Canceled => "CANCELED",
            ExecutionType::Rejected => "REJECTED",
            ExecutionType::Modified => "MODIFIED",
            ExecutionType::Expired => "EXPIRED",
            ExecutionType::Replaced => "REPLACED",
        }
    }

    /// Parses the integer form.
    pub fn from_int(value: u8) -> (r: Option<Self>)
        ensures
            r == Self::parse_int(value),
    {
        match value {
            1 => Some(ExecutionType::New),
            2 => Some(ExecutionType::PartiallyFilled),
            3 => Some(ExecutionType::Filled),
            4 => Some(ExecutionType::Canceled),
            5 => Some(ExecutionType::Rejected),
            6 => Some(ExecutionType::Modified),
            7 => Some(ExecutionType::Expired),
            8 => Some(ExecutionType::Replaced),
            _ => None,
        }
    }

    /// Parses the status string.
    pub fn from_str_value(value: &str) -> (r: Option<Self>)
        ensures
            r == Self::parse_text(value@),
    {
        if str_eq(value, "NEW") {
            Some(ExecutionType::New)
        } else if str_eq(value, "PARTIALLY_FILLED") {
            Some(ExecutionType::PartiallyFilled)
        } else if str_eq(value, "FILLED") {
            Some(ExecutionType::Filled)
        } else if str_eq(value, "CANCELED") {
            Some(ExecutionType::Canceled)
        } else if str_eq(value, "REJECTED") {
            Some(ExecutionType::Rejected)
        } else if str_eq(value, "MODIFIED") {
            Some(ExecutionType::Modified)
        } else if str_eq(value, "EXPIRED") {
            Some(ExecutionType::Expired)
        } else if str_eq(value, "REPLACED") {
            Some(ExecutionType::Replaced)
        } else {
            None
        }
    }

    /// Every variant, in declaration order.
    pub fn all() -> (r: Vec<Self>)
        ensures
            r@ == seq![ExecutionType::New, ExecutionType::PartiallyFilled, ExecutionType::Filled, ExecutionType::Canceled, ExecutionType::Rejected, ExecutionType::Modified, ExecutionType::Expired, ExecutionType::Replaced],
    {
        vec![ExecutionType::New, ExecutionType::PartiallyFilled, ExecutionType::Filled, ExecutionType::Canceled, ExecutionType::Rejected, ExecutionType::Modified, ExecutionType::Expired, ExecutionType::Replaced]
    }

    /// The venue's documented codes: each variant goes by exactly this number and this name
    /// on the wire, and reading that number or name gives the variant back.
    pub proof fn lemma_documented_codes()
        ensures
            ExecutionType::New.wire_int() == 1u8 && ExecutionType::New.wire_text() == "NEW"@,
            ExecutionType::parse_int(1u8) == Some(ExecutionType::New) && ExecutionType::parse_text("NEW"@) == Some(ExecutionType::New),
            ExecutionType::PartiallyFilled.wire_int() == 2u8 && ExecutionType::PartiallyFilled.wire_text() == "PARTIALLY_FILLED"@,
            ExecutionType::parse_int(2u8) == Some(ExecutionType::PartiallyFilled) && ExecutionType::parse_text("PARTIALLY_FILLED"@) == Some(ExecutionType::PartiallyFilled),
            ExecutionType::Filled.wire_int() == 3u8 && ExecutionType::Filled.wire_text() == "FILLED"@,
            ExecutionType::parse_int(3u8) == Some(ExecutionType::Filled) && ExecutionType::parse_text("FILLED"@) == Some(ExecutionType::Filled),
            ExecutionType::Canceled.wire_int() == 4u8 && ExecutionType::Canceled.wire_text() == "CANCELED"@,
            ExecutionType::parse_int(4u8) == Some(ExecutionType::Canceled) && ExecutionType::parse_text("CANCELED"@) == Some(ExecutionType::Canceled),
            ExecutionType::Rejected.wire_int() == 5u8 && ExecutionType::Rejected.wire_text() == "REJECTED"@,
            ExecutionType::parse_int(5u8) == Some(ExecutionType::Rejected) && ExecutionType::parse_text("REJECTED"@) == Some(ExecutionType::Rejected),
            ExecutionType::Modified.wire_int() == 6u8 && ExecutionType::Modified.wire_text() == "MODIFIED"@,
            ExecutionType::parse_int(6u8) == Some(ExecutionType::Modified) && ExecutionType::parse_text("MODIFIED"@) == Some(ExecutionType::Modified),
            ExecutionType::Expired.wire_int() == 7u8 && ExecutionType::Expired.wire_text() == "EXPIRED"@,
            ExecutionType::parse_int(7u8) == Some(ExecutionType::Expired) && ExecutionType::parse_text("EXPIRED"@) == Some(ExecutionType::Expired),
            ExecutionType::Replaced.wire_int() == 8u8 && ExecutionType::Replaced.wire_text() == "REPLACED"@,
            ExecutionType::parse_int(8u8) == Some(ExecutionType::Replaced) && ExecutionType::parse_text("REPLACED"@) == Some(ExecutionType::Replaced),
    {
        ExecutionType::New.lemma_round_trip();
        ExecutionType::PartiallyFilled.lemma_round_trip();
        ExecutionType::Filled.lemma_round_trip();
        ExecutionType::Canceled.lemma_round_trip();
        ExecutionType::Rejected.lemma_round_trip();
        ExecutionType::Modified.lemma_round_trip();
        ExecutionType::Expired.lemma_round_trip();
        ExecutionType::Replaced.lemma_round_trip();
    }

    /// Both wire forms identify the variant they were produced from.
    pub proof fn lemma_round_trip(self)
        ensures
            Self::parse_int(self.wire_int()) == Some(self),
            Self::parse_text(self.wire_text()) == Some(self),
    {
        reveal_strlit("NEW");
        assert("NEW"@ =~= seq!['N', 'E', 'W']);
        reveal_strlit("PARTIALLY_FILLED");
        assert("PARTIALLY_FILLED"@ =~= seq!['P', 'A', 'R', 'T', 'I', 'A', 'L', 'L', 'Y', '_', 'F', 'I', 'L', 'L', 'E', 'D']);
        reveal_strlit("FILLED");
        assert("FILLED"@ =~= seq!['F', 'I', 'L', 'L', 'E', 'D']);
        reveal_strlit("CANCELED");
        assert("CANCELED"@ =~= seq!['C', 'A', 'N', 'C', 'E', 'L', 'E', 'D']);
        reveal_strlit("REJECTED");
        assert("REJECTED"@ =~= seq!['R', 'E', 'J', 'E', 'C', 'T', 'E', 'D']);
        reveal_strlit("MODIFIED");
        assert("MODIFIED"@ =~= seq!['M', 'O', 'D', 'I', 'F', 'I', 'E', 'D']);
        reveal_strlit("EXPIRED");
        assert("EXPIRED"@ =~= seq!['E', 'X', 'P', 'I', 'R', 'E', 'D']);
        reveal_strlit("REPLACED");
        assert("REPLACED"@ =~= seq!['R', 'E', 'P', 'L', 'A', 'C', 'E', 'D']);
    }

    /// Two variants never share an integer form or a status string.
    pub proof fn lemma_injective(self, other: Self)
        ensures
            self.wire_int() == other.wire_int() ==> self == other,
            self.wire_text() == other.wire_text() ==> self == other,
    {
        self.lemma_round_trip();
        other.lemma_round_trip();
    }

}

/// Order modifier. Perps only.
#[derive(Debug, Clone, Copy, PartialEq, Eq, Hash, Structural)]
pub enum OrderModifier {
    Normal,
    Stop,
    /// The primary leg of a TP/SL group.
    Bracket,
    /// A stop leg attached to a TP/SL group.
    AttachedStop,
}

impl OrderModifier {
    /// The integer form used in request payloads.
    pub open spec fn wire_int(self) -> u8 {
        match self {
            OrderModifier::Normal => 1u8,
            OrderModifier::Stop => 2u8,
            OrderModifier::Bracket => 3u8,
            OrderModifier::AttachedStop => 4u8,
        }
    }

    /// The status string used in responses.
    pub open spec fn wire_text(self) -> Seq<char> {
        match self {
            OrderModifier::Normal => "NORMAL"@,
            OrderModifier::Stop => "STOP"@,
            OrderModifier::Bracket => "BRACKET"@,
            OrderModifier::AttachedStop => "ATTACHED_STOP"@,
        }
    }

    /// The variant whose integer form is `value`, if any.
    pub open spec fn parse_int(value: u8) -> Option<Self> {
        if value == 1 {
            Some(OrderModifier::Normal)
        } else if value == 2 {
            Some(OrderModifier::Stop)
        } else if value == 3 {
            Some(OrderModifier::Bracket)
        } else if value == 4 {
            Some(OrderModifier::AttachedStop)
        } else {
            None
        }
    }

    /// The variant whose status string is `value`, if any.
    pub open spec fn parse_text(value: Seq<char>) -> Option<Self> {
        if value == "NORMAL"@ {
            Some(OrderModifier::Normal)
        } else if value == "STOP"@ {
            Some(OrderModifier::Stop)
        } else if value == "BRACKET"@ {
            Some(OrderModifier::Bracket)
        } else if value == "ATTACHED_STOP"@ {
            Some(OrderModifier::AttachedStop)
        } else {
            None
        }
    }

    /// The integer form used in request payloads.
    pub fn as_int(self) -> (n: u8)
        ensures
            n == self.wire_int(),
    {
        match self {
            OrderModifier::Normal => 1,
            OrderModifier::Stop => 2,
            OrderModifier::Bracket => 3,
            OrderModifier::AttachedStop => 4,
        }
    }

    /// The status string used in responses.
    pub fn as_str(self) -> (s: &'static str)
        ensures
            s@ == self.wire_text(),
    {
        match self {
            OrderModifier::Normal => "NORMAL",
            OrderModifier::Stop => "STOP",
            OrderModifier::Bracket => "BRACKET",
            OrderModifier::AttachedStop => "ATTACHED_STOP",
        }
    }

    /// Parses the integer form.
    pub fn from_int(value: u8) -> (r: Option<Self>)
        ensures
            r == Self::parse_int(value),
    {
        match value {
            1 => Some(OrderModifier::Normal),
            2 => Some(OrderModifier::Stop),
            3 => Some(OrderModifier::Bracket),
            4 => Some(OrderModifier::AttachedStop),
            _ => None,
        }
    }

    /// Parses the status string.
    pub fn from_str_value(value: &str) -> (r: Option<Self>)
        ensures
            r == Self::parse_text(value@),
    {
        if str_eq(value, "NORMAL") {
            Some(OrderModifier::Normal)
        } else if str_eq(value, "STOP") {
            Some(OrderModifier::Stop)
        } else if str_eq(value, "BRACKET") {
            Some(OrderModifier::Bracket)
        } else if str_eq(value, "ATTACHED_STOP") {
            Some(OrderModifier::AttachedStop)
        } else {
            None
        }
    }

    /// Every variant, in declaration order.
    pub fn all() -> (r: Vec<Self>)
        ensures
            r@ == seq![OrderModifier::Normal, OrderModifier::Stop, OrderModifier::Bracket, OrderModifier::AttachedStop],
    {
        vec![OrderModifier::Normal, OrderModifier::Stop, OrderModifier::Bracket, OrderModifier::AttachedStop]
    }

    /// The venue's documented codes: each variant goes by exactly this number and this name
    /// on the wire, and reading that number or name gives the variant back.
    pub proof fn lemma_documented_codes()
        ensures
            OrderModifier::Normal.wire_int() == 1u8 && OrderModifier::Normal.wire_text() == "NORMAL"@,
            OrderModifier::parse_int(1u8) == Some(OrderModifier::Normal) && OrderModifier::parse_text("NORMAL"@) == Some(OrderModifier::Normal),
            OrderModifier::Stop.wire_int() == 2u8 && OrderModifier::Stop.wire_text() == "STOP"@,
            OrderModifier::parse_int(2u8) == Some(OrderModifier::Stop) && OrderModifier::parse_text("STOP"@) == Some(OrderModifier::Stop),
            OrderModifier::Bracket.wire_int() == 3u8 && OrderModifier::Bracket.wire_text() == "BRACKET"@,
            OrderModifier::parse_int(3u8) == Some(OrderModifier::Bracket) && OrderModifier::parse_text("BRACKET"@) == Some(OrderModifier::Bracket),
            OrderModifier::AttachedStop.wire_int() == 4u8 && OrderModifier::AttachedStop.wire_text() == "ATTACHED_STOP"@,
            OrderModifier::parse_int(4u8) == Some(OrderModifier::AttachedStop) && OrderModifier::parse_text("ATTACHED_STOP"@) == Some(OrderModifier::AttachedStop),
    {
        OrderModifier::Normal.lemma_round_trip();
        OrderModifier::Stop.lemma_round_trip();
        OrderModifier::Bracket.lemma_round_trip();
        OrderModifier::AttachedStop.lemma_round_trip();
    }

    /// Both wire forms identify the variant they were produced from.
    pub proof fn lemma_round_trip(self)
        ensures
            Self::parse_int(self.wire_int()) == Some(self),
            Self::parse_text(self.wire_text()) == Some(self),
    {
        reveal_strlit("NORMAL");
        assert("NORMAL"@ =~= seq!['N', 'O', 'R', 'M', 'A', 'L']);
        reveal_strlit("STOP");
        assert("STOP"@ =~= seq!['S', 'T', 'O', 'P']);
        reveal_strlit("BRACKET");
        assert("BRACKET"@ =~= seq!['B', 'R', 'A', 'C', 'K', 'E', 'T']);
        reveal_strlit("ATTACHED_STOP");
        assert("ATTACHED_STOP"@ =~= seq!['A', 'T', 'T', 'A', 'C', 'H', 'E', 'D', '_', 'S', 'T', 'O', 'P']);
    }

    /// Two variants never share an integer form or a status string.
    pub proof fn lemma_injective(self, other: Self)
        ensures
            self.wire_int() == other.wire_int() ==> self == other,
            self.wire_text() == other.wire_text() ==> self == other,
    {
        self.lemma_round_trip();
        other.lemma_round_trip();
    }

}

/// Margin mode. Perps only.
#[derive(Debug, Clone, Copy, PartialEq, Eq, Hash, Structural)]
pub enum MarginMode {
    Isolated,
    Cross,
}

impl MarginMode {
    /// The integer form used in request payloads.
    pub open spec fn wire_int(self) -> u8 {
        match self {
            MarginMode::Isolated => 1u8,
            MarginMode::Cross => 2u8,
        }
    }

    /// The status string used in responses.
    pub open spec fn wire_text(self) -> Seq<char> {
        match self {
            MarginMode::Isolated => "ISOLATED"@,
            MarginMode::Cross => "CROSS"@,
        }
    }

    /// The variant whose integer form is `value`, if any.
    pub open spec fn parse_int(value: u8) -> Option<Self> {
        if value == 1 {
            Some(MarginMode::Isolated)
        } else if value == 2 {
            Some(MarginMode::Cross)
        } else {
            None
        }
    }

    /// The variant whose status string is `value`, if any.
    pub open spec fn parse_text(value: Seq<char>) -> Option<Self> {
        if value == "ISOLATED"@ {
            Some(MarginMode::Isolated)
        } else if value == "CROSS"@ {
            Some(MarginMode::Cross)
        } else {
            None
        }
    }

    /// The integer form used in request payloads.
    pub fn as_int(self) -> (n: u8)
        ensures
            n == self.wire_int(),
    {
        match self {
            MarginMode::Isolated => 1,
            MarginMode::Cross => 2,
        }
    }

    /// The status string used in responses.
    pub fn as_str(self) -> (s: &'static str)
        ensures
            s@ == self.wire_text(),
    {
        match self {
            MarginMode::Isolated => "ISOLATED",
            MarginMode::Cross => "CROSS",
        }
    }

    /// Parses the integer form.
    pub fn from_int(value: u8) -> (r: Option<Self>)
        ensures
            r == Self::parse_int(value),
    {
        match value {
            1 => Some(MarginMode::Isolated),
            2 => Some(MarginMode::Cross),
            _ => None,
        }
    }

    /// Parses the status string.
    pub fn from_str_value(value: &str) -> (r: Option<Self>)
        ensures
            r == Self::parse_text(value@),
    {
        if str_eq(value, "ISOLATED") {
            Some(MarginMode::Isolated)
        } else if str_eq(value, "CROSS") {
            Some(MarginMode::Cross)
        } else {
            None
        }
    }

    /// Every variant, in declaration order.
    pub fn all() -> (r: Vec<Self>)
        ensures
            r@ == seq![MarginMode::Isolated, MarginMode::Cross],
    {
        vec![MarginMode::Isolated, MarginMode::Cross]
    }

    /// The venue's documented codes: each variant goes by exactly this number and this name
    /// on the wire, and reading that number or name gives the variant back.
    pub proof fn lemma_documented_codes()
        ensures
            MarginMode::Isolated.wire_int() == 1u8 && MarginMode::Isolated.wire_text() == "ISOLATED"@,
            MarginMode::parse_int(1u8) == Some(MarginMode::Isolated) && MarginMode::parse_text("ISOLATED"@) == Some(MarginMode::Isolated),
            MarginMode::Cross.wire_int() == 2u8 && MarginMode::Cross.wire_text() == "CROSS"@,
            MarginMode::parse_int(2u8) == Some(MarginMode::Cross) && MarginMode::parse_text("CROSS"@) == Some(MarginMode::Cross),
    {
        MarginMode::Isolated.lemma_round_trip();
        MarginMode::Cross.lemma_round_trip();
    }

    /// Both wire forms identify the variant they were produced from.
    pub proof fn lemma_round_trip(self)
        ensures
            Self::parse_int(self.wire_int()) == Some(self),
            Self::parse_text(self.wire_text()) == Some(self),
    {
        reveal_strlit("ISOLATED");
        assert("ISOLATED"@ =~= seq!['I', 'S', 'O', 'L', 'A', 'T', 'E', 'D']);
        reveal_strlit("CROSS");
        assert("CROSS"@ =~= seq!['C', 'R', 'O', 'S', 'S']);
    }

    /// Two variants never share an integer form or a status string.
    pub proof fn lemma_injective(self, other: Self)
        ensures
            self.wire_int() == other.wire_int() ==> self == other,
            self.wire_text() == other.wire_text() ==> self == other,
    {
        self.lemma_round_trip();
        other.lemma_round_trip();
    }

}

/// Position side. Perps only.
#[derive(Debug, Clone, Copy, PartialEq, Eq, Hash, Structural)]
pub enum PositionSide {
    /// One-way mode, the only value accepted when placing orders.
    Both,
    /// Hedge mode. Documented as **not supported in order placement yet**.
    Long,
    /// Hedge mode. Documented as **not supported in order placement yet**.
    Short,
}

impl PositionSide {
    /// The integer form used in request payloads.
    pub open spec fn wire_int(self) -> u8 {
        match self {
            PositionSide::Both => 1u8,
            PositionSide::Long => 2u8,
            PositionSide::Short => 3u8,
        }
    }

    /// The status string used in responses.
    pub open spec fn wire_text(self) -> Seq<char> {
        match self {
            PositionSide::Both => "BOTH"@,
            PositionSide::Long => "LONG"@,
            PositionSide::Short => "SHORT"@,
        }
    }

    /// The variant whose integer form is `value`, if any.
    pub open spec fn parse_int(value: u8) -> Option<Self> {
        if value == 1 {
            Some(PositionSide::Both)
        } else if value == 2 {
            Some(PositionSide::Long)
        } else if value == 3 {
            Some(PositionSide::Short)
        } else {
            None
        }
    }

    /// The variant whose status string is `value`, if any.
    pub open spec fn parse_text(value: Seq<char>) -> Option<Self> {
        if value == "BOTH"@ {
            Some(PositionSide::Both)
        } else if value == "LONG"@ {
            Some(PositionSide::Long)
        } else if value == "SHORT"@ {
            Some(PositionSide::Short)
        } else {
            None
        }
    }

    /// The integer form used in request payloads.
    pub fn as_int(self) -> (n: u8)
        ensures
            n == self.wire_int(),
    {
        match self {
            PositionSide::Both => 1,
            PositionSide::Long => 2,
            PositionSide::Short => 3,
        }
    }

    /// The status string used in responses.
    pub fn as_str(self) -> (s: &'static str)
        ensures
            s@ == self.wire_text(),
    {
        match self {
            PositionSide::Both => "BOTH",
            PositionSide::Long => "LONG",
            PositionSide::Short => "SHORT",
        }
    }

    /// Parses the integer form.
    pub fn from_int(value: u8) -> (r: Option<Self>)
        ensures
            r == Self::parse_int(value),
    {
        match value {
            1 => Some(PositionSide::Both),
            2 => Some(PositionSide::Long),
            3 => Some(PositionSide::Short),
            _ => None,
        }
    }

    /// Parses the status string.
    pub fn from_str_value(value: &str) -> (r: Option<Self>)
        ensures
            r == Self::parse_text(value@),
    {
        if str_eq(value, "BOTH") {
            Some(PositionSide::Both)
        } else if str_eq(value, "LONG") {
            Some(PositionSide::Long)
        } else if str_eq(value, "SHORT") {
            Some(PositionSide::Short)
        } else {
            None
        }
    }

    /// Every variant, in declaration order.
    pub fn all() -> (r: Vec<Self>)
        ensures
            r@ == seq![PositionSide::Both, PositionSide::Long, PositionSide::Short],
    {
        vec![PositionSide::Both, PositionSide::Long, PositionSide::Short]
    }

    /// The venue's documented codes: each variant goes by exactly this number and this name
    /// on the wire, and reading that number or name gives the variant back.
    pub proof fn lemma_documented_codes()
        ensures
            PositionSide::Both.wire_int() == 1u8 && PositionSide::Both.wire_text() == "BOTH"@,
            PositionSide::parse_int(1u8) == Some(PositionSide::Both) && PositionSide::parse_text("BOTH"@) == Some(PositionSide::Both),
            PositionSide::Long.wire_int() == 2u8 && PositionSide::Long.wire_text() == "LONG"@,
            PositionSide::parse_int(2u8) == Some(PositionSide::Long) && PositionSide::parse_text("LONG"@) == Some(PositionSide::Long),
            PositionSide::Short.wire_int() == 3u8 && PositionSide::Short.wire_text() == "SHORT"@,
            PositionSide::parse_int(3u8) == Some(PositionSide::Short) && PositionSide::parse_text("SHORT"@) == Some(PositionSide::Short),
    {
        PositionSide::Both.lemma_round_trip();
        PositionSide::Long.lemma_round_trip();
        PositionSide::Short.lemma_round_trip();
    }

    /// Both wire forms identify the variant they were produced from.
    pub proof fn lemma_round_trip(self)
        ensures
            Self::parse_int(self.wire_int()) == Some(self),
            Self::parse_text(self.wire_text()) == Some(self),
    {
        reveal_strlit("BOTH");
        assert("BOTH"@ =~= seq!['B', 'O', 'T', 'H']);
        reveal_strlit("LONG");
        assert("LONG"@ =~= seq!['L', 'O', 'N', 'G']);
        reveal_strlit("SHORT");
        assert("SHORT"@ =~= seq!['S', 'H', 'O', 'R', 'T']);
    }

    /// Two variants never share an integer form or a status string.
    pub proof fn lemma_injective(self, other: Self)
        ensures
            self.wire_int() == other.wire_int() ==> self == other,
            self.wire_text() == other.wire_text() ==> self == other,
    {
        self.lemma_round_trip();
        other.lemma_round_trip();
    }

}

/// Which side of a stop a trigger represents. Perps only.
#[derive(Debug, Clone, Copy, PartialEq, Eq, Hash, Structural)]
pub enum StopType {
    StopLoss,
    TakeProfit,
}

impl StopType {
    /// The integer form used in request payloads.
    pub open spec fn wire_int(self) -> u8 {
        match self {
            StopType::StopLoss => 1u8,
            StopType::TakeProfit => 2u8,
        }
    }

    /// The status string used in responses.
    pub open spec fn wire_text(self) -> Seq<char> {
        match self {
            StopType::StopLoss => "STOP_LOSS"@,
            StopType::TakeProfit => "TAKE_PROFIT"@,
        }
    }

    /// The variant whose integer form is `value`, if any.
    pub open spec fn parse_int(value: u8) -> Option<Self> {
        if value == 1 {
            Some(StopType::StopLoss)
        } else if value == 2 {
            Some(StopType::TakeProfit)
        } else {
            None
        }
    }

    /// The variant whose status string is `value`, if any.
    pub open spec fn parse_text(value: Seq<char>) -> Option<Self> {
        if value == "STOP_LOSS"@ {
            Some(StopType::StopLoss)
        } else if value == "TAKE_PROFIT"@ {
            Some(StopType::TakeProfit)
        } else {
            None
        }
    }

    /// The integer form used in request payloads.
    pub fn as_int(self) -> (n: u8)
        ensures
            n == self.wire_int(),
    {
        match self {
            StopType::StopLoss => 1,
            StopType::TakeProfit => 2,
        }
    }

    /// The status string used in responses.
    pub fn as_str(self) -> (s: &'static str)
        ensures
            s@ == self.wire_text(),
    {
        match self {
            StopType::StopLoss => "STOP_LOSS",
            StopType::TakeProfit => "TAKE_PROFIT",
        }
    }

    /// Parses the integer form.
    pub fn from_int(value: u8) -> (r: Option<Self>)
        ensures
            r == Self::parse_int(value),
    {
        match value {
            1 => Some(StopType::StopLoss),
            2 => Some(StopType::TakeProfit),
            _ => None,
        }
    }

    /// Parses the status string.
    pub fn from_str_value(value: &str) -> (r: Option<Self>)
        ensures
            r == Self::parse_text(value@),
    {
        if str_eq(value, "STOP_LOSS") {
            Some(StopType::StopLoss)
        } else if str_eq(value, "TAKE_PROFIT") {
            Some(StopType::TakeProfit)
        } else {
            None
        }
    }

    /// Every variant, in declaration order.
    pub fn all() -> (r: Vec<Self>)
        ensures
            r@ == seq![StopType::StopLoss, StopType::TakeProfit],
    {
        vec![StopType::StopLoss, StopType::TakeProfit]
    }

    /// The venue's documented codes: each variant goes by exactly this number and this name
    /// on the wire, and reading that number or name gives the variant back.
    pub proof fn lemma_documented_codes()
        ensures
            StopType::StopLoss.wire_int() == 1u8 && StopType::StopLoss.wire_text() == "STOP_LOSS"@,
            StopType::parse_int(1u8) == Some(StopType::StopLoss) && StopType::parse_text("STOP_LOSS"@) == Some(StopType::StopLoss),
            StopType::TakeProfit.wire_int() == 2u8 && StopType::TakeProfit.wire_text() == "TAKE_PROFIT"@,
            StopType::parse_int(2u8) == Some(StopType::TakeProfit) && StopType::parse_text("TAKE_PROFIT"@) == Some(StopType::TakeProfit),
    {
        StopType::StopLoss.lemma_round_trip();
        StopType::TakeProfit.lemma_round_trip();
    }

    /// Both wire forms identify the variant they were produced from.
    pub proof fn lemma_round_trip(self)
        ensures
            Self::parse_int(self.wire_int()) == Some(self),
            Self::parse_text(self.wire_text()) == Some(self),
    {
        reveal_strlit("STOP_LOSS");
        assert("STOP_LOSS"@ =~= seq!['S', 'T', 'O', 'P', '_', 'L', 'O', 'S', 'S']);
        reveal_strlit("TAKE_PROFIT");
        assert("TAKE_PROFIT"@ =~= seq!['T', 'A', 'K', 'E', '_', 'P', 'R', 'O', 'F', 'I', 'T']);
    }

    /// Two variants never share an integer form or a status string.
    pub proof fn lemma_injective(self, other: Self)
        ensures
            self.wire_int() == other.wire_int() ==> self == other,
            self.wire_text() == other.wire_text() ==> self == other,
    {
        self.lemma_round_trip();
        other.lemma_round_trip();
    }

}

/// Which price feed arms a stop. Perps only.
#[derive(Debug, Clone, Copy, PartialEq, Eq, Hash, Structural)]
pub enum TriggerType {
    /// Documented as **not supported in order placement yet**.
    LastPrice,
    MarkPrice,
    /// Documented as **not supported in order placement yet**.
    IndexPrice,
}

impl TriggerType {
    /// The integer form used in request payloads.
    pub open spec fn wire_int(self) -> u8 {
        match self {
            TriggerType::LastPrice => 1u8,
            TriggerType::MarkPrice => 2u8,
            TriggerType::IndexPrice => 3u8,
        }
    }

    /// The status string used in responses.
    pub open spec fn wire_text(self) -> Seq<char> {
        match self {
            TriggerType::LastPrice => "LAST_PRICE"@,
            TriggerType::MarkPrice => "MARK_PRICE"@,
            TriggerType::IndexPrice => "INDEX_PRICE"@,
        }
    }

    /// The variant whose integer form is `value`, if any.
    pub open spec fn parse_int(value: u8) -> Option<Self> {
        if value == 1 {
            Some(TriggerType::LastPrice)
        } else if value == 2 {
            Some(TriggerType::MarkPrice)
        } else if value == 3 {
            Some(TriggerType::IndexPrice)
        } else {
            None
        }
    }

    /// The variant whose status string is `value`, if any.
    pub open spec fn parse_text(value: Seq<char>) -> Option<Self> {
        if value == "LAST_PRICE"@ {
            Some(TriggerType::LastPrice)
        } else if value == "MARK_PRICE"@ {
            Some(TriggerType::MarkPrice)
        } else if value == "INDEX_PRICE"@ {
            Some(TriggerType::IndexPrice)
        } else {
            None
        }
    }

    /// The integer form used in request payloads.
    pub fn as_int(self) -> (n: u8)
        ensures
            n == self.wire_int(),
    {
        match self {
            TriggerType::LastPrice => 1,
            TriggerType::MarkPrice => 2,
            TriggerType::IndexPrice => 3,
        }
    }

    /// The status string used in responses.
    pub fn as_str(self) -> (s: &'static str)
        ensures
            s@ == self.wire_text(),
    {
        match self {
            TriggerType::LastPrice => "LAST_PRICE",
            TriggerType::MarkPrice => "MARK_PRICE",
            TriggerType::IndexPrice => "INDEX_PRICE",
        }
    }

    /// Parses the integer form.
    pub fn from_int(value: u8) -> (r: Option<Self>)
        ensures
            r == Self::parse_int(value),
    {
        match value {
            1 => Some(TriggerType::LastPrice),
            2 => Some(TriggerType::MarkPrice),
            3 => Some(TriggerType::IndexPrice),
            _ => None,
        }
    }

    /// Parses the status string.
    pub fn from_str_value(value: &str) -> (r: Option<Self>)
        ensures
            r == Self::parse_text(value@),
    {
        if str_eq(value, "LAST_PRICE") {
            Some(TriggerType::LastPrice)
        } else if str_eq(value, "MARK_PRICE") {
            Some(TriggerType::MarkPrice)
        } else if str_eq(value, "INDEX_PRICE") {
            Some(TriggerType::IndexPrice)
        } else {
            None
        }
    }

    /// Every variant, in declaration order.
    pub fn all() -> (r: Vec<Self>)
        ensures
            r@ == seq![TriggerType::LastPrice, TriggerType::MarkPrice, TriggerType::IndexPrice],
    {
        vec![TriggerType::LastPrice, TriggerType::MarkPrice, TriggerType::IndexPrice]
    }

    /// The venue's documented codes: each variant goes by exactly this number and this name
    /// on the wire, and reading that number or name gives the variant back.
    pub proof fn lemma_documented_codes()
        ensures
            TriggerType::LastPrice.wire_int() == 1u8 && TriggerType::LastPrice.wire_text() == "LAST_PRICE"@,
            TriggerType::parse_int(1u8) == Some(TriggerType::LastPrice) && TriggerType::parse_text("LAST_PRICE"@) == Some(TriggerType::LastPrice),
            TriggerType::MarkPrice.wire_int() == 2u8 && TriggerType::MarkPrice.wire_text() == "MARK_PRICE"@,
            TriggerType::parse_int(2u8) == Some(TriggerType::MarkPrice) && TriggerType::parse_text("MARK_PRICE"@) == Some(TriggerType::MarkPrice),
            TriggerType::IndexPrice.wire_int() == 3u8 && TriggerType::IndexPrice.wire_text() == "INDEX_PRICE"@,
            TriggerType::parse_int(3u8) == Some(TriggerType::IndexPrice) && TriggerType::parse_text("INDEX_PRICE"@) == Some(TriggerType::IndexPrice),
    {
        TriggerType::LastPrice.lemma_round_trip();
        TriggerType::MarkPrice.lemma_round_trip();
        TriggerType::IndexPrice.lemma_round_trip();
    }

    /// Both wire forms identify the variant they were produced from.
    pub proof fn lemma_round_trip(self)
        ensures
            Self::parse_int(self.wire_int()) == Some(self),
            Self::parse_text(self.wire_text()) == Some(self),
    {
        reveal_strlit("LAST_PRICE");
        assert("LAST_PRICE"@ =~= seq!['L', 'A', 'S', 'T', '_', 'P', 'R', 'I', 'C', 'E']);
        reveal_strlit("MARK_PRICE");
        assert("MARK_PRICE"@ =~= seq!['M', 'A', 'R', 'K', '_', 'P', 'R', 'I', 'C', 'E']);
        reveal_strlit("INDEX_PRICE");
        assert("INDEX_PRICE"@ =~= seq!['I', 'N', 'D', 'E', 'X', '_', 'P', 'R', 'I', 'C', 'E']);
    }

    /// Two variants never share an integer form or a status string.
    pub proof fn lemma_injective(self, other: Self)
        ensures
            self.wire_int() == other.wire_int() ==> self == other,
            self.wire_text() == other.wire_text() ==> self == other,
    {
        self.lemma_round_trip();
        other.lemma_round_trip();
    }

}

/// Signature family, mirroring the byte prefixed to a signature.
#[derive(Debug, Clone, Copy, PartialEq, Eq, Hash, Structural)]
pub enum SignatureType {
    /// Engine-specific domain (`spot`/`futures`); prefix `0x01`.
    Eip712,
    /// Universal domain for cross-engine user actions; prefix `0x02`.
    Eip712Universal,
}

impl SignatureType {
    /// The integer form used in request payloads.
    pub open spec fn wire_int(self) -> u8 {
        match self {
            SignatureType::Eip712 => 1u8,
            SignatureType::Eip712Universal => 2u8,
        }
    }

    /// The status string used in responses.
    pub open spec fn wire_text(self) -> Seq<char> {
        match self {
            SignatureType::Eip712 => "EIP712"@,
            SignatureType::Eip712Universal => "EIP712_UNIVERSAL"@,
        }
    }

    /// The variant whose integer form is `value`, if any.
    pub open spec fn parse_int(value: u8) -> Option<Self> {
        if value == 1 {
            Some(SignatureType::Eip712)
        } else if value == 2 {
            Some(SignatureType::Eip712Universal)
        } else {
            None
        }
    }

    /// The variant whose status string is `value`, if any.
    pub open spec fn parse_text(value: Seq<char>) -> Option<Self> {
        if value == "EIP712"@ {
            Some(SignatureType::Eip712)
        } else if value == "EIP712_UNIVERSAL"@ {
            Some(SignatureType::Eip712Universal)
        } else {
            None
        }
    }

    /// The integer form used in request payloads.
    pub fn as_int(self) -> (n: u8)
        ensures
            n == self.wire_int(),
    {
        match self {
            SignatureType::Eip712 => 1,
            SignatureType::Eip712Universal => 2,
        }
    }

    /// The status string used in responses.
    pub fn as_str(self) -> (s: &'static str)
        ensures
            s@ == self.wire_text(),
    {
        match self {
            SignatureType::Eip712 => "EIP712",
            SignatureType::Eip712Universal => "EIP712_UNIVERSAL",
        }
    }

    /// Parses the integer form.
    pub fn from_int(value: u8) -> (r: Option<Self>)
        ensures
            r == Self::parse_int(value),
    {
        match value {
            1 => Some(SignatureType::Eip712),
            2 => Some(SignatureType::Eip712Universal),
            _ => None,
        }
    }

    /// Parses the status string.
    pub fn from_str_value(value: &str) -> (r: Option<Self>)
        ensures
            r == Self::parse_text(value@),
    {
        if str_eq(value, "EIP712") {
            Some(SignatureType::Eip712)
        } else if str_eq(value, "EIP712_UNIVERSAL") {
            Some(SignatureType::Eip712Universal)
        } else {
            None
        }
    }

    /// Every variant, in declaration order.
    pub fn all() -> (r: Vec<Self>)
        ensures
            r@ == seq![SignatureType::Eip712, SignatureType::Eip712Universal],
    {
        vec![SignatureType::Eip712, SignatureType::Eip712Universal]
    }

    /// The venue's documented codes: each variant goes by exactly this number and this name
    /// on the wire, and reading that number or name gives the variant back.
    pub proof fn lemma_documented_codes()
        ensures
            SignatureType::Eip712.wire_int() == 1u8 && SignatureType::Eip712.wire_text() == "EIP712"@,
            SignatureType::parse_int(1u8) == Some(SignatureType::Eip712) && SignatureType::parse_text("EIP712"@) == Some(SignatureType::Eip712),
            SignatureType::Eip712Universal.wire_int() == 2u8 && SignatureType::Eip712Universal.wire_text() == "EIP712_UNIVERSAL"@,
            SignatureType::parse_int(2u8) == Some(SignatureType::Eip712Universal) && SignatureType::parse_text("EIP712_UNIVERSAL"@) == Some(SignatureType::Eip712Universal),
    {
        SignatureType::Eip712.lemma_round_trip();
        SignatureType::Eip712Universal.lemma_round_trip();
    }

    /// Both wire forms identify the variant they were produced from.
    pub proof fn lemma_round_trip(self)
        ensures
            Self::parse_int(self.wire_int()) == Some(self),
            Self::parse_text(self.wire_text()) == Some(self),
    {
        reveal_strlit("EIP712");
        assert("EIP712"@ =~= seq!['E', 'I', 'P', '7', '1', '2']);
        reveal_strlit("EIP712_UNIVERSAL");
        assert("EIP712_UNIVERSAL"@ =~= seq!['E', 'I', 'P', '7', '1', '2', '_', 'U', 'N', 'I', 'V', 'E', 'R', 'S', 'A', 'L']);
    }

    /// Two variants never share an integer form or a status string.
    pub proof fn lemma_injective(self, other: Self)
        ensures
            self.wire_int() == other.wire_int() ==> self == other,
            self.wire_text() == other.wire_text() ==> self == other,
    {
        self.lemma_round_trip();
        other.lemma_round_trip();
    }

}

impl TimeInForce {
    /// Whether the venue currently accepts this value when placing an order.
    pub open spec fn placeable(self) -> bool {
        self != TimeInForce::Fok
    }

    /// Whether the venue currently accepts this value when placing an order.
    pub fn is_supported_for_placement(self) -> (b: bool)
        ensures
            b == self.placeable(),
    {
        !matches!(self, TimeInForce::Fok)
    }
}

impl PositionSide {
    /// Whether the venue currently accepts this value when placing an order.
    pub open spec fn placeable(self) -> bool {
        self == PositionSide::Both
    }

    /// Whether the venue currently accepts this value when placing an order.
    pub fn is_supported_for_placement(self) -> (b: bool)
        ensures
            b == self.placeable(),
    {
        matches!(self, PositionSide::Both)
    }
}

impl TriggerType {
    /// Whether the venue currently accepts this value when placing an order.
    pub open spec fn placeable(self) -> bool {
        self == TriggerType::MarkPrice
    }

    /// Whether the venue currently accepts this value when placing an order.
    pub fn is_supported_for_placement(self) -> (b: bool)
        ensures
            b == self.placeable(),
    {
        matches!(self, TriggerType::MarkPrice)
    }
}

/// Permissions withheld from an API key.
///
/// The venue's encoding is inverted from the intuitive reading: a bit set to `1` means the
/// permission is **disabled**, and omitting the field enables everything.
#[derive(Debug, Clone, Copy, PartialEq, Eq, Structural)]
pub struct DisabledPermissions(u64);

impl View for DisabledPermissions {
    type V = u64;

    closed spec fn view(&self) -> u64 {
        self.0
    }
}

/// Whether `mask` withholds any bit of `permission`.
pub open spec fn withholds(mask: u64, permission: u64) -> bool {
    mask & permission != 0
}

impl DisabledPermissions {
    /// Place, replace, modify and cancel orders; schedule cancels; update leverage, margin
    /// and collateral.
    pub const TRADE: u64 = 1;
    /// Cancel orders and schedule cancels.
    pub const CANCEL: u64 = 2;
    /// Withdraw to EVM or the other engine.
    pub const WITHDRAW: u64 = 4;
    /// Sub-account and internal transfers.
    pub const TRANSFER: u64 = 8;

    /// Nothing withheld: every permission enabled.
    pub fn none() -> (r: Self)
        ensures
            r@ == 0,
    {
        DisabledPermissions(0)
    }

    /// Withholds the given permission.
    pub fn disabling(self, permission: u64) -> (r: Self)
        ensures
            r@ == self@ | permission,
    {
        DisabledPermissions(self.0 | permission)
    }

    /// Whether the given permission is withheld.
    pub fn is_disabled(self, permission: u64) -> (b: bool)
        ensures
            b == withholds(self@, permission),
    {
        self.0 & permission != 0
    }

    /// The raw mask for the `permissions` field.
    pub fn as_mask(self) -> (m: u64)
        ensures
            m == self@,
    {
        self.0
    }

    /// A signing key that may only cancel: it keeps `CANCEL` and withholds trading,
    /// withdrawal and transfers.
    pub fn cancel_only() -> (r: Self)
        ensures
            r@ == 13,
            !withholds(r@, Self::CANCEL),
            withholds(r@, Self::TRADE),
            withholds(r@, Self::WITHDRAW),
            withholds(r@, Self::TRANSFER),
    {
        let r = Self::none().disabling(Self::TRADE).disabling(Self::WITHDRAW).disabling(
            Self::TRANSFER,
        );
        assert(0u64 | 1u64 | 4u64 | 8u64 == 13u64) by (bit_vector);
        assert(13u64 & 2u64 == 0) by (bit_vector);
        assert(13u64 & 1u64 != 0) by (bit_vector);
        assert(13u64 & 4u64 != 0) by (bit_vector);
        assert(13u64 & 8u64 != 0) by (bit_vector);
        r
    }

    /// The bits mean withheld, not granted: withholding a permission withholds it, keeps
    /// everything already withheld, and withholds nothing it shares no bit with.
    pub proof fn lemma_disabling(mask: u64, permission: u64, query: u64)
        ensures
            withholds(mask | permission, query) <==> (withholds(mask, query) || withholds(
                permission,
                query,
            )),
            permission != 0 ==> withholds(mask | permission, permission),
    {
        assert((mask | permission) & query != 0 <==> (mask & query != 0 || permission & query
            != 0)) by (bit_vector);
        assert(permission != 0 ==> (mask | permission) & permission != 0) by (bit_vector);
    }

    /// An empty mask withholds nothing: every permission is enabled.
    pub proof fn lemma_empty_mask_enables_everything(query: u64)
        ensures
            !withholds(0, query),
    {
        assert(0u64 & query == 0) by (bit_vector);
    }
}

} // verus!
