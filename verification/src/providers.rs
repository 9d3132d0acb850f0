//! Instrument definitions and the venue-to-engine symbol mapping.
//!
//! The engine addresses instruments by symbol and venue, the venue by a numeric `symbolID`,
//! so every order needs the numeric form. The mapping is rebuilt from the venue's own
//! listing on every load, never merged, so a delisted symbol leaves no stale entry.
//!
//! Tick sizes, bounds and fees stay decimal text end to end; no binary float sits between
//! the venue's value and the engine's.
use vstd::prelude::*;

use crate::common::decimal::{
    decimal_from_str, decimal_text, normalize, normalize_outcome, DecimalParts, FIXED_PRECISION,
};
use crate::common::Market;
use crate::config::{spec_venue_name, venue_for, Venue};
use crate::data::parse::InstrumentId;
use crate::http::Network;
use crate::text::{owned, str_eq};

verus! {

/// Status string the venue uses for a tradable symbol.
pub const STATUS_TRADING: &'static str = "TRADING";

/// Code used for a currency the listing does not name.
pub const UNKNOWN_CURRENCY: &'static str = "UNKNOWN";

/// Spot symbol definition. The base coin and its precision may be absent.
#[derive(Debug, Clone)]
pub struct SpotSymbol {
    pub id: u64,
    pub name: String,
    pub display_name: String,
    pub base_coin: Option<String>,
    pub base_coin_precision: Option<u8>,
    pub quote_coin: Option<String>,
    pub quote_coin_precision: Option<u8>,
    pub price_precision: i32,
    pub tick_size: String,
    pub min_price: String,
    pub max_price: String,
    pub quantity_precision: i32,
    pub step_size: String,
    pub min_quantity: String,
    pub max_quantity: String,
    pub min_notional: String,
    pub max_notional: String,
    pub maker_fee: String,
    pub taker_fee: String,
    pub status: String,
}

/// Perpetual symbol definition. The base is an index; settlement is in the quote coin.
#[derive(Debug, Clone)]
pub struct PerpsSymbol {
    pub id: u64,
    pub name: String,
    pub display_name: String,
    pub base_coin: String,
    pub quote_coin: String,
    pub quote_coin_precision: u8,
    pub price_precision: i32,
    pub tick_size: String,
    pub min_price: String,
    pub max_price: String,
    pub quantity_precision: i32,
    pub step_size: String,
    pub min_quantity: String,
    pub max_quantity: String,
    pub min_notional: String,
    pub max_notional: String,
    pub max_leverage: u32,
    pub maker_fee: String,
    pub taker_fee: String,
    pub status: String,
}

/// A currency: its code and precision.
#[derive(Debug, Clone, PartialEq, Eq)]
pub struct CurrencySpec {
    pub code: String,
    pub precision: u8,
}

/// An instrument as the engine defines it, decimal values as normalised text.
#[derive(Debug, Clone, PartialEq, Eq)]
pub struct InstrumentDefinition {
    pub instrument_id: InstrumentId,
    pub raw_symbol: String,
    pub base_currency: CurrencySpec,
    pub quote_currency: CurrencySpec,
    /// Perps settle in the quote coin; spot has no settlement currency.
    pub settlement_currency: Option<CurrencySpec>,
    pub is_inverse: bool,
    pub price_precision: u8,
    pub size_precision: u8,
    pub price_increment: String,
    pub size_increment: String,
    pub max_quantity: Option<String>,
    pub min_quantity: Option<String>,
    pub max_notional: Option<String>,
    pub min_notional: Option<String>,
    pub max_price: Option<String>,
    pub min_price: Option<String>,
    pub maker_fee: String,
    pub taker_fee: String,
}

/// Why a symbol definition cannot become an instrument.
#[derive(Debug, Clone, PartialEq, Eq)]
pub enum ProviderError {
    /// A precision outside `0..=255` once negatives are read as zero.
    Precision { field: &'static str, value: i32 },
    /// A required decimal field that does not parse.
    InvalidValue { field: &'static str, value: String },
    /// An instrument of another venue was asked of this provider.
    WrongVenue { venue: String },
}

/// A currency's precision, clamped to the engine's fixed-point maximum: on-chain token
/// decimals reach 18, while order precision comes from tick and step sizes.
pub fn currency_precision(precision: u8) -> (p: u8)
    ensures
        p == (if precision as u32 <= FIXED_PRECISION {
            precision
        } else {
            FIXED_PRECISION as u8
        }),
{
    if precision as u32 <= FIXED_PRECISION {
        precision
    } else {
        FIXED_PRECISION as u8
    }
}

/// The currencies the engine already defines, by code, each with its precision. A listed
/// coin whose code is here takes this definition rather than the listing's precision.
#[derive(Debug)]
pub struct CurrencyRegistry {
    entries: Vec<CurrencySpec>,
}

/// The codes of a list of currencies, in order.
pub open spec fn codes(entries: Seq<CurrencySpec>) -> Seq<Seq<char>> {
    entries.map_values(|c: CurrencySpec| c.code@)
}

impl View for CurrencyRegistry {
    type V = Map<Seq<char>, u8>;

    closed spec fn view(&self) -> Map<Seq<char>, u8> {
        Map::new(
            |c: Seq<char>| codes(self.entries@).contains(c),
            |c: Seq<char>| self.entries@[codes(self.entries@).index_of(c)].precision,
        )
    }
}

/// Where `code` stands among `entries`, which name no code twice.
fn code_position(entries: &Vec<CurrencySpec>, code: &str) -> (r: Option<usize>)
    requires
        codes(entries@).no_duplicates(),
    ensures
        r matches Some(i) ==> i < entries@.len() && codes(entries@)[i as int] == code@
            && codes(entries@).index_of(code@) == i,
        r is None ==> !codes(entries@).contains(code@),
{
    let mut i: usize = 0;
    while i < entries.len()
        invariant
            i <= entries@.len(),
            codes(entries@).no_duplicates(),
            forall|k: int| 0 <= k < i ==> codes(entries@)[k] != code@,
        decreases entries@.len() - i,
    {
        if str_eq(entries[i].code.as_str(), code) {
            proof {
                let cs = codes(entries@);
                assert(cs[i as int] == code@);
                assert(cs.contains(code@));
                assert(cs[cs.index_of(code@)] == code@);
            }
            return Some(i);
        }
        i = i + 1;
    }
    None
}

impl CurrencyRegistry {
    #[verifier::type_invariant]
    spec fn distinct(self) -> bool {
        codes(self.entries@).no_duplicates()
    }

    /// A registry that defines nothing.
    pub fn new() -> (r: Self)
        ensures
            r@ == Map::<Seq<char>, u8>::empty(),
    {
        let r = CurrencyRegistry { entries: Vec::new() };
        proof {
            assert(r@ =~= Map::<Seq<char>, u8>::empty());
        }
        r
    }

    /// Defines `code` with `precision`, replacing an earlier definition of it.
    pub fn register(&mut self, code: &str, precision: u8)
        ensures
            final(self)@ == old(self)@.insert(code@, precision),
    {
        proof {
            use_type_invariant(&*self);
        }
        let ghost before = self.entries@;
        let mut entries: Vec<CurrencySpec> = Vec::new();
        std::mem::swap(&mut entries, &mut self.entries);
        match code_position(&entries, code) {
            Some(j) => {
                entries.set(j, CurrencySpec { code: owned(code), precision });
                proof {
                    assert(codes(entries@) =~= codes(before));
                }
            },
            None => {
                entries.push(CurrencySpec { code: owned(code), precision });
                proof {
                    assert(codes(entries@) =~= codes(before).push(code@));
                    assert forall|a: int, b: int|
                        0 <= a < b < codes(entries@).len() implies codes(entries@)[a] != codes(
                            entries@,
                        )[b] by {
                        if b == before.len() {
                            assert(codes(before)[a] != code@);
                        }
                    }
                }
            },
        }
        self.entries = entries;
        proof {
            let cs = codes(self.entries@);
            assert forall|c: Seq<char>| #[trigger] cs.contains(c) implies c == code@ || codes(
                before,
            ).contains(c) by {
                let k = choose|k: int| 0 <= k < cs.len() && cs[k] == c;
                if k < before.len() && cs[k] != code@ {
                    assert(codes(before)[k] == c);
                }
            }
            assert forall|c: Seq<char>| #[trigger] codes(before).contains(c) implies cs.contains(c) by {
                let k = choose|k: int| 0 <= k < codes(before).len() && codes(before)[k] == c;
                assert(cs[k] == c || cs[k] == code@);
                if cs[k] != c {
                    assert(cs[cs.index_of(code@)] == code@);
                }
            }
            assert forall|c: Seq<char>| #[trigger] cs.contains(c) && c != code@ implies self.entries@[cs.index_of(
                c,
            )].precision == before[codes(before).index_of(c)].precision by {
                let i = cs.index_of(c);
                let i0 = codes(before).index_of(c);
                assert(cs[i] == c);
                assert(codes(before)[i0] == c);
                assert(cs[i0] == c);
            }
            assert(cs.contains(code@)) by {
                assert(cs[cs.len() - 1] == code@ || codes(before).contains(code@));
            }
            assert(self@ =~= old(self)@.insert(code@, precision));
        }
    }

    /// The precision the engine defines for `code`, if it defines it.
    pub fn precision_of(&self, code: &str) -> (r: Option<u8>)
        ensures
            r == (if self@.contains_key(code@) {
                Some(self@[code@])
            } else {
                None::<u8>
            }),
    {
        proof {
            use_type_invariant(self);
        }
        match code_position(&self.entries, code) {
            Some(i) => Some(self.entries[i].precision),
            None => None,
        }
    }
}

/// A precision as the engine takes it: negatives read as zero, anything above 255 refused.
pub open spec fn spec_precision(value: i32) -> Option<u8> {
    if value < 0 {
        Some(0)
    } else if value <= 255 {
        Some(value as u8)
    } else {
        None
    }
}

fn precision(value: i32, field: &'static str) -> (r: Result<u8, ProviderError>)
    ensures
        spec_precision(value) matches Some(p) ==> r == Ok::<u8, ProviderError>(p),
        spec_precision(value) is None ==> r == Err::<u8, ProviderError>(
            ProviderError::Precision { field, value },
        ),
{
    if value < 0 {
        Ok(0)
    } else if value <= 255 {
        Ok(value as u8)
    } else {
        Err(ProviderError::Precision { field, value })
    }
}

/// A bound as the venue means it: a zero bound is inactive, so it maps to no bound.
pub open spec fn spec_optional_bound(raw: Seq<char>) -> Option<Seq<char>> {
    match decimal_from_str(raw) {
        Some(d) => if d.mantissa == 0 {
            None
        } else {
            normalize_outcome(raw, FIXED_PRECISION)
        },
        None => None,
    }
}

/// The value of a decimal string, if it parses.
fn parse_decimal_value(raw: &str) -> (r: Option<DecimalParts>)
    ensures
        r == decimal_from_str(raw@),
{
    crate::common::decimal::parse_decimal(raw)
}

/// An optional price, quantity or notional bound.
pub fn optional_bound(raw: &str) -> (r: Option<String>)
    ensures
        crate::text::opt_view(r) == spec_optional_bound(raw@),
{
    match parse_decimal_value(raw) {
        None => None,
        Some(d) => {
            if d.mantissa == 0 {
                None
            } else {
                match normalize(raw) {
                    Ok(s) => Some(s),
                    Err(_) => None,
                }
            }
        },
    }
}

/// A fee ratio, zero when malformed: a bad fee must not keep an instrument from loading.
pub open spec fn spec_fee(raw: Seq<char>) -> Seq<char> {
    match decimal_from_str(raw) {
        Some(d) => decimal_text(d),
        None => "0"@,
    }
}

fn fee(raw: &str) -> (s: String)
    ensures
        s@ == spec_fee(raw@),
{
    match parse_decimal_value(raw) {
        Some(d) => crate::common::decimal::decimal_parts_text(d),
        None => owned("0"),
    }
}

/// A required decimal field, normalised.
fn required(raw: &str, field: &'static str) -> (r: Result<String, ProviderError>)
    ensures
        normalize_outcome(raw@, FIXED_PRECISION) matches Some(t) ==> (r matches Ok(s) && s@ == t),
        normalize_outcome(raw@, FIXED_PRECISION) is None ==> (r matches Err(
            ProviderError::InvalidValue { field: f, value },
        ) && f == field && value@ == raw@),
{
    match normalize(raw) {
        Ok(s) => Ok(s),
        Err(_) => Err(ProviderError::InvalidValue { field, value: owned(raw) }),
    }
}

/// Whether a symbol's required fields convert: both precisions in range and both
/// increments decimal.
pub open spec fn converts(price_precision: i32, quantity_precision: i32, tick: Seq<char>, step: Seq<char>) -> bool {
    &&& spec_precision(price_precision) is Some
    &&& spec_precision(quantity_precision) is Some
    &&& normalize_outcome(tick, FIXED_PRECISION) is Some
    &&& normalize_outcome(step, FIXED_PRECISION) is Some
}

/// The refusal of a symbol that does not convert, checked in order: the price precision,
/// the quantity precision, the tick size, the step size.
pub open spec fn refusal_matches<T>(
    r: Result<T, ProviderError>,
    price_precision: i32,
    quantity_precision: i32,
    tick: Seq<char>,
    step: Seq<char>,
) -> bool {
    if spec_precision(price_precision) is None {
        r matches Err(ProviderError::Precision { field, value }) && field == "pricePrecision"
            && value == price_precision
    } else if spec_precision(quantity_precision) is None {
        r matches Err(ProviderError::Precision { field, value }) && field == "quantityPrecision"
            && value == quantity_precision
    } else if normalize_outcome(tick, FIXED_PRECISION) is None {
        r matches Err(ProviderError::InvalidValue { field, value }) && field == "tickSize" && value@
            == tick
    } else if normalize_outcome(step, FIXED_PRECISION) is None {
        r matches Err(ProviderError::InvalidValue { field, value }) && field == "stepSize" && value@
            == step
    } else {
        true
    }
}

/// The common part of both conversions: precisions, increments, bounds and fees.
pub open spec fn definition_matches(
    d: InstrumentDefinition,
    name: Seq<char>,
    venue: Seq<char>,
    price_precision: i32,
    quantity_precision: i32,
    tick: Seq<char>,
    step: Seq<char>,
    bounds: (Seq<char>, Seq<char>, Seq<char>, Seq<char>, Seq<char>, Seq<char>),
    fees: (Seq<char>, Seq<char>),
) -> bool {
    &&& d.instrument_id.symbol@ == name
    &&& d.instrument_id.venue@ == venue
    &&& d.raw_symbol@ == name
    &&& Some(d.price_precision) == spec_precision(price_precision)
    &&& Some(d.size_precision) == spec_precision(quantity_precision)
    &&& Some(d.price_increment@) == normalize_outcome(tick, FIXED_PRECISION)
    &&& Some(d.size_increment@) == normalize_outcome(step, FIXED_PRECISION)
    &&& crate::text::opt_view(d.min_price) == spec_optional_bound(bounds.0)
    &&& crate::text::opt_view(d.max_price) == spec_optional_bound(bounds.1)
    &&& crate::text::opt_view(d.min_quantity) == spec_optional_bound(bounds.2)
    &&& crate::text::opt_view(d.max_quantity) == spec_optional_bound(bounds.3)
    &&& crate::text::opt_view(d.min_notional) == spec_optional_bound(bounds.4)
    &&& crate::text::opt_view(d.max_notional) == spec_optional_bound(bounds.5)
    &&& d.maker_fee@ == spec_fee(fees.0)
    &&& d.taker_fee@ == spec_fee(fees.1)
}

/// The precision a listed coin takes: the engine's own when it defines the code, else the
/// listing's, clamped to the fixed-point maximum.
pub open spec fn resolved_precision(currencies: Map<Seq<char>, u8>, code: Seq<char>, precision: u8) -> u8 {
    if currencies.contains_key(code) {
        currencies[code]
    } else {
        clamped(precision)
    }
}

/// A listed coin as a currency: the engine's definition of its code when there is one,
/// otherwise a new currency with the listing's precision, clamped. Venues list coins no
/// standard table has (`vBTC`, `vUSDC` on testnet), so an unknown code is accepted.
pub fn resolve_currency(code: &str, precision: u8, currencies: &CurrencyRegistry) -> (c: CurrencySpec)
    ensures
        c.code@ == code@,
        c.precision == resolved_precision(currencies@, code@, precision),
{
    match currencies.precision_of(code) {
        Some(p) => CurrencySpec { code: owned(code), precision: p },
        None => CurrencySpec { code: owned(code), precision: currency_precision(precision) },
    }
}

fn currency(code: &Option<String>, precision: u8, currencies: &CurrencyRegistry) -> (c: CurrencySpec)
    ensures
        c.code@ == code_or_unknown(*code),
        c.precision == resolved_precision(currencies@, code_or_unknown(*code), precision),
{
    match code {
        Some(s) => resolve_currency(s.as_str(), precision, currencies),
        None => resolve_currency(UNKNOWN_CURRENCY, precision, currencies),
    }
}

/// Converts a spot symbol definition into an instrument on `venue`, its coins resolved
/// against the currencies the engine defines.
pub fn parse_spot_instrument(symbol: &SpotSymbol, venue: &Venue, currencies: &CurrencyRegistry) -> (r: Result<
    InstrumentDefinition,
    ProviderError,
>)
    ensures
        converts(symbol.price_precision, symbol.quantity_precision, symbol.tick_size@, symbol.step_size@)
            <==> r is Ok,
        refusal_matches(
            r,
            symbol.price_precision,
            symbol.quantity_precision,
            symbol.tick_size@,
            symbol.step_size@,
        ),
        r matches Ok(d) ==> definition_matches(
            d,
            symbol.name@,
            venue@,
            symbol.price_precision,
            symbol.quantity_precision,
            symbol.tick_size@,
            symbol.step_size@,
            (symbol.min_price@, symbol.max_price@, symbol.min_quantity@, symbol.max_quantity@, symbol.min_notional@, symbol.max_notional@),
            (symbol.maker_fee@, symbol.taker_fee@),
        ) && d.settlement_currency is None && !d.is_inverse && d.base_currency.precision
            == resolved_precision(
            currencies@,
            code_or_unknown(symbol.base_coin),
            match symbol.base_coin_precision {
                Some(p) => p,
                None => d.size_precision,
            },
        ) && d.quote_currency.precision == resolved_precision(
            currencies@,
            code_or_unknown(symbol.quote_coin),
            match symbol.quote_coin_precision {
                Some(p) => p,
                None => d.price_precision,
            },
        ),
        r matches Ok(d) ==> d.base_currency.code@ == code_or_unknown(symbol.base_coin)
            && d.quote_currency.code@ == code_or_unknown(symbol.quote_coin),
        r matches Ok(d) ==> d@ == spot_view(*symbol, venue@, currencies@),
{
    let price_precision = match precision(symbol.price_precision, "pricePrecision") {
        Ok(p) => p,
        Err(e) => return Err(e),
    };
    let size_precision = match precision(symbol.quantity_precision, "quantityPrecision") {
        Ok(p) => p,
        Err(e) => return Err(e),
    };
    let base_precision = match symbol.base_coin_precision {
        Some(p) => p,
        None => size_precision,
    };
    let quote_precision = match symbol.quote_coin_precision {
        Some(p) => p,
        None => price_precision,
    };
    let base = currency(&symbol.base_coin, base_precision, currencies);
    let quote = currency(&symbol.quote_coin, quote_precision, currencies);
    let price_increment = match required(symbol.tick_size.as_str(), "tickSize") {
        Ok(s) => s,
        Err(e) => return Err(e),
    };
    let size_increment = match required(symbol.step_size.as_str(), "stepSize") {
        Ok(s) => s,
        Err(e) => return Err(e),
    };
    Ok(
        InstrumentDefinition {
            instrument_id: InstrumentId::new(symbol.name.as_str(), venue.as_str()),
            raw_symbol: owned(symbol.name.as_str()),
            base_currency: base,
            quote_currency: quote,
            settlement_currency: None,
            is_inverse: false,
            price_precision,
            size_precision,
            price_increment,
            size_increment,
            max_quantity: optional_bound(symbol.max_quantity.as_str()),
            min_quantity: optional_bound(symbol.min_quantity.as_str()),
            max_notional: optional_bound(symbol.max_notional.as_str()),
            min_notional: optional_bound(symbol.min_notional.as_str()),
            max_price: optional_bound(symbol.max_price.as_str()),
            min_price: optional_bound(symbol.min_price.as_str()),
            maker_fee: fee(symbol.maker_fee.as_str()),
            taker_fee: fee(symbol.taker_fee.as_str()),
        },
    )
}

/// An instrument definition as the contracts see it: every text field by its characters.
pub struct DefinitionView {
    pub symbol: Seq<char>,
    pub venue: Seq<char>,
    pub raw_symbol: Seq<char>,
    /// Code and precision.
    pub base_currency: (Seq<char>, u8),
    /// Code and precision.
    pub quote_currency: (Seq<char>, u8),
    pub settlement_currency: Option<(Seq<char>, u8)>,
    pub is_inverse: bool,
    pub price_precision: u8,
    pub size_precision: u8,
    pub price_increment: Seq<char>,
    pub size_increment: Seq<char>,
    pub max_quantity: Option<Seq<char>>,
    pub min_quantity: Option<Seq<char>>,
    pub max_notional: Option<Seq<char>>,
    pub min_notional: Option<Seq<char>>,
    pub max_price: Option<Seq<char>>,
    pub min_price: Option<Seq<char>>,
    pub maker_fee: Seq<char>,
    pub taker_fee: Seq<char>,
}

pub open spec fn currency_view(c: CurrencySpec) -> (Seq<char>, u8) {
    (c.code@, c.precision)
}

impl View for InstrumentDefinition {
    type V = DefinitionView;

    open spec fn view(&self) -> DefinitionView {
        DefinitionView {
            symbol: self.instrument_id.symbol@,
            venue: self.instrument_id.venue@,
            raw_symbol: self.raw_symbol@,
            base_currency: currency_view(self.base_currency),
            quote_currency: currency_view(self.quote_currency),
            settlement_currency: match self.settlement_currency {
                Some(c) => Some(currency_view(c)),
                None => None,
            },
            is_inverse: self.is_inverse,
            price_precision: self.price_precision,
            size_precision: self.size_precision,
            price_increment: self.price_increment@,
            size_increment: self.size_increment@,
            max_quantity: crate::text::opt_view(self.max_quantity),
            min_quantity: crate::text::opt_view(self.min_quantity),
            max_notional: crate::text::opt_view(self.max_notional),
            min_notional: crate::text::opt_view(self.min_notional),
            max_price: crate::text::opt_view(self.max_price),
            min_price: crate::text::opt_view(self.min_price),
            maker_fee: self.maker_fee@,
            taker_fee: self.taker_fee@,
        }
    }
}

/// A listed coin code, or the placeholder when the listing names none.
pub open spec fn code_or_unknown(code: Option<String>) -> Seq<char> {
    match code {
        Some(s) => s@,
        None => UNKNOWN_CURRENCY@,
    }
}

/// The instrument a spot symbol that converts becomes on `venue`: precisions as the engine
/// takes them, increments normalised, zero bounds dropped, malformed fees zero; a coin the
/// engine defines keeps that definition, any other takes its listed precision, or the size
/// and price precision where none is listed.
pub open spec fn spot_view(symbol: SpotSymbol, venue: Seq<char>, currencies: Map<Seq<char>, u8>) -> DefinitionView {
    let price_precision = spec_precision(symbol.price_precision)->0;
    let size_precision = spec_precision(symbol.quantity_precision)->0;
    DefinitionView {
        symbol: symbol.name@,
        venue,
        raw_symbol: symbol.name@,
        base_currency: (
            code_or_unknown(symbol.base_coin),
            resolved_precision(
                currencies,
                code_or_unknown(symbol.base_coin),
                match symbol.base_coin_precision {
                    Some(p) => p,
                    None => size_precision,
                },
            ),
        ),
        quote_currency: (
            code_or_unknown(symbol.quote_coin),
            resolved_precision(
                currencies,
                code_or_unknown(symbol.quote_coin),
                match symbol.quote_coin_precision {
                    Some(p) => p,
                    None => price_precision,
                },
            ),
        ),
        settlement_currency: None,
        is_inverse: false,
        price_precision,
        size_precision,
        price_increment: normalize_outcome(symbol.tick_size@, FIXED_PRECISION)->0,
        size_increment: normalize_outcome(symbol.step_size@, FIXED_PRECISION)->0,
        max_quantity: spec_optional_bound(symbol.max_quantity@),
        min_quantity: spec_optional_bound(symbol.min_quantity@),
        max_notional: spec_optional_bound(symbol.max_notional@),
        min_notional: spec_optional_bound(symbol.min_notional@),
        max_price: spec_optional_bound(symbol.max_price@),
        min_price: spec_optional_bound(symbol.min_price@),
        maker_fee: spec_fee(symbol.maker_fee@),
        taker_fee: spec_fee(symbol.taker_fee@),
    }
}

/// The linear instrument a perpetual symbol that converts becomes on `venue`, settled in
/// its quote coin; the base index takes the size precision.
pub open spec fn perps_view(symbol: PerpsSymbol, venue: Seq<char>, currencies: Map<Seq<char>, u8>) -> DefinitionView {
    let price_precision = spec_precision(symbol.price_precision)->0;
    let size_precision = spec_precision(symbol.quantity_precision)->0;
    let quote = (
        symbol.quote_coin@,
        resolved_precision(currencies, symbol.quote_coin@, symbol.quote_coin_precision),
    );
    DefinitionView {
        symbol: symbol.name@,
        venue,
        raw_symbol: symbol.name@,
        base_currency: (
            symbol.base_coin@,
            resolved_precision(currencies, symbol.base_coin@, size_precision),
        ),
        quote_currency: quote,
        settlement_currency: Some(quote),
        is_inverse: false,
        price_precision,
        size_precision,
        price_increment: normalize_outcome(symbol.tick_size@, FIXED_PRECISION)->0,
        size_increment: normalize_outcome(symbol.step_size@, FIXED_PRECISION)->0,
        max_quantity: spec_optional_bound(symbol.max_quantity@),
        min_quantity: spec_optional_bound(symbol.min_quantity@),
        max_notional: spec_optional_bound(symbol.max_notional@),
        min_notional: spec_optional_bound(symbol.min_notional@),
        max_price: spec_optional_bound(symbol.max_price@),
        min_price: spec_optional_bound(symbol.min_price@),
        maker_fee: spec_fee(symbol.maker_fee@),
        taker_fee: spec_fee(symbol.taker_fee@),
    }
}

/// A currency precision clamped to the engine's maximum.
pub open spec fn clamped(p: u8) -> u8 {
    if p as u32 <= FIXED_PRECISION {
        p
    } else {
        FIXED_PRECISION as u8
    }
}

/// Converts a perpetual symbol definition into a linear instrument settled in the quote coin,
/// its coins resolved against the currencies the engine defines.
pub fn parse_perps_instrument(symbol: &PerpsSymbol, venue: &Venue, currencies: &CurrencyRegistry) -> (r: Result<
    InstrumentDefinition,
    ProviderError,
>)
    ensures
        converts(symbol.price_precision, symbol.quantity_precision, symbol.tick_size@, symbol.step_size@)
            <==> r is Ok,
        refusal_matches(
            r,
            symbol.price_precision,
            symbol.quantity_precision,
            symbol.tick_size@,
            symbol.step_size@,
        ),
        r matches Ok(d) ==> definition_matches(
            d,
            symbol.name@,
            venue@,
            symbol.price_precision,
            symbol.quantity_precision,
            symbol.tick_size@,
            symbol.step_size@,
            (symbol.min_price@, symbol.max_price@, symbol.min_quantity@, symbol.max_quantity@, symbol.min_notional@, symbol.max_notional@),
            (symbol.maker_fee@, symbol.taker_fee@),
        ) && !d.is_inverse && d.settlement_currency == Some(d.quote_currency)
            && d.base_currency.code@ == symbol.base_coin@ && d.base_currency.precision
            == resolved_precision(currencies@, symbol.base_coin@, d.size_precision)
            && d.quote_currency.code@ == symbol.quote_coin@ && d.quote_currency.precision
            == resolved_precision(currencies@, symbol.quote_coin@, symbol.quote_coin_precision),
        r matches Ok(d) ==> d@ == perps_view(*symbol, venue@, currencies@),
{
    let price_precision = match precision(symbol.price_precision, "pricePrecision") {
        Ok(p) => p,
        Err(e) => return Err(e),
    };
    let size_precision = match precision(symbol.quantity_precision, "quantityPrecision") {
        Ok(p) => p,
        Err(e) => return Err(e),
    };
    let base = resolve_currency(symbol.base_coin.as_str(), size_precision, currencies);
    let quote = resolve_currency(symbol.quote_coin.as_str(), symbol.quote_coin_precision, currencies);
    let settlement = CurrencySpec { code: quote.code.clone(), precision: quote.precision };
    let price_increment = match required(symbol.tick_size.as_str(), "tickSize") {
        Ok(s) => s,
        Err(e) => return Err(e),
    };
    let size_increment = match required(symbol.step_size.as_str(), "stepSize") {
        Ok(s) => s,
        Err(e) => return Err(e),
    };
    Ok(
        InstrumentDefinition {
            instrument_id: InstrumentId::new(symbol.name.as_str(), venue.as_str()),
            raw_symbol: owned(symbol.name.as_str()),
            base_currency: base,
            quote_currency: quote,
            settlement_currency: Some(settlement),
            is_inverse: false,
            price_precision,
            size_precision,
            price_increment,
            size_increment,
            max_quantity: optional_bound(symbol.max_quantity.as_str()),
            min_quantity: optional_bound(symbol.min_quantity.as_str()),
            max_notional: optional_bound(symbol.max_notional.as_str()),
            min_notional: optional_bound(symbol.min_notional.as_str()),
            max_price: optional_bound(symbol.max_price.as_str()),
            min_price: optional_bound(symbol.min_price.as_str()),
            maker_fee: fee(symbol.maker_fee.as_str()),
            taker_fee: fee(symbol.taker_fee.as_str()),
        },
    )
}

/// The instrument id of a venue symbol.
pub fn instrument_id_for(raw_symbol: &str, venue: &Venue) -> (id: InstrumentId)
    ensures
        id.symbol@ == raw_symbol@,
        id.venue@ == venue@,
{
    InstrumentId::new(raw_symbol, venue.as_str())
}

/// The instruments of one engine and their numeric symbol ids, one entry per symbol name.
#[derive(Debug)]
pub struct SodexInstrumentProvider {
    network: Network,
    market: Market,
    venue: Venue,
    currencies: CurrencyRegistry,
    entries: Vec<(InstrumentDefinition, u64)>,
}

/// What a provider holds: its network and market, and the loaded instruments by symbol name
/// with their symbol ids, in load order.
pub struct ProviderState {
    pub network: Network,
    pub market: Market,
    pub venue: Seq<char>,
    pub names: Seq<Seq<char>>,
    pub symbol_ids: Seq<u64>,
    /// The definition loaded under each name, at that name's position.
    pub definitions: Seq<DefinitionView>,
    /// The currencies the engine defines, by code, with their precision.
    pub currencies: Map<Seq<char>, u8>,
}

pub open spec fn entry_names(entries: Seq<(InstrumentDefinition, u64)>) -> Seq<Seq<char>> {
    entries.map_values(|e: (InstrumentDefinition, u64)| e.0.instrument_id.symbol@)
}

pub open spec fn entry_ids(entries: Seq<(InstrumentDefinition, u64)>) -> Seq<u64> {
    entries.map_values(|e: (InstrumentDefinition, u64)| e.1)
}

pub open spec fn entry_defs(entries: Seq<(InstrumentDefinition, u64)>) -> Seq<DefinitionView> {
    entries.map_values(|e: (InstrumentDefinition, u64)| e.0@)
}

impl View for SodexInstrumentProvider {
    type V = ProviderState;

    closed spec fn view(&self) -> ProviderState {
        ProviderState {
            network: self.network,
            market: self.market,
            venue: self.venue@,
            names: entry_names(self.entries@),
            symbol_ids: entry_ids(self.entries@),
            definitions: entry_defs(self.entries@),
            currencies: self.currencies@,
        }
    }
}

/// No symbol name occurs twice.
pub open spec fn distinct_names(names: Seq<Seq<char>>) -> bool {
    forall|i: int, j: int| 0 <= i < j < names.len() ==> names[i] != names[j]
}

/// Whether `name` is among `names`.
pub open spec fn has_name(names: Seq<Seq<char>>, name: Seq<char>) -> bool {
    exists|j: int| 0 <= j < names.len() && names[j] == name
}

/// The symbol id recorded for `name`, if any.
pub open spec fn id_of(names: Seq<Seq<char>>, ids: Seq<u64>, name: Seq<char>) -> Option<u64> {
    if has_name(names, name) {
        Some(ids[choose|j: int| 0 <= j < names.len() && names[j] == name])
    } else {
        None
    }
}

/// The definition recorded for `name`, if any.
pub open spec fn def_of(names: Seq<Seq<char>>, defs: Seq<DefinitionView>, name: Seq<char>) -> Option<
    DefinitionView,
> {
    if has_name(names, name) {
        Some(defs[choose|j: int| 0 <= j < names.len() && names[j] == name])
    } else {
        None
    }
}

/// Records `def` for `name` at the position [`upsert`] gives that name.
pub open spec fn upsert_def(
    names: Seq<Seq<char>>,
    defs: Seq<DefinitionView>,
    name: Seq<char>,
    def: DefinitionView,
) -> Seq<DefinitionView> {
    if has_name(names, name) {
        defs.update(choose|j: int| 0 <= j < names.len() && names[j] == name, def)
    } else {
        defs.push(def)
    }
}

/// Records `id` for `name`: a name already present keeps its place and takes the new id,
/// a new name is appended.
pub open spec fn upsert(names: Seq<Seq<char>>, ids: Seq<u64>, name: Seq<char>, id: u64) -> (
    Seq<Seq<char>>,
    Seq<u64>,
) {
    if has_name(names, name) {
        (names, ids.update(choose|j: int| 0 <= j < names.len() && names[j] == name, id))
    } else {
        (names.push(name), ids.push(id))
    }
}

/// Names, ids and definitions after ingesting `symbols` in order on `venue`, and whether every tradable one
/// converted: symbols not trading are skipped, and ingestion stops at the first tradable
/// symbol that does not convert, keeping what came before it.
pub open spec fn ingest_spot_spec(
    names: Seq<Seq<char>>,
    ids: Seq<u64>,
    defs: Seq<DefinitionView>,
    symbols: Seq<SpotSymbol>,
    venue: Seq<char>,
    currencies: Map<Seq<char>, u8>,
) -> (Seq<Seq<char>>, Seq<u64>, Seq<DefinitionView>, bool)
    decreases symbols.len(),
{
    if symbols.len() == 0 {
        (names, ids, defs, true)
    } else {
        let (n, i, ds, ok) = ingest_spot_spec(names, ids, defs, symbols.drop_last(), venue, currencies);
        let s = symbols.last();
        if !ok || s.status@ != STATUS_TRADING@ {
            (n, i, ds, ok)
        } else if !converts(s.price_precision, s.quantity_precision, s.tick_size@, s.step_size@) {
            (n, i, ds, false)
        } else {
            let (n2, i2) = upsert(n, i, s.name@, s.id);
            (n2, i2, upsert_def(n, ds, s.name@, spot_view(s, venue, currencies)), true)
        }
    }
}

/// As [`ingest_spot_spec`], for perpetual symbols.
pub open spec fn ingest_perps_spec(
    names: Seq<Seq<char>>,
    ids: Seq<u64>,
    defs: Seq<DefinitionView>,
    symbols: Seq<PerpsSymbol>,
    venue: Seq<char>,
    currencies: Map<Seq<char>, u8>,
) -> (Seq<Seq<char>>, Seq<u64>, Seq<DefinitionView>, bool)
    decreases symbols.len(),
{
    if symbols.len() == 0 {
        (names, ids, defs, true)
    } else {
        let (n, i, ds, ok) = ingest_perps_spec(names, ids, defs, symbols.drop_last(), venue, currencies);
        let s = symbols.last();
        if !ok || s.status@ != STATUS_TRADING@ {
            (n, i, ds, ok)
        } else if !converts(s.price_precision, s.quantity_precision, s.tick_size@, s.step_size@) {
            (n, i, ds, false)
        } else {
            let (n2, i2) = upsert(n, i, s.name@, s.id);
            (n2, i2, upsert_def(n, ds, s.name@, perps_view(s, venue, currencies)), true)
        }
    }
}

/// Records one converted instrument in `entries`, replacing an entry of the same name.
fn upsert_entry(entries: &mut Vec<(InstrumentDefinition, u64)>, definition: InstrumentDefinition, id: u64)
    requires
        distinct_names(entry_names(old(entries)@)),
    ensures
        distinct_names(entry_names(final(entries)@)),
        (entry_names(final(entries)@), entry_ids(final(entries)@)) == upsert(
            entry_names(old(entries)@),
            entry_ids(old(entries)@),
            definition.instrument_id.symbol@,
            id,
        ),
        entry_defs(final(entries)@) == upsert_def(
            entry_names(old(entries)@),
            entry_defs(old(entries)@),
            definition.instrument_id.symbol@,
            definition@,
        ),
        forall|k: int|
            0 <= k < final(entries)@.len() ==> (#[trigger] final(entries)@[k]).0.instrument_id.venue@
                == definition.instrument_id.venue@ || (k < old(entries)@.len()
                && final(entries)@[k] == old(entries)@[k]),
{
    let ghost names = entry_names(entries@);
    let ghost name = definition.instrument_id.symbol@;
    let mut j: usize = 0;
    while j < entries.len()
        invariant
            j <= entries@.len(),
            entries@ == old(entries)@,
            names == entry_names(entries@),
            distinct_names(names),
            name == definition.instrument_id.symbol@,
            forall|k: int| 0 <= k < j ==> names[k] != name,
        decreases entries@.len() - j,
    {
        let current = &entries[j];
        proof {
            assert(names[j as int] == current.0.instrument_id.symbol@);
        }
        if str_eq(current.0.instrument_id.symbol.as_str(), definition.instrument_id.symbol.as_str()) {
            proof {
                assert(names[j as int] == name);
                assert(has_name(names, name));
                let c = choose|k: int| 0 <= k < names.len() && names[k] == name;
                assert(c == j as int);
            }
            let ghost dv = definition@;
            entries.set(j, (definition, id));
            proof {
                assert(entry_names(entries@) =~= names);
                assert(entry_ids(entries@) =~= entry_ids(old(entries)@).update(j as int, id));
                assert(entry_defs(entries@) =~= entry_defs(old(entries)@).update(j as int, dv));
            }
            return;
        }
        j = j + 1;
    }
    proof {
        assert(!has_name(names, name));
    }
    let ghost dv = definition@;
    entries.push((definition, id));
    proof {
        assert(entry_names(entries@) =~= names.push(name));
        assert(entry_ids(entries@) =~= entry_ids(old(entries)@).push(id));
        assert(entry_defs(entries@) =~= entry_defs(old(entries)@).push(dv));
    }
}

impl SodexInstrumentProvider {
    #[verifier::type_invariant]
    spec fn aligned(self) -> bool {
        &&& self.venue@ == spec_venue_name(self.market)
        &&& distinct_names(entry_names(self.entries@))
        &&& forall|i: int|
            0 <= i < self.entries@.len() ==> #[trigger] self.entries@[i].0.instrument_id.venue@
                == self.venue@
    }

    /// A provider for one engine on `network`, with nothing loaded.
    pub fn new(network: Network, market: Market) -> (r: Result<Self, ProviderError>)
        ensures
            r matches Ok(p) && p@.network == network && p@.market == market && p@.venue
                == spec_venue_name(market) && p@.names.len() == 0 && p@.symbol_ids.len() == 0
                && p@.definitions.len() == 0 && p@.currencies == Map::<Seq<char>, u8>::empty(),
    {
        let p = SodexInstrumentProvider {
            network,
            market,
            venue: venue_for(market),
            currencies: CurrencyRegistry::new(),
            entries: Vec::new(),
        };
        proof {
            assert(entry_names(p.entries@) =~= Seq::<Seq<char>>::empty());
            assert(entry_ids(p.entries@) =~= Seq::<u64>::empty());
            assert(entry_defs(p.entries@) =~= Seq::<DefinitionView>::empty());
        }
        Ok(p)
    }

    /// The venue these instruments belong to.
    pub fn venue(&self) -> (v: Venue)
        ensures
            v@ == self@.venue,
    {
        Venue::new(self.venue.as_str())
    }

    /// The numeric symbol id an order must carry for this instrument; `None` before the
    /// instrument is loaded or for another venue's instrument.
    pub fn symbol_id(&self, instrument_id: &InstrumentId) -> (r: Option<u64>)
        ensures
            instrument_id.venue@ != self@.venue ==> r is None,
            instrument_id.venue@ == self@.venue ==> r == id_of(
                self@.names,
                self@.symbol_ids,
                instrument_id.symbol@,
            ),
    {
        proof {
            use_type_invariant(self);
        }
        if !str_eq(instrument_id.venue.as_str(), self.venue.as_str()) {
            return None;
        }
        let ghost names = self@.names;
        let ghost name = instrument_id.symbol@;
        let mut j: usize = 0;
        while j < self.entries.len()
            invariant
                j <= self.entries@.len(),
                names == entry_names(self.entries@),
                distinct_names(names),
                name == instrument_id.symbol@,
                instrument_id.venue@ == self@.venue,
                names == self@.names,
                forall|k: int| 0 <= k < j ==> names[k] != name,
            decreases self.entries@.len() - j,
        {
            let current = &self.entries[j];
            proof {
                assert(names[j as int] == current.0.instrument_id.symbol@);
            }
            if str_eq(current.0.instrument_id.symbol.as_str(), instrument_id.symbol.as_str()) {
                proof {
                    assert(names[j as int] == name);
                    let c = choose|k: int| 0 <= k < names.len() && names[k] == name;
                    assert(c == j as int);
                }
                return Some(current.1);
            }
            j = j + 1;
        }
        None
    }

    /// The loaded definition of an instrument; `None` before it is loaded or for another
    /// venue's instrument.
    pub fn find(&self, instrument_id: &InstrumentId) -> (r: Option<&InstrumentDefinition>)
        ensures
            instrument_id.venue@ != self@.venue ==> r is None,
            instrument_id.venue@ == self@.venue ==> (r is Some <==> has_name(
                self@.names,
                instrument_id.symbol@,
            )),
            r matches Some(d) ==> d.instrument_id.symbol@ == instrument_id.symbol@
                && d.instrument_id.venue@ == instrument_id.venue@,
            r matches Some(d) ==> def_of(self@.names, self@.definitions, instrument_id.symbol@)
                == Some(d@),
    {
        proof {
            use_type_invariant(self);
        }
        if !str_eq(instrument_id.venue.as_str(), self.venue.as_str()) {
            return None;
        }
        let ghost names = self@.names;
        let ghost name = instrument_id.symbol@;
        let mut j: usize = 0;
        while j < self.entries.len()
            invariant
                j <= self.entries@.len(),
                names == entry_names(self.entries@),
                name == instrument_id.symbol@,
                instrument_id.venue@ == self@.venue,
                names == self@.names,
                distinct_names(names),
                self@.definitions == entry_defs(self.entries@),
                self.venue@ == self@.venue,
                forall|i: int|
                    0 <= i < self.entries@.len() ==> #[trigger] self.entries@[i].0.instrument_id.venue@
                        == self.venue@,
                forall|k: int| 0 <= k < j ==> names[k] != name,
            decreases self.entries@.len() - j,
        {
            let current = &self.entries[j];
            proof {
                assert(names[j as int] == current.0.instrument_id.symbol@);
            }
            if str_eq(current.0.instrument_id.symbol.as_str(), instrument_id.symbol.as_str()) {
                proof {
                    assert(has_name(names, name));
                    assert(current.0.instrument_id.venue@ == self.venue@);
                    let c = choose|k: int| 0 <= k < names.len() && names[k] == name;
                    assert(c == j as int);
                    assert(self@.definitions[j as int] == current.0@);
                }
                return Some(&current.0);
            }
            j = j + 1;
        }
        proof {
            assert forall|k: int| 0 <= k < names.len() implies names[k] != name by {}
        }
        None
    }

    /// Number of instruments currently mapped.
    pub fn len(&self) -> (n: usize)
        ensures
            n == self@.names.len(),
            n == self@.symbol_ids.len(),
    {
        self.entries.len()
    }

    /// Whether nothing has been loaded.
    pub fn is_empty(&self) -> (b: bool)
        ensures
            b == (self@.names.len() == 0),
    {
        self.entries.len() == 0
    }

    /// The loaded definition at an index, in load order.
    pub fn instrument(&self, i: usize) -> (d: &InstrumentDefinition)
        requires
            i < self@.names.len(),
        ensures
            d.instrument_id.symbol@ == self@.names[i as int],
            d@ == self@.definitions[i as int],
    {
        &self.entries[i].0
    }

    /// Forgets every mapping, before the listing is loaded again.
    pub fn clear(&mut self)
        ensures
            final(self)@.network == old(self)@.network,
            final(self)@.market == old(self)@.market,
            final(self)@.venue == old(self)@.venue,
            final(self)@.names.len() == 0,
            final(self)@.symbol_ids.len() == 0,
            final(self)@.definitions.len() == 0,
            final(self)@.currencies == old(self)@.currencies,
    {
        proof {
            use_type_invariant(&*self);
        }
        let empty: Vec<(InstrumentDefinition, u64)> = Vec::new();
        proof {
            assert(entry_names(empty@) =~= Seq::<Seq<char>>::empty());
            assert(entry_ids(empty@) =~= Seq::<u64>::empty());
            assert(entry_defs(empty@) =~= Seq::<DefinitionView>::empty());
        }
        self.entries = empty;
    }

    /// Adds the tradable symbols of a spot listing, in order; the first one that does not
    /// convert stops the load with its error, keeping those before it.
    pub fn ingest_spot(&mut self, symbols: &Vec<SpotSymbol>) -> (r: Result<(), ProviderError>)
        ensures
            final(self)@.network == old(self)@.network,
            final(self)@.market == old(self)@.market,
            final(self)@.venue == old(self)@.venue,
            final(self)@.currencies == old(self)@.currencies,
            ({
                let (n, i, ds, ok) = ingest_spot_spec(
                    old(self)@.names,
                    old(self)@.symbol_ids,
                    old(self)@.definitions,
                    symbols@,
                    old(self)@.venue,
                    old(self)@.currencies,
                );
                &&& final(self)@.names == n
                &&& final(self)@.symbol_ids == i
                &&& final(self)@.definitions == ds
                &&& (r is Ok <==> ok)
            }),
    {
        proof {
            use_type_invariant(&*self);
        }
        let mut entries: Vec<(InstrumentDefinition, u64)> = Vec::new();
        std::mem::swap(&mut entries, &mut self.entries);
        let ghost names0 = entry_names(entries@);
        let ghost ids0 = entry_ids(entries@);
        let ghost defs0 = entry_defs(entries@);
        let venue = Venue::new(self.venue.as_str());
        let mut k: usize = 0;
        let mut result: Result<(), ProviderError> = Ok(());
        while k < symbols.len() && result.is_ok()
            invariant
                k <= symbols@.len(),
                venue@ == self.venue@,
                distinct_names(entry_names(entries@)),
                forall|i: int|
                    0 <= i < entries@.len() ==> #[trigger] entries@[i].0.instrument_id.venue@ == venue@,
                ({
                    let (n, i, ds, ok) = ingest_spot_spec(
                        names0,
                        ids0,
                        defs0,
                        symbols@.take(k as int),
                        venue@,
                        self.currencies@,
                    );
                    &&& entry_names(entries@) == n
                    &&& entry_ids(entries@) == i
                    &&& entry_defs(entries@) == ds
                    &&& (result is Ok <==> ok)
                }),
            decreases symbols@.len() - k,
        {
            let symbol = &symbols[k];
            proof {
                assert(symbols@.take(k + 1).drop_last() =~= symbols@.take(k as int));
                assert(symbols@.take(k + 1).last() == symbols@[k as int]);
            }
            if str_eq(symbol.status.as_str(), STATUS_TRADING) {
                match parse_spot_instrument(symbol, &venue, &self.currencies) {
                    Ok(definition) => {
                        upsert_entry(&mut entries, definition, symbol.id);
                    },
                    Err(e) => {
                        result = Err(e);
                    },
                }
            }
            k = k + 1;
        }
        proof {
            if result is Ok {
                assert(symbols@.take(k as int) =~= symbols@);
            } else {
                lemma_ingest_spot_stops(names0, ids0, defs0, symbols@, venue@, self.currencies@, k as int);
            }
        }
        self.entries = entries;
        result
    }

    /// Adds the tradable symbols of a perps listing, in order; the first one that does not
    /// convert stops the load with its error, keeping those before it.
    pub fn ingest_perps(&mut self, symbols: &Vec<PerpsSymbol>) -> (r: Result<(), ProviderError>)
        ensures
            final(self)@.network == old(self)@.network,
            final(self)@.market == old(self)@.market,
            final(self)@.venue == old(self)@.venue,
            final(self)@.currencies == old(self)@.currencies,
            ({
                let (n, i, ds, ok) = ingest_perps_spec(
                    old(self)@.names,
                    old(self)@.symbol_ids,
                    old(self)@.definitions,
                    symbols@,
                    old(self)@.venue,
                    old(self)@.currencies,
                );
                &&& final(self)@.names == n
                &&& final(self)@.symbol_ids == i
                &&& final(self)@.definitions == ds
                &&& (r is Ok <==> ok)
            }),
    {
        proof {
            use_type_invariant(&*self);
        }
        let mut entries: Vec<(InstrumentDefinition, u64)> = Vec::new();
        std::mem::swap(&mut entries, &mut self.entries);
        let ghost names0 = entry_names(entries@);
        let ghost ids0 = entry_ids(entries@);
        let ghost defs0 = entry_defs(entries@);
        let venue = Venue::new(self.venue.as_str());
        let mut k: usize = 0;
        let mut result: Result<(), ProviderError> = Ok(());
        while k < symbols.len() && result.is_ok()
            invariant
                k <= symbols@.len(),
                venue@ == self.venue@,
                distinct_names(entry_names(entries@)),
                forall|i: int|
                    0 <= i < entries@.len() ==> #[trigger] entries@[i].0.instrument_id.venue@ == venue@,
                ({
                    let (n, i, ds, ok) = ingest_perps_spec(
                        names0,
                        ids0,
                        defs0,
                        symbols@.take(k as int),
                        venue@,
                        self.currencies@,
                    );
                    &&& entry_names(entries@) == n
                    &&& entry_ids(entries@) == i
                    &&& entry_defs(entries@) == ds
                    &&& (result is Ok <==> ok)
                }),
            decreases symbols@.len() - k,
        {
            let symbol = &symbols[k];
            proof {
                assert(symbols@.take(k + 1).drop_last() =~= symbols@.take(k as int));
                assert(symbols@.take(k + 1).last() == symbols@[k as int]);
            }
            if str_eq(symbol.status.as_str(), STATUS_TRADING) {
                match parse_perps_instrument(symbol, &venue, &self.currencies) {
                    Ok(definition) => {
                        upsert_entry(&mut entries, definition, symbol.id);
                    },
                    Err(e) => {
                        result = Err(e);
                    },
                }
            }
            k = k + 1;
        }
        proof {
            if result is Ok {
                assert(symbols@.take(k as int) =~= symbols@);
            } else {
                lemma_ingest_perps_stops(names0, ids0, defs0, symbols@, venue@, self.currencies@, k as int);
            }
        }
        self.entries = entries;
        result
    }


    /// Loads a spot listing afresh: the mapping is rebuilt from the listing, never merged,
    /// so a symbol absent from it leaves no entry behind.
    pub fn reload_spot(&mut self, symbols: &Vec<SpotSymbol>) -> (r: Result<(), ProviderError>)
        ensures
            final(self)@.network == old(self)@.network,
            final(self)@.market == old(self)@.market,
            final(self)@.venue == old(self)@.venue,
            final(self)@.currencies == old(self)@.currencies,
            ({
                let (n, i, ds, ok) = ingest_spot_spec(
                    Seq::empty(),
                    Seq::empty(),
                    Seq::empty(),
                    symbols@,
                    old(self)@.venue,
                    old(self)@.currencies,
                );
                &&& final(self)@.names == n
                &&& final(self)@.symbol_ids == i
                &&& final(self)@.definitions == ds
                &&& (r is Ok <==> ok)
            }),
    {
        self.clear();
        proof {
            assert(self@.names =~= Seq::<Seq<char>>::empty());
            assert(self@.symbol_ids =~= Seq::<u64>::empty());
            assert(self@.definitions =~= Seq::<DefinitionView>::empty());
        }
        self.ingest_spot(symbols)
    }

    /// Loads a perpetuals listing afresh, as [`Self::reload_spot`] does for spot.
    pub fn reload_perps(&mut self, symbols: &Vec<PerpsSymbol>) -> (r: Result<(), ProviderError>)
        ensures
            final(self)@.network == old(self)@.network,
            final(self)@.market == old(self)@.market,
            final(self)@.venue == old(self)@.venue,
            final(self)@.currencies == old(self)@.currencies,
            ({
                let (n, i, ds, ok) = ingest_perps_spec(
                    Seq::empty(),
                    Seq::empty(),
                    Seq::empty(),
                    symbols@,
                    old(self)@.venue,
                    old(self)@.currencies,
                );
                &&& final(self)@.names == n
                &&& final(self)@.symbol_ids == i
                &&& final(self)@.definitions == ds
                &&& (r is Ok <==> ok)
            }),
    {
        self.clear();
        proof {
            assert(self@.names =~= Seq::<Seq<char>>::empty());
            assert(self@.symbol_ids =~= Seq::<u64>::empty());
            assert(self@.definitions =~= Seq::<DefinitionView>::empty());
        }
        self.ingest_perps(symbols)
    }

    /// Records a currency the engine defines, so that coins listed under its code take its
    /// definition from the next load on.
    pub fn register_currency(&mut self, code: &str, precision: u8)
        ensures
            final(self)@ == (ProviderState {
                currencies: old(self)@.currencies.insert(code@, precision),
                ..old(self)@
            }),
    {
        proof {
            use_type_invariant(&*self);
        }
        let mut currencies = CurrencyRegistry::new();
        std::mem::swap(&mut currencies, &mut self.currencies);
        currencies.register(code, precision);
        self.currencies = currencies;
    }

    /// Whether this provider can load `instrument_id`: only instruments of its own venue.
    pub fn load_target(&self, instrument_id: &InstrumentId) -> (r: Result<(), ProviderError>)
        ensures
            r is Ok <==> instrument_id.venue@ == self@.venue,
            r matches Err(ProviderError::WrongVenue { venue }) ==> venue@ == instrument_id.venue@,
            r is Err ==> r matches Err(ProviderError::WrongVenue { .. }),
    {
        if str_eq(instrument_id.venue.as_str(), self.venue.as_str()) {
            Ok(())
        } else {
            Err(ProviderError::WrongVenue { venue: owned(instrument_id.venue.as_str()) })
        }
    }
}

proof fn lemma_ingest_spot_stops(
    names: Seq<Seq<char>>,
    ids: Seq<u64>,
    defs: Seq<DefinitionView>,
    symbols: Seq<SpotSymbol>,
    venue: Seq<char>,
    currencies: Map<Seq<char>, u8>,
    k: int,
)
    requires
        0 <= k <= symbols.len(),
        !ingest_spot_spec(names, ids, defs, symbols.take(k), venue, currencies).3,
    ensures
        ingest_spot_spec(names, ids, defs, symbols, venue, currencies) == ingest_spot_spec(
            names,
            ids,
            defs,
            symbols.take(k),
            venue,
            currencies,
        ),
    decreases symbols.len() - k,
{
    if k == symbols.len() {
        assert(symbols.take(k) =~= symbols);
    } else {
        assert(symbols.take(k + 1).drop_last() =~= symbols.take(k));
        lemma_ingest_spot_stops(names, ids, defs, symbols, venue, currencies, k + 1);
    }
}

proof fn lemma_ingest_perps_stops(
    names: Seq<Seq<char>>,
    ids: Seq<u64>,
    defs: Seq<DefinitionView>,
    symbols: Seq<PerpsSymbol>,
    venue: Seq<char>,
    currencies: Map<Seq<char>, u8>,
    k: int,
)
    requires
        0 <= k <= symbols.len(),
        !ingest_perps_spec(names, ids, defs, symbols.take(k), venue, currencies).3,
    ensures
        ingest_perps_spec(names, ids, defs, symbols, venue, currencies) == ingest_perps_spec(
            names,
            ids,
            defs,
            symbols.take(k),
            venue,
            currencies,
        ),
    decreases symbols.len() - k,
{
    if k == symbols.len() {
        assert(symbols.take(k) =~= symbols);
    } else {
        assert(symbols.take(k + 1).drop_last() =~= symbols.take(k));
        lemma_ingest_perps_stops(names, ids, defs, symbols, venue, currencies, k + 1);
    }
}

/// Recording an id for a name keeps names distinct and makes a lookup of that name give
/// back that id, whatever was recorded for it before.
pub proof fn lemma_upsert_then_lookup(names: Seq<Seq<char>>, ids: Seq<u64>, name: Seq<char>, id: u64)
    requires
        distinct_names(names),
        names.len() == ids.len(),
    ensures
        distinct_names(upsert(names, ids, name, id).0),
        upsert(names, ids, name, id).0.len() == upsert(names, ids, name, id).1.len(),
        id_of(upsert(names, ids, name, id).0, upsert(names, ids, name, id).1, name) == Some(id),
{
    let (n2, i2) = upsert(names, ids, name, id);
    if has_name(names, name) {
        let j = choose|j: int| 0 <= j < names.len() && names[j] == name;
        assert(has_name(n2, name));
        let c = choose|k: int| 0 <= k < n2.len() && n2[k] == name;
        assert(c == j);
    } else {
        assert(n2[names.len() as int] == name);
        assert(has_name(n2, name));
        let c = choose|k: int| 0 <= k < n2.len() && n2[k] == name;
        assert(c == names.len());
    }
}

/// Recording an id for one name leaves every other name's lookup as it was.
pub proof fn lemma_upsert_keeps_others(
    names: Seq<Seq<char>>,
    ids: Seq<u64>,
    name: Seq<char>,
    id: u64,
    other: Seq<char>,
)
    requires
        distinct_names(names),
        names.len() == ids.len(),
        other != name,
    ensures
        id_of(upsert(names, ids, name, id).0, upsert(names, ids, name, id).1, other) == id_of(
            names,
            ids,
            other,
        ),
{
    let (n2, i2) = upsert(names, ids, name, id);
    if has_name(names, other) {
        let j = choose|j: int| 0 <= j < names.len() && names[j] == other;
        assert(n2[j] == other);
        assert(has_name(n2, other));
        let c = choose|k: int| 0 <= k < n2.len() && n2[k] == other;
        assert(c == j);
        if has_name(names, name) {
            let p = choose|j: int| 0 <= j < names.len() && names[j] == name;
            assert(p != j);
        }
    } else {
        assert(!has_name(n2, other)) by {
            if has_name(n2, other) {
                let c = choose|k: int| 0 <= k < n2.len() && n2[k] == other;
                if c < names.len() {
                    assert(names[c] == other);
                }
            }
        }
    }
}

/// Recording a definition for a name makes a lookup of that name give back that definition,
/// whatever was recorded for it before.
pub proof fn lemma_upsert_def_then_lookup(
    names: Seq<Seq<char>>,
    defs: Seq<DefinitionView>,
    ids: Seq<u64>,
    name: Seq<char>,
    id: u64,
    def: DefinitionView,
)
    requires
        distinct_names(names),
        names.len() == defs.len(),
    ensures
        def_of(upsert(names, ids, name, id).0, upsert_def(names, defs, name, def), name) == Some(
            def,
        ),
{
    let n2 = upsert(names, ids, name, id).0;
    if has_name(names, name) {
        let j = choose|j: int| 0 <= j < names.len() && names[j] == name;
        assert(has_name(n2, name));
        let c = choose|k: int| 0 <= k < n2.len() && n2[k] == name;
        assert(c == j);
    } else {
        assert(n2[names.len() as int] == name);
        assert(has_name(n2, name));
        let c = choose|k: int| 0 <= k < n2.len() && n2[k] == name;
        assert(c == names.len());
    }
}

/// Loading a one-symbol spot listing: a symbol not trading leaves the mapping as it was; a
/// tradable one that converts is recorded under its id and with its converted definition,
/// whatever its name was recorded under before; a tradable one that does not convert stops
/// the load.
pub proof fn lemma_ingest_one_spot(
    names: Seq<Seq<char>>,
    ids: Seq<u64>,
    defs: Seq<DefinitionView>,
    symbol: SpotSymbol,
    venue: Seq<char>,
    currencies: Map<Seq<char>, u8>,
)
    requires
        distinct_names(names),
        names.len() == ids.len(),
        names.len() == defs.len(),
    ensures
        symbol.status@ != STATUS_TRADING@ ==> ingest_spot_spec(names, ids, defs, seq![symbol], venue, currencies)
            == (names, ids, defs, true),
        symbol.status@ == STATUS_TRADING@ && !converts(
            symbol.price_precision,
            symbol.quantity_precision,
            symbol.tick_size@,
            symbol.step_size@,
        ) ==> ingest_spot_spec(names, ids, defs, seq![symbol], venue, currencies) == (names, ids, defs, false),
        symbol.status@ == STATUS_TRADING@ && converts(
            symbol.price_precision,
            symbol.quantity_precision,
            symbol.tick_size@,
            symbol.step_size@,
        ) ==> ({
            let (n, i, ds, ok) = ingest_spot_spec(names, ids, defs, seq![symbol], venue, currencies);
            &&& ok
            &&& distinct_names(n)
            &&& id_of(n, i, symbol.name@) == Some(symbol.id)
            &&& def_of(n, ds, symbol.name@) == Some(spot_view(symbol, venue, currencies))
        }),
{
    let one = seq![symbol];
    assert(one.drop_last() =~= Seq::<SpotSymbol>::empty());
    assert(one.last() == symbol);
    assert(ingest_spot_spec(names, ids, defs, one.drop_last(), venue, currencies) == (names, ids, defs, true));
    lemma_upsert_then_lookup(names, ids, symbol.name@, symbol.id);
    lemma_upsert_def_then_lookup(names, defs, ids, symbol.name@, symbol.id, spot_view(symbol, venue, currencies));
}

} // verus!
