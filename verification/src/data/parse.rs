//! Conversion between venue market data and engine bar types.
//!
//! Bar intervals do not map one to one, and three restrictions are checked here rather than
//! left to fail at the venue or to return the wrong series silently:
//!
//! - the engine has no monthly aggregation, so the venue's `1M` is refused;
//! - the perps engine serves fewer intervals than spot (`3m`, `6h`, `8h`, `12h` and `3d`
//!   are spot-only);
//! - only a fixed set of steps exists per unit: a 2-minute bar has no venue interval, and
//!   rounding it to 1m or 3m would return a different series than was asked for.
//!
//! Only closed bars are safe to emit: the candle channel republishes the forming bar on
//! every block, and [`parse_bar`] refuses it.
use vstd::prelude::*;

use crate::common::decimal::{normalize, normalize_outcome, FIXED_PRECISION};
use crate::common::Market;
use crate::text::{owned, push_str, str_eq};
use crate::websocket::messages::Candle;

verus! {

/// Bar aggregation units of the engine's bar specifications.
#[derive(Debug, Clone, Copy, PartialEq, Eq, Hash, Structural)]
pub enum BarAggregation {
    Tick,
    Second,
    Minute,
    Hour,
    Day,
    Week,
}

/// Which price a bar aggregates.
#[derive(Debug, Clone, Copy, PartialEq, Eq, Hash, Structural)]
pub enum PriceType {
    Bid,
    Ask,
    Mid,
    Last,
}

/// Where bars come from: computed by the venue, or aggregated locally from ticks.
#[derive(Debug, Clone, Copy, PartialEq, Eq, Hash, Structural)]
pub enum AggregationSource {
    External,
    Internal,
}

/// A bar specification: `step` units of `aggregation` over `price_type`.
#[derive(Debug, Clone, Copy, PartialEq, Eq, Hash, Structural)]
pub struct BarSpecification {
    pub step: usize,
    pub aggregation: BarAggregation,
    pub price_type: PriceType,
}

impl BarSpecification {
    pub fn new(step: usize, aggregation: BarAggregation, price_type: PriceType) -> (s: Self)
        ensures
            s == (BarSpecification { step, aggregation, price_type }),
    {
        BarSpecification { step, aggregation, price_type }
    }

    /// Milliseconds in one unit of the aggregation; zero for tick bars, which have no
    /// duration.
    pub open spec fn unit_ms(self) -> nat {
        match self.aggregation {
            BarAggregation::Tick => 0,
            BarAggregation::Second => 1000,
            BarAggregation::Minute => 60_000,
            BarAggregation::Hour => 3_600_000,
            BarAggregation::Day => 86_400_000,
            BarAggregation::Week => 604_800_000,
        }
    }

    /// The bar's duration in milliseconds.
    pub open spec fn spec_interval_ms(self) -> nat {
        (self.step as nat) * self.unit_ms()
    }

    /// The bar's duration in milliseconds, saturating at `u64::MAX`.
    pub fn interval_ms(&self) -> (ms: u64)
        ensures
            ms == (if self.spec_interval_ms() > u64::MAX {
                u64::MAX as nat
            } else {
                self.spec_interval_ms()
            }),
    {
        let unit: u64 = match self.aggregation {
            BarAggregation::Tick => 0,
            BarAggregation::Second => 1000,
            BarAggregation::Minute => 60_000,
            BarAggregation::Hour => 3_600_000,
            BarAggregation::Day => 86_400_000,
            BarAggregation::Week => 604_800_000,
        };
        let step = self.step as u64;
        match step.checked_mul(unit) {
            Some(ms) => ms,
            None => u64::MAX,
        }
    }
}

/// An instrument: a symbol on a venue.
#[derive(Debug, Clone, PartialEq, Eq, Hash)]
pub struct InstrumentId {
    pub symbol: String,
    pub venue: String,
}

impl InstrumentId {
    pub fn new(symbol: &str, venue: &str) -> (id: Self)
        ensures
            id.symbol@ == symbol@,
            id.venue@ == venue@,
    {
        InstrumentId { symbol: owned(symbol), venue: owned(venue) }
    }

    /// The id as text, `SYMBOL.VENUE`.
    pub fn to_text(&self) -> (s: String)
        ensures
            s@ == instrument_text(*self),
    {
        let mut s = owned(self.symbol.as_str());
        push_str(&mut s, ".");
        push_str(&mut s, self.venue.as_str());
        s
    }
}

/// An instrument id as text: the symbol, a dot and the venue.
pub open spec fn instrument_text(id: InstrumentId) -> Seq<char> {
    id.symbol@ + "."@ + id.venue@
}

/// A bar series: instrument, specification and where the bars come from.
#[derive(Debug, Clone, PartialEq, Eq, Hash)]
pub struct BarType {
    pub instrument_id: InstrumentId,
    pub spec: BarSpecification,
    pub aggregation_source: AggregationSource,
}

impl BarType {
    /// An identical copy.
    pub fn clone_type(&self) -> (r: Self)
        ensures
            r == *self,
    {
        BarType {
            instrument_id: InstrumentId {
                symbol: self.instrument_id.symbol.clone(),
                venue: self.instrument_id.venue.clone(),
            },
            spec: self.spec,
            aggregation_source: self.aggregation_source,
        }
    }

    pub fn spec(&self) -> (s: BarSpecification)
        ensures
            s == self.spec,
    {
        self.spec
    }

    pub fn aggregation_source(&self) -> (a: AggregationSource)
        ensures
            a == self.aggregation_source,
    {
        self.aggregation_source
    }
}

/// One bar, prices and volume as normalised decimal text, times in nanoseconds.
#[derive(Debug, Clone, PartialEq, Eq)]
pub struct Bar {
    pub bar_type: BarType,
    pub open: String,
    pub high: String,
    pub low: String,
    pub close: String,
    pub volume: String,
    /// The bar's open time, nanoseconds.
    pub ts_event: u64,
    pub ts_init: u64,
}

/// Why a bar specification or a bar cannot be served.
#[derive(Debug, Clone, PartialEq, Eq)]
pub enum BarMappingError {
    /// No venue interval serves this step of this unit.
    NoSuchInterval { step: usize, aggregation: BarAggregation },
    /// The interval exists on spot only.
    SpotOnly { interval: &'static str },
    /// The text is not an interval the venue serves.
    UnknownInterval(String),
    /// The candle is still forming.
    BarNotClosed,
    /// A price or volume is not a decimal number.
    InvalidValue { field: &'static str, value: String, reason: String },
}

/// Reason attached to a field that is not a decimal number.
pub const NOT_A_DECIMAL: &'static str = "not a decimal number";

/// The venue interval serving `step` bars of `aggregation`, if any.
pub open spec fn venue_interval(step: usize, aggregation: BarAggregation) -> Option<Seq<char>> {
    if aggregation == BarAggregation::Minute && step == 1 {
        Some("1m"@)
    } else if aggregation == BarAggregation::Minute && step == 3 {
        Some("3m"@)
    } else if aggregation == BarAggregation::Minute && step == 5 {
        Some("5m"@)
    } else if aggregation == BarAggregation::Minute && step == 15 {
        Some("15m"@)
    } else if aggregation == BarAggregation::Minute && step == 30 {
        Some("30m"@)
    } else if aggregation == BarAggregation::Hour && step == 1 {
        Some("1h"@)
    } else if aggregation == BarAggregation::Hour && step == 4 {
        Some("4h"@)
    } else if aggregation == BarAggregation::Hour && step == 6 {
        Some("6h"@)
    } else if aggregation == BarAggregation::Hour && step == 8 {
        Some("8h"@)
    } else if aggregation == BarAggregation::Hour && step == 12 {
        Some("12h"@)
    } else if aggregation == BarAggregation::Day && step == 1 {
        Some("1d"@)
    } else if aggregation == BarAggregation::Day && step == 3 {
        Some("3d"@)
    } else if aggregation == BarAggregation::Week && step == 1 {
        Some("1w"@)
    } else {
        None
    }
}

/// The step and aggregation a venue interval stands for, if it is one the venue serves.
pub open spec fn interval_spec(interval: Seq<char>) -> Option<(usize, BarAggregation)> {
    if interval == "1m"@ {
        Some((1usize, BarAggregation::Minute))
    } else if interval == "3m"@ {
        Some((3usize, BarAggregation::Minute))
    } else if interval == "5m"@ {
        Some((5usize, BarAggregation::Minute))
    } else if interval == "15m"@ {
        Some((15usize, BarAggregation::Minute))
    } else if interval == "30m"@ {
        Some((30usize, BarAggregation::Minute))
    } else if interval == "1h"@ {
        Some((1usize, BarAggregation::Hour))
    } else if interval == "4h"@ {
        Some((4usize, BarAggregation::Hour))
    } else if interval == "6h"@ {
        Some((6usize, BarAggregation::Hour))
    } else if interval == "8h"@ {
        Some((8usize, BarAggregation::Hour))
    } else if interval == "12h"@ {
        Some((12usize, BarAggregation::Hour))
    } else if interval == "1d"@ {
        Some((1usize, BarAggregation::Day))
    } else if interval == "3d"@ {
        Some((3usize, BarAggregation::Day))
    } else if interval == "1w"@ {
        Some((1usize, BarAggregation::Week))
    } else {
        None
    }
}

/// Whether the venue serves an interval on its spot engine only.
pub open spec fn spot_only(interval: Seq<char>) -> bool {
    interval == "3m"@ || interval == "6h"@ || interval == "8h"@ || interval == "12h"@ || interval == "3d"@
}

fn lookup(step: usize, aggregation: BarAggregation) -> (r: Option<(&'static str, bool)>)
    ensures
        r matches Some(p) ==> venue_interval(step, aggregation) == Some(p.0@) && p.1 == spot_only(p.0@),
        r is None ==> venue_interval(step, aggregation) is None,
{
    proof {
        lemma_interval_texts();
    }
    if aggregation == BarAggregation::Minute && step == 1 {
        Some(("1m", false))
    } else if aggregation == BarAggregation::Minute && step == 3 {
        Some(("3m", true))
    } else if aggregation == BarAggregation::Minute && step == 5 {
        Some(("5m", false))
    } else if aggregation == BarAggregation::Minute && step == 15 {
        Some(("15m", false))
    } else if aggregation == BarAggregation::Minute && step == 30 {
        Some(("30m", false))
    } else if aggregation == BarAggregation::Hour && step == 1 {
        Some(("1h", false))
    } else if aggregation == BarAggregation::Hour && step == 4 {
        Some(("4h", false))
    } else if aggregation == BarAggregation::Hour && step == 6 {
        Some(("6h", true))
    } else if aggregation == BarAggregation::Hour && step == 8 {
        Some(("8h", true))
    } else if aggregation == BarAggregation::Hour && step == 12 {
        Some(("12h", true))
    } else if aggregation == BarAggregation::Day && step == 1 {
        Some(("1d", false))
    } else if aggregation == BarAggregation::Day && step == 3 {
        Some(("3d", true))
    } else if aggregation == BarAggregation::Week && step == 1 {
        Some(("1w", false))
    } else {
        None
    }
}

fn find_interval(interval: &str) -> (r: Option<(usize, BarAggregation)>)
    ensures
        r == interval_spec(interval@),
{
    if str_eq(interval, "1m") {
        Some((1, BarAggregation::Minute))
    } else if str_eq(interval, "3m") {
        Some((3, BarAggregation::Minute))
    } else if str_eq(interval, "5m") {
        Some((5, BarAggregation::Minute))
    } else if str_eq(interval, "15m") {
        Some((15, BarAggregation::Minute))
    } else if str_eq(interval, "30m") {
        Some((30, BarAggregation::Minute))
    } else if str_eq(interval, "1h") {
        Some((1, BarAggregation::Hour))
    } else if str_eq(interval, "4h") {
        Some((4, BarAggregation::Hour))
    } else if str_eq(interval, "6h") {
        Some((6, BarAggregation::Hour))
    } else if str_eq(interval, "8h") {
        Some((8, BarAggregation::Hour))
    } else if str_eq(interval, "12h") {
        Some((12, BarAggregation::Hour))
    } else if str_eq(interval, "1d") {
        Some((1, BarAggregation::Day))
    } else if str_eq(interval, "3d") {
        Some((3, BarAggregation::Day))
    } else if str_eq(interval, "1w") {
        Some((1, BarAggregation::Week))
    } else {
        None
    }
}

proof fn lemma_interval_texts()
    ensures
        "1m"@ == seq!['1', 'm'],
        "3m"@ == seq!['3', 'm'],
        "5m"@ == seq!['5', 'm'],
        "15m"@ == seq!['1', '5', 'm'],
        "30m"@ == seq!['3', '0', 'm'],
        "1h"@ == seq!['1', 'h'],
        "4h"@ == seq!['4', 'h'],
        "6h"@ == seq!['6', 'h'],
        "8h"@ == seq!['8', 'h'],
        "12h"@ == seq!['1', '2', 'h'],
        "1d"@ == seq!['1', 'd'],
        "3d"@ == seq!['3', 'd'],
        "1w"@ == seq!['1', 'w'],
{
    reveal_strlit("1m");
    assert("1m"@ =~= seq!['1', 'm']);
    reveal_strlit("3m");
    assert("3m"@ =~= seq!['3', 'm']);
    reveal_strlit("5m");
    assert("5m"@ =~= seq!['5', 'm']);
    reveal_strlit("15m");
    assert("15m"@ =~= seq!['1', '5', 'm']);
    reveal_strlit("30m");
    assert("30m"@ =~= seq!['3', '0', 'm']);
    reveal_strlit("1h");
    assert("1h"@ =~= seq!['1', 'h']);
    reveal_strlit("4h");
    assert("4h"@ =~= seq!['4', 'h']);
    reveal_strlit("6h");
    assert("6h"@ =~= seq!['6', 'h']);
    reveal_strlit("8h");
    assert("8h"@ =~= seq!['8', 'h']);
    reveal_strlit("12h");
    assert("12h"@ =~= seq!['1', '2', 'h']);
    reveal_strlit("1d");
    assert("1d"@ =~= seq!['1', 'd']);
    reveal_strlit("3d");
    assert("3d"@ =~= seq!['3', 'd']);
    reveal_strlit("1w");
    assert("1w"@ =~= seq!['1', 'w']);
}

/// Every interval maps back to the specification it was produced from, and back again.
pub proof fn lemma_interval_round_trip(step: usize, aggregation: BarAggregation, interval: Seq<char>)
    ensures
        venue_interval(step, aggregation) == Some(interval) ==> interval_spec(interval) == Some(
            (step, aggregation),
        ),
        interval_spec(interval) == Some((step, aggregation)) ==> venue_interval(step, aggregation)
            == Some(interval),
{
    lemma_interval_texts();
}

/// The number written in decimal digits.
pub open spec fn digits_value(s: Seq<char>) -> nat
    decreases s.len(),
{
    if s.len() == 0 {
        0
    } else {
        digits_value(s.drop_last()) * 10 + ((s.last() as int - '0' as int) as nat)
    }
}

/// Milliseconds in the unit a venue interval ends with: `m`inute, `h`our, `d`ay, `w`eek.
pub open spec fn unit_letter_ms(c: char) -> nat {
    if c == 'm' {
        60_000
    } else if c == 'h' {
        3_600_000
    } else if c == 'd' {
        86_400_000
    } else if c == 'w' {
        604_800_000
    } else {
        0
    }
}

/// The duration a venue interval text names: its leading number times its unit.
pub open spec fn written_duration_ms(interval: Seq<char>) -> nat {
    digits_value(interval.drop_last()) * unit_letter_ms(interval.last())
}

/// A venue interval says how long its bars are: the interval serving `step` units of
/// `aggregation` is written as a duration of exactly that many milliseconds, and an
/// interval text stands for a specification of the duration it names. No bar series is
/// served from an interval of another length.
pub proof fn lemma_interval_names_its_duration(step: usize, aggregation: BarAggregation, interval: Seq<char>)
    ensures
        venue_interval(step, aggregation) == Some(interval) ==> written_duration_ms(interval) == (
        BarSpecification { step, aggregation, price_type: PriceType::Last }).spec_interval_ms(),
        interval_spec(interval) == Some((step, aggregation)) ==> written_duration_ms(interval) == (
        BarSpecification { step, aggregation, price_type: PriceType::Last }).spec_interval_ms(),
{
    lemma_interval_texts();
    reveal_with_fuel(digits_value, 3);
    assert(seq!['1', '5'].drop_last() =~= seq!['1']);
    assert(seq!['3', '0'].drop_last() =~= seq!['3']);
    assert(seq!['1', '2'].drop_last() =~= seq!['1']);
    assert(seq!['1'].drop_last() =~= Seq::<char>::empty());
    assert(seq!['3'].drop_last() =~= Seq::<char>::empty());
    assert(seq!['4'].drop_last() =~= Seq::<char>::empty());
    assert(seq!['5'].drop_last() =~= Seq::<char>::empty());
    assert(seq!['6'].drop_last() =~= Seq::<char>::empty());
    assert(seq!['8'].drop_last() =~= Seq::<char>::empty());
    assert(seq!['1', 'm'].drop_last() =~= seq!['1']);
    assert(seq!['3', 'm'].drop_last() =~= seq!['3']);
    assert(seq!['5', 'm'].drop_last() =~= seq!['5']);
    assert(seq!['1', '5', 'm'].drop_last() =~= seq!['1', '5']);
    assert(seq!['3', '0', 'm'].drop_last() =~= seq!['3', '0']);
    assert(seq!['1', 'h'].drop_last() =~= seq!['1']);
    assert(seq!['4', 'h'].drop_last() =~= seq!['4']);
    assert(seq!['6', 'h'].drop_last() =~= seq!['6']);
    assert(seq!['8', 'h'].drop_last() =~= seq!['8']);
    assert(seq!['1', '2', 'h'].drop_last() =~= seq!['1', '2']);
    assert(seq!['1', 'd'].drop_last() =~= seq!['1']);
    assert(seq!['3', 'd'].drop_last() =~= seq!['3']);
    assert(seq!['1', 'w'].drop_last() =~= seq!['1']);
}

/// What a venue interval text maps to.
pub open spec fn spec_interval_to_spec(interval: Seq<char>) -> Option<BarSpecification> {
    match interval_spec(interval) {
        Some((step, aggregation)) => Some(
            BarSpecification { step, aggregation, price_type: PriceType::Last },
        ),
        None => None,
    }
}

/// The specification for a venue interval string. Anything the venue does not serve is
/// refused, including `1M`, which has no engine aggregation.
pub fn interval_to_spec(interval: &str) -> (r: Result<BarSpecification, BarMappingError>)
    ensures
        spec_interval_to_spec(interval@) matches Some(s) ==> r == Ok::<
            BarSpecification,
            BarMappingError,
        >(s),
        spec_interval_to_spec(interval@) is None ==> (r matches Err(
            BarMappingError::UnknownInterval(t),
        ) && t@ == interval@),
{
    match find_interval(interval) {
        Some((step, aggregation)) => Ok(BarSpecification { step, aggregation, price_type: PriceType::Last }),
        None => Err(BarMappingError::UnknownInterval(owned(interval))),
    }
}

/// The venue interval string for a specification on a given engine: none when no interval
/// serves it, refused when it is spot-only and the engine is perps. The price type plays no
/// part.
pub fn spec_to_interval(spec: &BarSpecification, market: Market) -> (r: Result<
    &'static str,
    BarMappingError,
>)
    ensures
        venue_interval(spec.step, spec.aggregation) is None ==> r == Err::<&'static str, BarMappingError>(
            BarMappingError::NoSuchInterval { step: spec.step, aggregation: spec.aggregation },
        ),
        venue_interval(spec.step, spec.aggregation) matches Some(t) ==> if spot_only(t) && market
            == Market::Perps {
            r matches Err(BarMappingError::SpotOnly { interval }) && interval@ == t
        } else {
            r matches Ok(s) && s@ == t
        },
{
    match lookup(spec.step, spec.aggregation) {
        None => Err(BarMappingError::NoSuchInterval { step: spec.step, aggregation: spec.aggregation }),
        Some((text, only_spot)) => {
            if only_spot && market == Market::Perps {
                Err(BarMappingError::SpotOnly { interval: text })
            } else {
                Ok(text)
            }
        },
    }
}

/// A bar type for a venue interval. The aggregation source is always external: the venue
/// computes these bars.
pub fn bar_type_for(instrument_id: InstrumentId, interval: &str) -> (r: Result<
    BarType,
    BarMappingError,
>)
    ensures
        spec_interval_to_spec(interval@) matches Some(s) ==> r == Ok::<BarType, BarMappingError>(
            BarType { instrument_id, spec: s, aggregation_source: AggregationSource::External },
        ),
        spec_interval_to_spec(interval@) is None ==> (r matches Err(
            BarMappingError::UnknownInterval(t),
        ) && t@ == interval@),
{
    match interval_to_spec(interval) {
        Ok(spec) => Ok(BarType { instrument_id, spec, aggregation_source: AggregationSource::External }),
        Err(e) => Err(e),
    }
}

/// A decimal field normalised, or the error naming the field.
pub fn decimal_field(raw: &str, field: &'static str) -> (r: Result<String, BarMappingError>)
    ensures
        normalize_outcome(raw@, FIXED_PRECISION) matches Some(t) ==> (r matches Ok(s) && s@ == t),
        normalize_outcome(raw@, FIXED_PRECISION) is None ==> (r matches Err(
            BarMappingError::InvalidValue { field: f, value, reason },
        ) && f == field && value@ == raw@ && reason@ == NOT_A_DECIMAL@),
{
    match normalize(raw) {
        Ok(s) => Ok(s),
        Err(_) => Err(
            BarMappingError::InvalidValue { field, value: owned(raw), reason: owned(NOT_A_DECIMAL) },
        ),
    }
}

/// Whether a bar carries the given fields: each price and the volume normalised.
pub open spec fn bar_fields_match(
    bar: Bar,
    open: Seq<char>,
    high: Seq<char>,
    low: Seq<char>,
    close: Seq<char>,
    volume: Seq<char>,
) -> bool {
    &&& normalize_outcome(open, FIXED_PRECISION) == Some(bar.open@)
    &&& normalize_outcome(high, FIXED_PRECISION) == Some(bar.high@)
    &&& normalize_outcome(low, FIXED_PRECISION) == Some(bar.low@)
    &&& normalize_outcome(close, FIXED_PRECISION) == Some(bar.close@)
    &&& normalize_outcome(volume, FIXED_PRECISION) == Some(bar.volume@)
}

/// Whether every field of a bar normalises.
pub open spec fn all_fields_decimal(
    open: Seq<char>,
    high: Seq<char>,
    low: Seq<char>,
    close: Seq<char>,
    volume: Seq<char>,
) -> bool {
    &&& normalize_outcome(open, FIXED_PRECISION) is Some
    &&& normalize_outcome(high, FIXED_PRECISION) is Some
    &&& normalize_outcome(low, FIXED_PRECISION) is Some
    &&& normalize_outcome(close, FIXED_PRECISION) is Some
    &&& normalize_outcome(volume, FIXED_PRECISION) is Some
}

/// The first field of a bar that does not normalise, by name and raw text, checked in the
/// order volume, open, high, low, close; `None` when all do.
pub open spec fn field_refusal(
    open: Seq<char>,
    high: Seq<char>,
    low: Seq<char>,
    close: Seq<char>,
    volume: Seq<char>,
) -> Option<(Seq<char>, Seq<char>)> {
    if normalize_outcome(volume, FIXED_PRECISION) is None {
        Some(("volume"@, volume))
    } else if normalize_outcome(open, FIXED_PRECISION) is None {
        Some(("open"@, open))
    } else if normalize_outcome(high, FIXED_PRECISION) is None {
        Some(("high"@, high))
    } else if normalize_outcome(low, FIXED_PRECISION) is None {
        Some(("low"@, low))
    } else if normalize_outcome(close, FIXED_PRECISION) is None {
        Some(("close"@, close))
    } else {
        None
    }
}

/// Whether `e` refuses the field `refused`, named and quoted, as not a decimal number.
pub open spec fn refuses_field(e: BarMappingError, refused: (Seq<char>, Seq<char>)) -> bool {
    e matches BarMappingError::InvalidValue { field, value, reason } && field@ == refused.0
        && value@ == refused.1 && reason@ == NOT_A_DECIMAL@
}

/// Builds a bar from raw fields: volume first, then open, high, low and close, the first
/// failure reported.
pub fn bar_from_fields(
    bar_type: BarType,
    open: &str,
    high: &str,
    low: &str,
    close: &str,
    volume: &str,
    open_time_ms: u64,
    ts_init: u64,
) -> (r: Result<Bar, BarMappingError>)
    requires
        open_time_ms * 1_000_000 <= u64::MAX,
    ensures
        all_fields_decimal(open@, high@, low@, close@, volume@) ==> (r matches Ok(b)
            && bar_fields_match(b, open@, high@, low@, close@, volume@) && b.bar_type == bar_type
            && b.ts_event == open_time_ms * 1_000_000 && b.ts_init == ts_init),
        !all_fields_decimal(open@, high@, low@, close@, volume@) ==> (r matches Err(e)
            && refuses_field(e, field_refusal(open@, high@, low@, close@, volume@)->0)),
{
    let volume = match decimal_field(volume, "volume") {
        Ok(v) => v,
        Err(e) => return Err(e),
    };
    let open = match decimal_field(open, "open") {
        Ok(v) => v,
        Err(e) => return Err(e),
    };
    let high = match decimal_field(high, "high") {
        Ok(v) => v,
        Err(e) => return Err(e),
    };
    let low = match decimal_field(low, "low") {
        Ok(v) => v,
        Err(e) => return Err(e),
    };
    let close = match decimal_field(close, "close") {
        Ok(v) => v,
        Err(e) => return Err(e),
    };
    Ok(Bar { bar_type, open, high, low, close, volume, ts_event: open_time_ms * 1_000_000, ts_init })
}

/// Converts a closed candle into a bar; a still-forming candle is refused.
pub fn parse_bar(candle: &Candle, bar_type: BarType, ts_init: u64) -> (r: Result<
    Bar,
    BarMappingError,
>)
    requires
        candle.open_time_ms * 1_000_000 <= u64::MAX,
    ensures
        !candle.closed ==> r == Err::<Bar, BarMappingError>(BarMappingError::BarNotClosed),
        candle.closed && all_fields_decimal(
            candle.open@,
            candle.high@,
            candle.low@,
            candle.close@,
            candle.volume@,
        ) ==> (r matches Ok(b) && bar_fields_match(
            b,
            candle.open@,
            candle.high@,
            candle.low@,
            candle.close@,
            candle.volume@,
        ) && b.bar_type == bar_type && b.ts_event == candle.open_time_ms * 1_000_000
            && b.ts_init == ts_init),
        candle.closed && !all_fields_decimal(
            candle.open@,
            candle.high@,
            candle.low@,
            candle.close@,
            candle.volume@,
        ) ==> (r matches Err(e) && refuses_field(
            e,
            field_refusal(candle.open@, candle.high@, candle.low@, candle.close@, candle.volume@)->0,
        )),
{
    if !candle.is_final() {
        return Err(BarMappingError::BarNotClosed);
    }
    parse_completed_bar(candle, bar_type, ts_init)
}

/// Converts a candle the caller has established is complete, for instance because its
/// successor has begun: the venue may never push a bar with the closed flag set.
pub fn parse_completed_bar(candle: &Candle, bar_type: BarType, ts_init: u64) -> (r: Result<
    Bar,
    BarMappingError,
>)
    requires
        candle.open_time_ms * 1_000_000 <= u64::MAX,
    ensures
        all_fields_decimal(
            candle.open@,
            candle.high@,
            candle.low@,
            candle.close@,
            candle.volume@,
        ) ==> (r matches Ok(b) && bar_fields_match(
            b,
            candle.open@,
            candle.high@,
            candle.low@,
            candle.close@,
            candle.volume@,
        ) && b.bar_type == bar_type && b.ts_event == candle.open_time_ms * 1_000_000
            && b.ts_init == ts_init),
        !all_fields_decimal(
            candle.open@,
            candle.high@,
            candle.low@,
            candle.close@,
            candle.volume@,
        ) ==> (r matches Err(e) && refuses_field(
            e,
            field_refusal(candle.open@, candle.high@, candle.low@, candle.close@, candle.volume@)->0,
        )),
{
    bar_from_fields(
        bar_type,
        candle.open.as_str(),
        candle.high.as_str(),
        candle.low.as_str(),
        candle.close.as_str(),
        candle.volume.as_str(),
        candle.open_time_ms,
        ts_init,
    )
}

} // verus!
