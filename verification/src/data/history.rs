//! Historical bar retrieval.
//!
//! The streaming candle carries a `closed` flag; the REST kline does not, so a range that
//! reaches the present ends in a row that is still forming. Feeding it into a backtest is
//! look-ahead bias; [`drop_forming_tail`] removes it by comparing the bar's open plus its
//! interval against the current time.
//!
//! The venue responds newest-first, while series are consumed oldest-first and the closure
//! filter inspects the tail, so bars are sorted by open time before use.
use vstd::prelude::*;

use super::parse::{
    all_fields_decimal, bar_fields_match, bar_from_fields, field_refusal, refuses_field, spec_to_interval, spot_only,
    venue_interval, Bar, BarMappingError, BarSpecification, BarType, InstrumentId,
};
use crate::common::Market;
use crate::json::push_lit;
use crate::text::{decimal, owned, push_str, u64_decimal};

verus! {

broadcast use vstd::seq_lib::group_to_multiset_ensures;

/// Largest number of rows the venue returns in one request; spot and perps differ.
pub open spec fn spec_max_limit(market: Market) -> u32 {
    match market {
        Market::Spot => 1500,
        Market::Perps => 1000,
    }
}

/// Largest number of rows the venue returns in one request. Asking for more is rejected
/// rather than truncated by the venue.
pub fn max_limit(market: Market) -> (n: u32)
    ensures
        n == spec_max_limit(market),
{
    match market {
        Market::Spot => 1500,
        Market::Perps => 1000,
    }
}

/// A historical bar query.
#[derive(Debug, Clone)]
pub struct BarRequest {
    pub instrument_id: InstrumentId,
    pub spec: BarSpecification,
    /// Inclusive start in milliseconds.
    pub start_ms: Option<u64>,
    /// Inclusive end in milliseconds.
    pub end_ms: Option<u64>,
    /// Rows to return; the venue defaults to 500.
    pub limit: Option<u32>,
}

/// Why a historical request cannot be served.
#[derive(Debug, Clone, PartialEq, Eq)]
pub enum HistoryError {
    Mapping(BarMappingError),
    LimitTooLarge { requested: u32, max: u32, market: Market },
    InvertedRange { start_ms: u64, end_ms: u64 },
    Transport(String),
}

/// One historical kline row. Unlike the streaming candle it carries no closed flag.
#[derive(Debug, Clone, PartialEq, Eq)]
pub struct RpcKline {
    pub open_time_ms: u64,
    pub open: String,
    pub high: String,
    pub low: String,
    pub close: String,
    pub volume: String,
    pub quote_volume: String,
    pub trade_count: u64,
}

/// Whether a kline's fields all normalise.
pub open spec fn kline_decimal(k: RpcKline) -> bool {
    all_fields_decimal(k.open@, k.high@, k.low@, k.close@, k.volume@)
}

/// The first field of a kline that does not normalise, by name and raw text.
pub open spec fn kline_refusal(k: RpcKline) -> (Seq<char>, Seq<char>) {
    field_refusal(k.open@, k.high@, k.low@, k.close@, k.volume@)->0
}

/// Whether a bar is the conversion of a kline.
pub open spec fn bar_of_kline(b: Bar, k: RpcKline, bar_type: BarType, ts_init: u64) -> bool {
    &&& bar_fields_match(b, k.open@, k.high@, k.low@, k.close@, k.volume@)
    &&& b.bar_type == bar_type
    &&& b.ts_event == k.open_time_ms * 1_000_000
    &&& b.ts_init == ts_init
}

/// Converts one kline row into a bar without judging closure: a historical row carries no
/// evidence either way.
pub fn parse_kline(kline: &RpcKline, bar_type: BarType, ts_init: u64) -> (r: Result<
    Bar,
    BarMappingError,
>)
    requires
        kline.open_time_ms * 1_000_000 <= u64::MAX,
    ensures
        kline_decimal(*kline) ==> (r matches Ok(b) && bar_of_kline(b, *kline, bar_type, ts_init)),
        !kline_decimal(*kline) ==> (r matches Err(e) && refuses_field(e, kline_refusal(*kline))),
{
    bar_from_fields(
        bar_type,
        kline.open.as_str(),
        kline.high.as_str(),
        kline.low.as_str(),
        kline.close.as_str(),
        kline.volume.as_str(),
        kline.open_time_ms,
        ts_init,
    )
}

/// Whether a bar's interval has elapsed at `now_ms`: `open + interval <= now`, the open in
/// milliseconds and the sum saturating.
pub open spec fn bar_complete(b: Bar, interval_ms: u64, now_ms: u64) -> bool {
    let open_ms = b.ts_event / 1_000_000;
    (if open_ms + interval_ms > u64::MAX {
        u64::MAX as int
    } else {
        open_ms + interval_ms
    }) <= now_ms
}

/// The series with incomplete bars removed from its end, walking back until a complete bar
/// is found.
pub open spec fn kept_prefix(bars: Seq<Bar>, interval_ms: u64, now_ms: u64) -> Seq<Bar>
    decreases bars.len(),
{
    if bars.len() == 0 || bar_complete(bars.last(), interval_ms, now_ms) {
        bars
    } else {
        kept_prefix(bars.drop_last(), interval_ms, now_ms)
    }
}

/// The saturated interval of a specification.
pub open spec fn spec_interval_ms_sat(spec: BarSpecification) -> u64 {
    if spec.spec_interval_ms() > u64::MAX {
        u64::MAX
    } else {
        spec.spec_interval_ms() as u64
    }
}

/// Removes trailing bars whose interval has not yet elapsed. Expects oldest-first input;
/// a specification without duration leaves the series unchanged.
pub fn drop_forming_tail(bars: Vec<Bar>, spec: &BarSpecification, now_ms: u64) -> (kept: Vec<Bar>)
    ensures
        spec_interval_ms_sat(*spec) == 0 ==> kept@ == bars@,
        spec_interval_ms_sat(*spec) != 0 ==> kept@ == kept_prefix(
            bars@,
            spec_interval_ms_sat(*spec),
            now_ms,
        ),
{
    let interval_ms = spec.interval_ms();
    if interval_ms == 0 {
        return bars;
    }
    let ghost given = bars@;
    let mut bars = bars;
    while bars.len() > 0
        invariant
            kept_prefix(bars@, interval_ms, now_ms) == kept_prefix(given, interval_ms, now_ms),
            interval_ms == spec_interval_ms_sat(*spec),
        ensures
            kept_prefix(bars@, interval_ms, now_ms) == kept_prefix(given, interval_ms, now_ms),
            bars@.len() == 0 || bar_complete(bars@.last(), interval_ms, now_ms),
        decreases bars.len(),
    {
        let last = bars.len() - 1;
        let open_ms = bars[last].ts_event / 1_000_000;
        if open_ms.saturating_add(interval_ms) <= now_ms {
            break;
        }
        bars.pop();
    }
    bars
}

/// What [`drop_forming_tail`] keeps is a prefix of the series that ends, if anywhere, in a
/// complete bar, and everything it drops is incomplete.
pub proof fn lemma_kept_prefix(bars: Seq<Bar>, interval_ms: u64, now_ms: u64)
    ensures
        ({
            let kept = kept_prefix(bars, interval_ms, now_ms);
            &&& kept.len() <= bars.len()
            &&& kept == bars.take(kept.len() as int)
            &&& kept.len() > 0 ==> bar_complete(kept.last(), interval_ms, now_ms)
            &&& forall|i: int|
                kept.len() <= i < bars.len() ==> !bar_complete(#[trigger] bars[i], interval_ms, now_ms)
        }),
    decreases bars.len(),
{
    if bars.len() == 0 || bar_complete(bars.last(), interval_ms, now_ms) {
        assert(bars.take(bars.len() as int) == bars);
    } else {
        lemma_kept_prefix(bars.drop_last(), interval_ms, now_ms);
        let kept = kept_prefix(bars.drop_last(), interval_ms, now_ms);
        assert(bars.drop_last().take(kept.len() as int) == bars.take(kept.len() as int));
        assert forall|i: int| kept.len() <= i < bars.len() implies !bar_complete(
            #[trigger] bars[i],
            interval_ms,
            now_ms,
        ) by {
            if i < bars.len() - 1 {
                assert(bars.drop_last()[i] == bars[i]);
            }
        }
    }
}

/// Whether the engine serves the request's interval.
pub open spec fn interval_served(request: BarRequest, market: Market) -> bool {
    match venue_interval(request.spec.step, request.spec.aggregation) {
        Some(t) => !(spot_only(t) && market == Market::Perps),
        None => false,
    }
}

/// Whether the request asks for more rows than the engine returns.
pub open spec fn limit_exceeded(request: BarRequest, market: Market) -> bool {
    match request.limit {
        Some(l) => l > spec_max_limit(market),
        None => false,
    }
}

/// Whether the request's range starts after it ends.
pub open spec fn range_inverted(request: BarRequest) -> bool {
    match (request.start_ms, request.end_ms) {
        (Some(s), Some(e)) => s > e,
        _ => false,
    }
}

/// Checks a historical request: the interval must exist on the engine, the limit must not
/// exceed the engine's maximum, and the range must not be inverted. Returns the interval.
pub fn check_bar_request(request: &BarRequest, market: Market) -> (r: Result<
    &'static str,
    HistoryError,
>)
    ensures
        venue_interval(request.spec.step, request.spec.aggregation) is None ==> r == Err::<
            &'static str,
            HistoryError,
        >(
            HistoryError::Mapping(
                BarMappingError::NoSuchInterval {
                    step: request.spec.step,
                    aggregation: request.spec.aggregation,
                },
            ),
        ),
        (venue_interval(request.spec.step, request.spec.aggregation) is Some && !interval_served(
            *request,
            market,
        )) ==> (r matches Err(HistoryError::Mapping(BarMappingError::SpotOnly { interval }))
            && Some(interval@) == venue_interval(request.spec.step, request.spec.aggregation)),
        interval_served(*request, market) && limit_exceeded(*request, market) ==> r == Err::<
            &'static str,
            HistoryError,
        >(
            HistoryError::LimitTooLarge {
                requested: request.limit->0,
                max: spec_max_limit(market),
                market,
            },
        ),
        interval_served(*request, market) && !limit_exceeded(*request, market) && range_inverted(
            *request,
        ) ==> r == Err::<&'static str, HistoryError>(
            HistoryError::InvertedRange {
                start_ms: request.start_ms->0,
                end_ms: request.end_ms->0,
            },
        ),
        interval_served(*request, market) && !limit_exceeded(*request, market) && !range_inverted(
            *request,
        ) ==> (r matches Ok(t) && Some(t@) == venue_interval(
            request.spec.step,
            request.spec.aggregation,
        )),
{
    let interval = match spec_to_interval(&request.spec, market) {
        Ok(t) => t,
        Err(e) => return Err(HistoryError::Mapping(e)),
    };
    match request.limit {
        Some(limit) => {
            let max = max_limit(market);
            if limit > max {
                return Err(HistoryError::LimitTooLarge { requested: limit, max, market });
            }
        },
        None => {},
    }
    match (request.start_ms, request.end_ms) {
        (Some(start), Some(end)) => {
            if start > end {
                return Err(HistoryError::InvertedRange { start_ms: start, end_ms: end });
            }
        },
        _ => {},
    }
    Ok(interval)
}

/// The query parameters of a kline request, as the venue names them, in a fixed order.
pub open spec fn spec_kline_query(request: BarRequest, interval: Seq<char>) -> Seq<
    (Seq<char>, Seq<char>),
> {
    seq![("interval"@, interval)] + (match request.start_ms {
        Some(s) => seq![("startTime"@, decimal(s as nat))],
        None => seq![],
    }) + (match request.end_ms {
        Some(e) => seq![("endTime"@, decimal(e as nat))],
        None => seq![],
    }) + (match request.limit {
        Some(l) => seq![("limit"@, decimal(l as nat))],
        None => seq![],
    })
}

/// The value a query gives for `key`: that of its first pair with that key.
pub open spec fn query_value(query: Seq<(Seq<char>, Seq<char>)>, key: Seq<char>) -> Option<Seq<char>>
    decreases query.len(),
{
    if query.len() == 0 {
        None
    } else if query[0].0 == key {
        Some(query[0].1)
    } else {
        query_value(query.drop_first(), key)
    }
}

proof fn lemma_query_value_front(
    front: Seq<(Seq<char>, Seq<char>)>,
    rest: Seq<(Seq<char>, Seq<char>)>,
    key: Seq<char>,
)
    requires
        front.len() <= 1,
    ensures
        query_value(front + rest, key) == (if front.len() == 1 && front[0].0 == key {
            Some(front[0].1)
        } else {
            query_value(rest, key)
        }),
{
    if front.len() == 0 {
        assert(front + rest =~= rest);
    } else {
        assert((front + rest).drop_first() =~= rest);
    }
}

/// A kline query carries exactly what the request asks for: the interval, and the start,
/// the end and the row limit each when the request gives one, in decimal, under the
/// venue's parameter names; a bound the request leaves open is not sent at all.
pub proof fn lemma_kline_query_carries_the_request(request: BarRequest, interval: Seq<char>)
    ensures
        query_value(spec_kline_query(request, interval), "interval"@) == Some(interval),
        query_value(spec_kline_query(request, interval), "startTime"@) == (match request.start_ms {
            Some(s) => Some(decimal(s as nat)),
            None => None::<Seq<char>>,
        }),
        query_value(spec_kline_query(request, interval), "endTime"@) == (match request.end_ms {
            Some(e) => Some(decimal(e as nat)),
            None => None::<Seq<char>>,
        }),
        query_value(spec_kline_query(request, interval), "limit"@) == (match request.limit {
            Some(l) => Some(decimal(l as nat)),
            None => None::<Seq<char>>,
        }),
{
    reveal_strlit("interval");
    reveal_strlit("startTime");
    reveal_strlit("endTime");
    reveal_strlit("limit");
    assert("interval"@.len() == 8);
    assert("startTime"@.len() == 9);
    assert("endTime"@.len() == 7);
    assert("limit"@.len() == 5);
    let i = seq![("interval"@, interval)];
    let s: Seq<(Seq<char>, Seq<char>)> = match request.start_ms {
        Some(v) => seq![("startTime"@, decimal(v as nat))],
        None => seq![],
    };
    let e: Seq<(Seq<char>, Seq<char>)> = match request.end_ms {
        Some(v) => seq![("endTime"@, decimal(v as nat))],
        None => seq![],
    };
    let l: Seq<(Seq<char>, Seq<char>)> = match request.limit {
        Some(v) => seq![("limit"@, decimal(v as nat))],
        None => seq![],
    };
    let q = spec_kline_query(request, interval);
    assert(q =~= i + (s + (e + l)));
    let empty = Seq::<(Seq<char>, Seq<char>)>::empty();
    assert(l + empty =~= l);
    assert(e + l =~= e + (l + empty));
    assert forall|k: Seq<char>| true implies {
        &&& query_value(q, k) == (if k == "interval"@ {
            Some(interval)
        } else {
            query_value(s + (e + l), k)
        })
        &&& query_value(s + (e + l), k) == (if s.len() == 1 && s[0].0 == k {
            Some(s[0].1)
        } else {
            query_value(e + l, k)
        })
        &&& query_value(e + l, k) == (if e.len() == 1 && e[0].0 == k {
            Some(e[0].1)
        } else {
            query_value(l, k)
        })
        &&& query_value(l, k) == (if l.len() == 1 && l[0].0 == k {
            Some(l[0].1)
        } else {
            None::<Seq<char>>
        })
    } by {
        lemma_query_value_front(i, s + (e + l), k);
        lemma_query_value_front(s, e + l, k);
        lemma_query_value_front(e, l, k);
        lemma_query_value_front(l, empty, k);
        assert(l + empty =~= l);
    }
}

pub open spec fn pair_views(v: Seq<(String, String)>) -> Seq<(Seq<char>, Seq<char>)> {
    v.map_values(|p: (String, String)| (p.0@, p.1@))
}

/// The query parameters of a kline request.
pub fn kline_query(request: &BarRequest, interval: &str) -> (q: Vec<(String, String)>)
    ensures
        pair_views(q@) == spec_kline_query(*request, interval@),
{
    let mut q: Vec<(String, String)> = Vec::new();
    q.push((owned("interval"), owned(interval)));
    let ghost a = pair_views(q@);
    proof {
        assert(a =~= seq![("interval"@, interval@)]);
    }
    match request.start_ms {
        Some(s) => {
            q.push((owned("startTime"), u64_decimal(s)));
        },
        None => {},
    }
    let ghost b = pair_views(q@);
    proof {
        assert(b =~= a + (match request.start_ms {
            Some(s) => seq![("startTime"@, decimal(s as nat))],
            None => seq![],
        }));
    }
    match request.end_ms {
        Some(e) => {
            q.push((owned("endTime"), u64_decimal(e)));
        },
        None => {},
    }
    let ghost c = pair_views(q@);
    proof {
        assert(c =~= b + (match request.end_ms {
            Some(e) => seq![("endTime"@, decimal(e as nat))],
            None => seq![],
        }));
    }
    match request.limit {
        Some(l) => {
            q.push((owned("limit"), u64_decimal(l as u64)));
        },
        None => {},
    }
    proof {
        assert(pair_views(q@) =~= c + (match request.limit {
            Some(l) => seq![("limit"@, decimal(l as nat))],
            None => seq![],
        }));
    }
    q
}

/// The klines endpoint path; it addresses the instrument by name, not numeric id.
pub fn klines_path(symbol: &str) -> (p: String)
    ensures
        p@ == "/markets/"@ + symbol@ + "/klines"@,
{
    let mut p = owned("/markets/");
    push_str(&mut p, symbol);
    push_lit(&mut p, "/klines");
    p
}

/// Whether `sorted` is `bars` in ascending order of open time, bars opening at the same time
/// in their original order. At most one sequence is that.
pub open spec fn is_time_sort(sorted: Seq<Bar>, bars: Seq<Bar>) -> bool {
    &&& sorted_by_time(sorted)
    &&& sorted.to_multiset() == bars.to_multiset()
    &&& forall|t: u64| #[trigger] at_time(sorted, t) == at_time(bars, t)
}

/// The bars whose interval has elapsed at `now_ms`, in their order.
pub open spec fn complete_bars(bars: Seq<Bar>, interval_ms: u64, now_ms: u64) -> Seq<Bar> {
    bars.filter(|b: Bar| bar_complete(b, interval_ms, now_ms))
}

proof fn lemma_complete_is_monotone(b: Bar, c: Bar, interval_ms: u64, now_ms: u64)
    requires
        b.ts_event <= c.ts_event,
        bar_complete(c, interval_ms, now_ms),
    ensures
        bar_complete(b, interval_ms, now_ms),
{
    vstd::arithmetic::div_mod::lemma_div_is_ordered(b.ts_event as int, c.ts_event as int, 1_000_000);
}

/// On a series in time order, dropping the forming tail keeps exactly the complete bars: a
/// bar opening no later than a complete one is complete too.
pub proof fn lemma_sorted_tail_is_all_forming(bars: Seq<Bar>, interval_ms: u64, now_ms: u64)
    requires
        sorted_by_time(bars),
    ensures
        kept_prefix(bars, interval_ms, now_ms) == complete_bars(bars, interval_ms, now_ms),
    decreases bars.len(),
{
    let pred = |b: Bar| bar_complete(b, interval_ms, now_ms);
    if bars.len() == 0 {
        assert(bars.filter(pred) =~= Seq::<Bar>::empty()) by {
            reveal(Seq::filter);
        }
    } else {
        let init = bars.drop_last();
        assert(sorted_by_time(init));
        lemma_sorted_tail_is_all_forming(init, interval_ms, now_ms);
        assert(init.push(bars.last()) =~= bars);
        init.lemma_filter_push(bars.last(), pred);
        if bar_complete(bars.last(), interval_ms, now_ms) {
            if init.len() > 0 {
                lemma_complete_is_monotone(init.last(), bars.last(), interval_ms, now_ms);
            }
            assert(kept_prefix(init, interval_ms, now_ms) == init);
        }
    }
}

/// The historical series as the engine receives it: oldest first, bars opening at the same
/// time in the venue's order, and without the bars still forming at `now_ms`. A
/// specification without duration keeps every bar.
pub fn complete_series(bars: Vec<Bar>, spec: &BarSpecification, now_ms: u64) -> (series: Vec<Bar>)
    ensures
        exists|sorted: Seq<Bar>|
            #[trigger] is_time_sort(sorted, bars@) && series@ == (if spec_interval_ms_sat(*spec) == 0 {
                sorted
            } else {
                complete_bars(sorted, spec_interval_ms_sat(*spec), now_ms)
            }),
        sorted_by_time(series@),
        spec_interval_ms_sat(*spec) != 0 ==> forall|i: int|
            0 <= i < series@.len() ==> bar_complete(
                #[trigger] series@[i],
                spec_interval_ms_sat(*spec),
                now_ms,
            ),
{
    let sorted = sort_by_open_time(bars);
    let ghost s = sorted@;
    let series = drop_forming_tail(sorted, spec, now_ms);
    proof {
        assert(is_time_sort(s, bars@));
        let interval = spec_interval_ms_sat(*spec);
        if interval != 0 {
            lemma_sorted_tail_is_all_forming(s, interval, now_ms);
            lemma_kept_prefix(s, interval, now_ms);
            let kept = kept_prefix(s, interval, now_ms);
            assert forall|i: int| 0 <= i < kept.len() implies bar_complete(
                #[trigger] kept[i],
                interval,
                now_ms,
            ) by {
                assert(kept[i] == s[i]);
                lemma_complete_is_monotone(kept[i], kept.last(), interval, now_ms);
            }
            assert forall|i: int, j: int| 0 <= i <= j < kept.len() implies kept[i].ts_event
                <= kept[j].ts_event by {
                assert(kept[i] == s[i] && kept[j] == s[j]);
            }
        }
    }
    series
}

/// Whether bars are in ascending order of open time.
pub open spec fn sorted_by_time(bars: Seq<Bar>) -> bool {
    forall|i: int, j: int| 0 <= i <= j < bars.len() ==> bars[i].ts_event <= bars[j].ts_event
}

/// The bars opening at `t`, in their order.
pub open spec fn at_time(bars: Seq<Bar>, t: u64) -> Seq<Bar> {
    bars.filter(|b: Bar| b.ts_event == t)
}

proof fn lemma_at_time_push(s: Seq<Bar>, b: Bar, t: u64)
    ensures
        at_time(s.push(b), t) == if b.ts_event == t {
            at_time(s, t).push(b)
        } else {
            at_time(s, t)
        },
{
    s.lemma_filter_push(b, |x: Bar| x.ts_event == t);
}

proof fn lemma_at_time_insert(prev: Seq<Bar>, i: int, b: Bar, t: u64)
    requires
        0 <= i <= prev.len(),
        forall|j: int| 0 <= j < i ==> prev[j].ts_event < b.ts_event,
    ensures
        at_time(prev.insert(i, b), t) == if b.ts_event == t {
            seq![b] + at_time(prev, t)
        } else {
            at_time(prev, t)
        },
{
    let pred = |x: Bar| x.ts_event == t;
    let head = prev.take(i);
    let tail = prev.skip(i);
    assert(prev == head + tail);
    assert(prev.insert(i, b) == head + (seq![b] + tail));
    Seq::filter_distributes_over_add(head, tail, pred);
    Seq::filter_distributes_over_add(head, seq![b] + tail, pred);
    Seq::filter_distributes_over_add(seq![b], tail, pred);
    Seq::<Bar>::empty().lemma_filter_push(b, pred);
    assert(Seq::<Bar>::empty().push(b) == seq![b]);
    assert(Seq::<Bar>::empty().filter(pred) == Seq::<Bar>::empty()) by {
        reveal(Seq::filter);
    }
    if b.ts_event == t {
        assert(head.all(|x: Bar| !pred(x))) by {
            assert forall|j: int| 0 <= j < head.len() implies !pred(#[trigger] head[j]) by {
                assert(head[j] == prev[j]);
            }
        }
        head.lemma_all_neg_filter_empty(pred);
        assert(head.filter(pred) =~= Seq::<Bar>::empty());
        assert(at_time(prev.insert(i, b), t) =~= seq![b] + at_time(prev, t));
    } else {
        assert(seq![b].filter(pred) =~= Seq::<Bar>::empty());
        assert(at_time(prev.insert(i, b), t) =~= at_time(prev, t));
    }
}

/// Sorts bars oldest first; bars opening at the same time keep their order.
pub fn sort_by_open_time(bars: Vec<Bar>) -> (sorted: Vec<Bar>)
    ensures
        sorted_by_time(sorted@),
        sorted@.to_multiset() == bars@.to_multiset(),
        forall|t: u64| #[trigger] at_time(sorted@, t) == at_time(bars@, t),
{
    let mut rest = bars;
    let mut out: Vec<Bar> = Vec::new();
    while rest.len() > 0
        invariant
            sorted_by_time(out@),
            out@.to_multiset().add(rest@.to_multiset()) == bars@.to_multiset(),
            forall|t: u64| #[trigger] at_time(bars@, t) == at_time(rest@, t) + at_time(out@, t),
        decreases rest.len(),
    {
        let ghost before = rest@;
        let b = rest.pop().unwrap();
        proof {
            assert(before == rest@.push(b));
        }
        let mut i: usize = 0;
        while i < out.len() && out[i].ts_event < b.ts_event
            invariant
                i <= out.len(),
                forall|j: int| 0 <= j < i ==> out@[j].ts_event < b.ts_event,
            decreases out.len() - i,
        {
            i = i + 1;
        }
        let ghost prev = out@;
        out.insert(i, b);
        proof {
            assert(out@ == prev.insert(i as int, b));
            assert forall|x: int, y: int| 0 <= x <= y < out@.len() implies out@[x].ts_event
                <= out@[y].ts_event by {
                if x < i && y > i {
                    assert(out@[x] == prev[x]);
                    assert(out@[y] == prev[y - 1]);
                } else if x < i && y == i {
                    assert(out@[x] == prev[x]);
                } else if x == i && y > i {
                    assert(out@[y] == prev[y - 1]);
                    assert(i < prev.len());
                    assert(prev[i as int].ts_event >= b.ts_event);
                } else if x > i {
                    assert(out@[x] == prev[x - 1]);
                    assert(out@[y] == prev[y - 1]);
                } else if y < i {
                    assert(out@[x] == prev[x]);
                    assert(out@[y] == prev[y]);
                }
            }
            assert(out@.to_multiset() == prev.to_multiset().insert(b));
            assert(before.to_multiset() == rest@.to_multiset().insert(b));
            assert(out@.to_multiset().add(rest@.to_multiset()) =~= prev.to_multiset().add(
                before.to_multiset(),
            ));
            assert forall|t: u64| #[trigger] at_time(bars@, t) == at_time(rest@, t) + at_time(out@, t) by {
                lemma_at_time_push(rest@, b, t);
                lemma_at_time_insert(prev, i as int, b, t);
                if b.ts_event == t {
                    assert(at_time(rest@, t).push(b) + at_time(prev, t) =~= at_time(rest@, t) + (seq![b]
                        + at_time(prev, t)));
                }
            }
        }
    }
    proof {
        assert(rest@.to_multiset() =~= vstd::multiset::Multiset::<Bar>::empty());
        assert(out@.to_multiset().add(rest@.to_multiset()) =~= out@.to_multiset());
        assert forall|t: u64| #[trigger] at_time(out@, t) == at_time(bars@, t) by {
            assert(rest@ =~= Seq::<Bar>::empty());
            assert(at_time(rest@, t) =~= Seq::<Bar>::empty()) by {
                reveal(Seq::filter);
            }
            assert(at_time(rest@, t) + at_time(out@, t) =~= at_time(out@, t));
        }
    }
    out
}

/// Converts a kline series into bars, failing on the first row that does not convert.
pub fn bars_from_klines(klines: &Vec<RpcKline>, bar_type: &BarType, ts_init: u64) -> (r: Result<
    Vec<Bar>,
    BarMappingError,
>)
    requires
        forall|i: int| 0 <= i < klines@.len() ==> #[trigger] klines@[i].open_time_ms * 1_000_000 <= u64::MAX,
    ensures
        (forall|i: int| 0 <= i < klines@.len() ==> #[trigger] kline_decimal(klines@[i])) ==> (r matches Ok(
            bars,
        ) && bars@.len() == klines@.len() && forall|i: int|
            0 <= i < bars@.len() ==> bar_of_kline(#[trigger] bars@[i], klines@[i], *bar_type, ts_init)),
        (exists|i: int| 0 <= i < klines@.len() && !#[trigger] kline_decimal(klines@[i])) ==> (r matches Err(
            e,
        ) && exists|k: int|
            0 <= k < klines@.len() && !#[trigger] kline_decimal(klines@[k]) && (forall|j: int|
                0 <= j < k ==> kline_decimal(#[trigger] klines@[j])) && refuses_field(
                e,
                kline_refusal(klines@[k]),
            )),
{
    let mut bars: Vec<Bar> = Vec::new();
    let mut i: usize = 0;
    while i < klines.len()
        invariant
            i <= klines.len(),
            bars@.len() == i,
            forall|j: int| 0 <= j < klines@.len() ==> #[trigger] klines@[j].open_time_ms * 1_000_000 <= u64::MAX,
            forall|j: int| 0 <= j < i ==> #[trigger] kline_decimal(klines@[j]),
            forall|j: int| 0 <= j < i ==> bar_of_kline(#[trigger] bars@[j], klines@[j], *bar_type, ts_init),
        decreases klines.len() - i,
    {
        let ghost k = klines@[i as int];
        assert(k.open_time_ms * 1_000_000 <= u64::MAX);
        match parse_kline(&klines[i], bar_type.clone_type(), ts_init) {
            Ok(b) => {
                bars.push(b);
            },
            Err(e) => {
                proof {
                    assert(!kline_decimal(klines@[i as int]));
                }
                return Err(e);
            },
        }
        i = i + 1;
    }
    Ok(bars)
}

/// Whether `series` is the rows of `klines` converted and put in time order.
pub open spec fn series_of_klines(series: Seq<Bar>, klines: Seq<RpcKline>, bar_type: BarType, ts_init: u64) -> bool {
    exists|bars: Seq<Bar>|
        #[trigger] is_time_sort(series, bars) && bars.len() == klines.len() && forall|i: int|
            0 <= i < bars.len() ==> bar_of_kline(#[trigger] bars[i], klines[i], bar_type, ts_init)
}

/// A kline response as the engine's series: every row converted, oldest first, rows opening
/// at the same time in the response's order. The first row that does not convert refuses
/// the whole response.
pub fn series_from_klines(klines: &Vec<RpcKline>, bar_type: &BarType, ts_init: u64) -> (r: Result<
    Vec<Bar>,
    BarMappingError,
>)
    requires
        forall|i: int| 0 <= i < klines@.len() ==> #[trigger] klines@[i].open_time_ms * 1_000_000 <= u64::MAX,
    ensures
        (forall|i: int| 0 <= i < klines@.len() ==> #[trigger] kline_decimal(klines@[i])) ==> (r matches Ok(
            s,
        ) && series_of_klines(s@, klines@, *bar_type, ts_init)),
        (exists|i: int| 0 <= i < klines@.len() && !#[trigger] kline_decimal(klines@[i])) ==> (r matches Err(
            e,
        ) && exists|k: int|
            0 <= k < klines@.len() && !#[trigger] kline_decimal(klines@[k]) && (forall|j: int|
                0 <= j < k ==> kline_decimal(#[trigger] klines@[j])) && refuses_field(
                e,
                kline_refusal(klines@[k]),
            )),
{
    match bars_from_klines(klines, bar_type, ts_init) {
        Ok(bars) => {
            let ghost converted = bars@;
            let series = sort_by_open_time(bars);
            proof {
                assert(is_time_sort(series@, converted));
                if forall|i: int| 0 <= i < klines@.len() ==> #[trigger] kline_decimal(klines@[i]) {
                    assert(converted.len() == klines@.len());
                    assert(forall|i: int|
                        0 <= i < converted.len() ==> bar_of_kline(
                            #[trigger] converted[i],
                            klines@[i],
                            *bar_type,
                            ts_init,
                        ));
                    assert(series_of_klines(series@, klines@, *bar_type, ts_init));
                }
            }
            Ok(series)
        },
        Err(e) => Err(e),
    }
}

/// A backtest and a live run see identical bars: a closed streamed candle and a historical
/// kline with the same open time and the same values convert to the same bar.
pub proof fn lemma_stream_and_history_agree(
    from_kline: Bar,
    from_candle: Bar,
    kline: RpcKline,
    candle: crate::websocket::messages::Candle,
    bar_type: BarType,
    ts_init: u64,
)
    requires
        bar_of_kline(from_kline, kline, bar_type, ts_init),
        bar_fields_match(from_candle, candle.open@, candle.high@, candle.low@, candle.close@, candle.volume@),
        from_candle.bar_type == bar_type,
        from_candle.ts_event == candle.open_time_ms * 1_000_000,
        from_candle.ts_init == ts_init,
        kline.open_time_ms == candle.open_time_ms,
        kline.open@ == candle.open@,
        kline.high@ == candle.high@,
        kline.low@ == candle.low@,
        kline.close@ == candle.close@,
        kline.volume@ == candle.volume@,
    ensures
        from_kline.open@ == from_candle.open@,
        from_kline.high@ == from_candle.high@,
        from_kline.low@ == from_candle.low@,
        from_kline.close@ == from_candle.close@,
        from_kline.volume@ == from_candle.volume@,
        from_kline.bar_type == from_candle.bar_type,
        from_kline.ts_event == from_candle.ts_event,
        from_kline.ts_init == from_candle.ts_init,
{
}

} // verus!
