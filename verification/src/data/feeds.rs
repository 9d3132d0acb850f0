//! The streaming side of the data client: which bar series each subscribed feed publishes,
//! and what a pushed candle becomes.
//!
//! A feed is keyed by the venue symbol and interval the candle channel echoes. The entry is
//! recorded before the subscribe goes out, since the venue can push the first candle before
//! it acknowledges; a push for a feed with no entry is dropped. Only closed candles are
//! published: the channel republishes the forming bar on every block.
use vstd::prelude::*;

use super::history::BarRequest;
use super::parse::{
    all_fields_decimal, bar_fields_match, field_refusal, parse_bar, refuses_field, spec_to_interval, spot_only, venue_interval,
    Bar, BarMappingError, BarType,
};
use crate::common::Market;
use crate::text::{owned, str_eq};
use crate::websocket::messages::Candle;

verus! {

/// The feed a bar series is streamed on: its venue symbol and interval, or why the engine
/// cannot serve the series.
pub fn feed_key(bar_type: &BarType, market: Market) -> (r: Result<(String, &'static str), BarMappingError>)
    ensures
        venue_interval(bar_type.spec.step, bar_type.spec.aggregation) is None ==> r == Err::<
            (String, &'static str),
            BarMappingError,
        >(
            BarMappingError::NoSuchInterval {
                step: bar_type.spec.step,
                aggregation: bar_type.spec.aggregation,
            },
        ),
        venue_interval(bar_type.spec.step, bar_type.spec.aggregation) matches Some(t) ==> if spot_only(
            t,
        ) && market == Market::Perps {
            r matches Err(BarMappingError::SpotOnly { interval }) && interval@ == t
        } else {
            r matches Ok((symbol, interval)) && symbol@ == bar_type.instrument_id.symbol@ && interval@
                == t
        },
{
    match spec_to_interval(&bar_type.spec, market) {
        Ok(interval) => Ok((owned(bar_type.instrument_id.symbol.as_str()), interval)),
        Err(e) => Err(e),
    }
}

/// The bar series of each subscribed feed, one entry per feed.
#[derive(Debug)]
pub struct BarFeeds {
    entries: Vec<(String, String, BarType)>,
}

/// A feed key by value.
pub open spec fn key_of(e: (String, String, BarType)) -> (Seq<char>, Seq<char>) {
    (e.0@, e.1@)
}

/// The keys of the entries, in order.
pub open spec fn feed_keys(entries: Seq<(String, String, BarType)>) -> Seq<(Seq<char>, Seq<char>)> {
    entries.map_values(|e: (String, String, BarType)| key_of(e))
}

/// Whether `k` is among `keys`.
pub open spec fn has_key(keys: Seq<(Seq<char>, Seq<char>)>, k: (Seq<char>, Seq<char>)) -> bool {
    exists|j: int| 0 <= j < keys.len() && keys[j] == k
}

/// The series recorded for a feed, if any.
pub open spec fn series_of(entries: Seq<(String, String, BarType)>, k: (Seq<char>, Seq<char>)) -> Option<
    BarType,
> {
    if has_key(feed_keys(entries), k) {
        Some(entries[choose|j: int| 0 <= j < feed_keys(entries).len() && feed_keys(entries)[j] == k].2)
    } else {
        None
    }
}

impl View for BarFeeds {
    type V = Map<(Seq<char>, Seq<char>), BarType>;

    /// Each recorded feed and its series.
    closed spec fn view(&self) -> Map<(Seq<char>, Seq<char>), BarType> {
        Map::new(
            |k: (Seq<char>, Seq<char>)| has_key(feed_keys(self.entries@), k),
            |k: (Seq<char>, Seq<char>)| series_of(self.entries@, k)->0,
        )
    }
}

impl BarFeeds {
    #[verifier::type_invariant]
    spec fn distinct(self) -> bool {
        distinct_keys(self.entries@)
    }

    /// No feed recorded.
    pub fn new() -> (f: Self)
        ensures
            f@ == Map::<(Seq<char>, Seq<char>), BarType>::empty(),
    {
        let f = BarFeeds { entries: Vec::new() };
        proof {
            assert(f@ =~= Map::<(Seq<char>, Seq<char>), BarType>::empty());
        }
        f
    }

    /// Records the series a feed publishes, replacing any earlier one for that feed.
    pub fn insert(&mut self, symbol: &str, interval: &str, bar_type: BarType)
        ensures
            final(self)@ == old(self)@.insert((symbol@, interval@), bar_type),
    {
        proof {
            use_type_invariant(&*self);
        }
        let ghost before = self.entries@;
        let ghost k = (symbol@, interval@);
        let mut entries: Vec<(String, String, BarType)> = Vec::new();
        std::mem::swap(&mut entries, &mut self.entries);
        match position_in(&entries, symbol, interval) {
            Some(j) => {
                entries.set(j, (owned(symbol), owned(interval), bar_type));
                proof {
                    lemma_replaced(before, entries@, j as int, k);
                }
            },
            None => {
                entries.push((owned(symbol), owned(interval), bar_type));
                proof {
                    lemma_appended(before, entries@, k);
                }
            },
        }
        self.entries = entries;
        proof {
            assert(self@ =~= old(self)@.insert((symbol@, interval@), bar_type));
        }
    }

    /// Forgets a feed.
    pub fn remove(&mut self, symbol: &str, interval: &str)
        ensures
            final(self)@ == old(self)@.remove((symbol@, interval@)),
    {
        proof {
            use_type_invariant(&*self);
        }
        let ghost before = self.entries@;
        let ghost k = (symbol@, interval@);
        let mut entries: Vec<(String, String, BarType)> = Vec::new();
        std::mem::swap(&mut entries, &mut self.entries);
        match position_in(&entries, symbol, interval) {
            Some(j) => {
                entries.remove(j);
                proof {
                    lemma_removed(before, entries@, j as int, k);
                }
            },
            None => {
                proof {
                    assert forall|q: (Seq<char>, Seq<char>)| #[trigger] has_key(feed_keys(before), q) implies q != k by {}
                }
            },
        }
        self.entries = entries;
        proof {
            assert(self@ =~= old(self)@.remove((symbol@, interval@)));
        }
    }

    /// The series a feed publishes, if it is recorded.
    pub fn get(&self, symbol: &str, interval: &str) -> (r: Option<BarType>)
        ensures
            match r {
                Some(b) => self@.contains_key((symbol@, interval@)) && b == self@[(symbol@, interval@)],
                None => !self@.contains_key((symbol@, interval@)),
            },
    {
        proof {
            use_type_invariant(self);
        }
        match position_in(&self.entries, symbol, interval) {
            Some(j) => {
                proof {
                    lemma_found(self.entries@, j as int, (symbol@, interval@));
                }
                Some(self.entries[j].2.clone_type())
            },
            None => None,
        }
    }
}

/// No feed occurs twice.
pub open spec fn distinct_keys(entries: Seq<(String, String, BarType)>) -> bool {
    forall|i: int, j: int| 0 <= i < j < entries.len() ==> key_of(entries[i]) != key_of(entries[j])
}

/// The index of the feed `symbol`/`interval`, if recorded.
fn position_in(entries: &Vec<(String, String, BarType)>, symbol: &str, interval: &str) -> (r: Option<usize>)
    ensures
        match r {
            Some(j) => j < entries@.len() && key_of(entries@[j as int]) == (symbol@, interval@),
            None => !has_key(feed_keys(entries@), (symbol@, interval@)),
        },
{
    let mut j: usize = 0;
    while j < entries.len()
        invariant
            j <= entries@.len(),
            forall|k: int| 0 <= k < j ==> key_of(entries@[k]) != (symbol@, interval@),
        decreases entries@.len() - j,
    {
        let e = &entries[j];
        if str_eq(e.0.as_str(), symbol) && str_eq(e.1.as_str(), interval) {
            return Some(j);
        }
        j = j + 1;
    }
    proof {
        assert forall|k: int| 0 <= k < feed_keys(entries@).len() implies feed_keys(entries@)[k] != (
            symbol@,
            interval@,
        ) by {
            assert(feed_keys(entries@)[k] == key_of(entries@[k]));
        }
    }
    None
}

/// With distinct keys, the entry at an index holding `k` is the one the lookup finds.
proof fn lemma_found(entries: Seq<(String, String, BarType)>, j: int, k: (Seq<char>, Seq<char>))
    requires
        distinct_keys(entries),
        0 <= j < entries.len(),
        key_of(entries[j]) == k,
    ensures
        has_key(feed_keys(entries), k),
        series_of(entries, k) == Some(entries[j].2),
{
    assert(feed_keys(entries)[j] == k);
    let c = choose|i: int| 0 <= i < feed_keys(entries).len() && feed_keys(entries)[i] == k;
    assert(feed_keys(entries)[c] == key_of(entries[c]));
}

/// Whether `k` is recorded, by the entries themselves.
proof fn lemma_has_key(entries: Seq<(String, String, BarType)>, k: (Seq<char>, Seq<char>))
    ensures
        has_key(feed_keys(entries), k) <==> exists|i: int| 0 <= i < entries.len() && key_of(entries[i]) == k,
{
    if has_key(feed_keys(entries), k) {
        let i = choose|i: int| 0 <= i < feed_keys(entries).len() && feed_keys(entries)[i] == k;
        assert(feed_keys(entries)[i] == key_of(entries[i]));
    }
    if exists|i: int| 0 <= i < entries.len() && key_of(entries[i]) == k {
        let i = choose|i: int| 0 <= i < entries.len() && key_of(entries[i]) == k;
        assert(feed_keys(entries)[i] == key_of(entries[i]));
    }
}

proof fn lemma_replaced(
    before: Seq<(String, String, BarType)>,
    after: Seq<(String, String, BarType)>,
    j: int,
    k: (Seq<char>, Seq<char>),
)
    requires
        distinct_keys(before),
        0 <= j < before.len(),
        key_of(before[j]) == k,
        after.len() == before.len(),
        key_of(after[j]) == k,
        forall|i: int| 0 <= i < before.len() && i != j ==> after[i] == before[i],
    ensures
        distinct_keys(after),
        forall|q: (Seq<char>, Seq<char>)|
            #![trigger has_key(feed_keys(after), q)]
            has_key(feed_keys(after), q) == (has_key(feed_keys(before), q) || q == k),
        series_of(after, k) == Some(after[j].2),
        forall|q: (Seq<char>, Seq<char>)|
            #![trigger series_of(after, q)]
            q != k ==> series_of(after, q) == series_of(before, q),
{
    assert forall|a: int, b: int| 0 <= a < b < after.len() implies key_of(after[a]) != key_of(after[b]) by {
        if a != j && b != j {
            assert(key_of(before[a]) != key_of(before[b]));
        } else if a == j {
            assert(key_of(before[j]) != key_of(before[b]));
        } else {
            assert(key_of(before[a]) != key_of(before[j]));
        }
    }
    assert forall|q: (Seq<char>, Seq<char>)| #[trigger] has_key(feed_keys(after), q) == (has_key(feed_keys(before), q) || q == k) by {
        lemma_has_key(after, q);
        lemma_has_key(before, q);
        if has_key(feed_keys(before), q) {
            let i = choose|i: int| 0 <= i < before.len() && key_of(before[i]) == q;
            if i == j {
                assert(key_of(after[j]) == q);
            } else {
                assert(key_of(after[i]) == q);
            }
        }
        if has_key(feed_keys(after), q) {
            let i = choose|i: int| 0 <= i < after.len() && key_of(after[i]) == q;
            if i != j {
                assert(key_of(before[i]) == q);
            }
        }
    }
    lemma_found(after, j, k);
    assert forall|q: (Seq<char>, Seq<char>)| q != k implies #[trigger] series_of(after, q) == series_of(before, q) by {
        lemma_has_key(after, q);
        lemma_has_key(before, q);
        if has_key(feed_keys(before), q) {
            let i = choose|i: int| 0 <= i < before.len() && key_of(before[i]) == q;
            assert(i != j);
            assert(after[i] == before[i]);
            lemma_found(before, i, q);
            lemma_found(after, i, q);
        }
    }
}

proof fn lemma_appended(
    before: Seq<(String, String, BarType)>,
    after: Seq<(String, String, BarType)>,
    k: (Seq<char>, Seq<char>),
)
    requires
        distinct_keys(before),
        !has_key(feed_keys(before), k),
        after.len() == before.len() + 1,
        key_of(after[before.len() as int]) == k,
        forall|i: int| 0 <= i < before.len() ==> after[i] == before[i],
    ensures
        distinct_keys(after),
        forall|q: (Seq<char>, Seq<char>)|
            #![trigger has_key(feed_keys(after), q)]
            has_key(feed_keys(after), q) == (has_key(feed_keys(before), q) || q == k),
        series_of(after, k) == Some(after[before.len() as int].2),
        forall|q: (Seq<char>, Seq<char>)|
            #![trigger series_of(after, q)]
            q != k ==> series_of(after, q) == series_of(before, q),
{
    let n = before.len() as int;
    lemma_has_key(before, k);
    assert forall|a: int, b: int| 0 <= a < b < after.len() implies key_of(after[a]) != key_of(after[b]) by {
        if b < n {
            assert(key_of(before[a]) != key_of(before[b]));
        } else {
            assert(key_of(after[a]) == key_of(before[a]));
        }
    }
    assert forall|q: (Seq<char>, Seq<char>)| #[trigger] has_key(feed_keys(after), q) == (has_key(feed_keys(before), q) || q == k) by {
        lemma_has_key(after, q);
        lemma_has_key(before, q);
        if has_key(feed_keys(before), q) {
            let i = choose|i: int| 0 <= i < before.len() && key_of(before[i]) == q;
            assert(key_of(after[i]) == q);
        }
        if has_key(feed_keys(after), q) {
            let i = choose|i: int| 0 <= i < after.len() && key_of(after[i]) == q;
            if i < n {
                assert(key_of(before[i]) == q);
            }
        }
    }
    lemma_found(after, n, k);
    assert forall|q: (Seq<char>, Seq<char>)| q != k implies #[trigger] series_of(after, q) == series_of(before, q) by {
        lemma_has_key(after, q);
        lemma_has_key(before, q);
        if has_key(feed_keys(before), q) {
            let i = choose|i: int| 0 <= i < before.len() && key_of(before[i]) == q;
            lemma_found(before, i, q);
            lemma_found(after, i, q);
        }
    }
}

proof fn lemma_removed(
    before: Seq<(String, String, BarType)>,
    after: Seq<(String, String, BarType)>,
    j: int,
    k: (Seq<char>, Seq<char>),
)
    requires
        distinct_keys(before),
        0 <= j < before.len(),
        key_of(before[j]) == k,
        after == before.remove(j),
    ensures
        distinct_keys(after),
        forall|q: (Seq<char>, Seq<char>)|
            #![trigger has_key(feed_keys(after), q)]
            has_key(feed_keys(after), q) == (has_key(feed_keys(before), q) && q != k),
        forall|q: (Seq<char>, Seq<char>)|
            #![trigger series_of(after, q)]
            q != k ==> series_of(after, q) == series_of(before, q),
{
    assert forall|a: int, b: int| 0 <= a < b < after.len() implies key_of(after[a]) != key_of(after[b]) by {
        let a0 = if a < j { a } else { a + 1 };
        let b0 = if b < j { b } else { b + 1 };
        assert(after[a] == before[a0]);
        assert(after[b] == before[b0]);
        assert(key_of(before[a0]) != key_of(before[b0]));
    }
    assert forall|q: (Seq<char>, Seq<char>)| #[trigger] has_key(feed_keys(after), q) == (has_key(feed_keys(before), q) && q != k) by {
        lemma_has_key(after, q);
        lemma_has_key(before, q);
        if has_key(feed_keys(before), q) && q != k {
            let i = choose|i: int| 0 <= i < before.len() && key_of(before[i]) == q;
            assert(i != j);
            let i2 = if i < j { i } else { i - 1 };
            assert(after[i2] == before[i]);
        }
        if has_key(feed_keys(after), q) {
            let i = choose|i: int| 0 <= i < after.len() && key_of(after[i]) == q;
            let i0 = if i < j { i } else { i + 1 };
            assert(after[i] == before[i0]);
            assert(i0 != j);
            assert(key_of(before[i0]) != key_of(before[j]));
        }
    }
    assert forall|q: (Seq<char>, Seq<char>)| q != k implies #[trigger] series_of(after, q) == series_of(before, q) by {
        lemma_has_key(after, q);
        lemma_has_key(before, q);
        if has_key(feed_keys(before), q) {
            let i = choose|i: int| 0 <= i < before.len() && key_of(before[i]) == q;
            assert(i != j);
            let i2 = if i < j { i } else { i - 1 };
            assert(after[i2] == before[i]);
            lemma_found(before, i, q);
            lemma_found(after, i2, q);
        }
    }
}

/// What a pushed candle becomes: nothing while it is forming or when its feed is not
/// recorded, else the bar of the feed's series, or why its values do not convert.
pub fn on_candle(feeds: &BarFeeds, candle: &Candle, ts_init: u64) -> (r: Option<Result<Bar, BarMappingError>>)
    requires
        candle.open_time_ms * 1_000_000 <= u64::MAX,
    ensures
        !candle.closed ==> r is None,
        candle.closed && !feeds@.contains_key((candle.symbol@, candle.interval@)) ==> r is None,
        candle.closed && feeds@.contains_key((candle.symbol@, candle.interval@)) ==> {
            let bt = feeds@[(candle.symbol@, candle.interval@)];
            if all_fields_decimal(candle.open@, candle.high@, candle.low@, candle.close@, candle.volume@) {
                r matches Some(Ok(b)) && bar_fields_match(
                    b,
                    candle.open@,
                    candle.high@,
                    candle.low@,
                    candle.close@,
                    candle.volume@,
                ) && b.bar_type == bt && b.ts_event == candle.open_time_ms * 1_000_000 && b.ts_init
                    == ts_init
            } else {
                r matches Some(Err(e)) && refuses_field(
                    e,
                    field_refusal(
                        candle.open@,
                        candle.high@,
                        candle.low@,
                        candle.close@,
                        candle.volume@,
                    )->0,
                )
            }
        },
{
    if !candle.is_final() {
        return None;
    }
    match feeds.get(candle.symbol.as_str(), candle.interval.as_str()) {
        None => None,
        Some(bar_type) => Some(parse_bar(candle, bar_type, ts_init)),
    }
}

/// The historical request for a bar series over an optional range in nanoseconds: the
/// bounds in milliseconds, and a row count above `u32::MAX` capped there.
pub fn bar_request_for(bar_type: &BarType, start_ns: Option<u64>, end_ns: Option<u64>, limit: Option<usize>) -> (r:
    BarRequest)
    ensures
        r.instrument_id == bar_type.instrument_id,
        r.spec == bar_type.spec,
        r.start_ms == (match start_ns {
            Some(n) => Some((n / 1_000_000) as u64),
            None => None,
        }),
        r.end_ms == (match end_ns {
            Some(n) => Some((n / 1_000_000) as u64),
            None => None,
        }),
        r.limit == (match limit {
            Some(n) => Some(if n <= u32::MAX { n as u32 } else { u32::MAX }),
            None => None,
        }),
{
    let t = bar_type.clone_type();
    BarRequest {
        instrument_id: t.instrument_id,
        spec: t.spec,
        start_ms: match start_ns {
            Some(n) => Some(n / 1_000_000),
            None => None,
        },
        end_ms: match end_ns {
            Some(n) => Some(n / 1_000_000),
            None => None,
        },
        limit: match limit {
            Some(n) => Some(if n <= u32::MAX as usize { n as u32 } else { u32::MAX }),
            None => None,
        },
    }
}

} // verus!
