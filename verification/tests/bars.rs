use sodex::common::Market;
use sodex::config::{SODEX_PERPS, SODEX_SPOT};
use sodex::data::feeds::{bar_request_for, feed_key, on_candle, BarFeeds};
use sodex::data::history::{
    bars_from_klines, check_bar_request, complete_series, drop_forming_tail, kline_query,
    series_from_klines,
    klines_path, max_limit,
    parse_kline, sort_by_open_time, BarRequest, HistoryError, RpcKline,
};
use sodex::data::parse::{
    bar_type_for, decimal_field, interval_to_spec, parse_bar, parse_completed_bar,
    spec_to_interval, AggregationSource, Bar, BarAggregation, BarMappingError, BarSpecification,
    InstrumentId, PriceType, NOT_A_DECIMAL,
};
use sodex::websocket::messages::Candle;

const MINUTE_MS: u64 = 60_000;

fn instrument(venue: &str) -> InstrumentId {
    InstrumentId::new("vBTC_vUSDC", venue)
}

fn closed_candle() -> Candle {
    Candle {
        open_time_ms: 1_767_972_900_000,
        update_time_ms: 1_767_972_960_000,
        symbol: "BTC-USD".to_string(),
        interval: "1m".to_string(),
        open: "91869".to_string(),
        high: "91982".to_string(),
        low: "91869".to_string(),
        close: "91976".to_string(),
        volume: "4.12298".to_string(),
        quote_volume: "379148.6798".to_string(),
        trade_count: 12,
        closed: true,
    }
}

fn minute_spec() -> BarSpecification {
    BarSpecification::new(1, BarAggregation::Minute, PriceType::Last)
}

fn kline(open_time_ms: u64) -> RpcKline {
    RpcKline {
        open_time_ms,
        open: "91869".to_string(),
        high: "91982".to_string(),
        low: "91869".to_string(),
        close: "91976".to_string(),
        volume: "4.12298".to_string(),
        quote_volume: "379148.6798".to_string(),
        trade_count: 12,
    }
}

fn bars_at(times: &[u64]) -> Vec<Bar> {
    let bar_type = bar_type_for(instrument(SODEX_SPOT), "1m").unwrap();
    times
        .iter()
        .map(|t| parse_kline(&kline(*t), bar_type.clone(), 0).unwrap())
        .collect()
}

fn request(limit: Option<u32>, start_ms: Option<u64>, end_ms: Option<u64>) -> BarRequest {
    BarRequest {
        instrument_id: instrument(SODEX_SPOT),
        spec: minute_spec(),
        start_ms,
        end_ms,
        limit,
    }
}

#[test]
fn common_intervals_round_trip_through_both_directions() {
    for interval in ["1m", "5m", "15m", "30m", "1h", "4h", "1d", "1w"] {
        let spec = interval_to_spec(interval).unwrap();
        assert_eq!(spec_to_interval(&spec, Market::Spot).unwrap(), interval);
        assert_eq!(spec_to_interval(&spec, Market::Perps).unwrap(), interval);
    }
}

#[test]
fn spot_only_intervals_are_refused_on_perps() {
    for interval in ["3m", "6h", "8h", "12h", "3d"] {
        let spec = interval_to_spec(interval).unwrap();
        assert_eq!(spec_to_interval(&spec, Market::Spot).unwrap(), interval);
        assert!(
            matches!(
                spec_to_interval(&spec, Market::Perps),
                Err(BarMappingError::SpotOnly { .. })
            ),
            "{interval} must be refused on perps"
        );
    }
}

#[test]
fn monthly_bars_have_no_representation() {
    assert!(matches!(
        interval_to_spec("1M"),
        Err(BarMappingError::UnknownInterval(_))
    ));
    assert_eq!(
        interval_to_spec("2m"),
        Err(BarMappingError::UnknownInterval("2m".to_string()))
    );
}

#[test]
fn an_unsupported_step_is_refused_rather_than_rounded() {
    let spec = BarSpecification::new(2, BarAggregation::Minute, PriceType::Last);

    assert!(matches!(
        spec_to_interval(&spec, Market::Spot),
        Err(BarMappingError::NoSuchInterval { step: 2, .. })
    ));
}

#[test]
fn the_price_type_plays_no_part_in_the_interval() {
    let spec = BarSpecification::new(4, BarAggregation::Hour, PriceType::Mid);
    assert_eq!(spec_to_interval(&spec, Market::Perps).unwrap(), "4h");
    assert_eq!(interval_to_spec("1w").unwrap(), BarSpecification::new(1, BarAggregation::Week, PriceType::Last));
}

#[test]
fn bars_are_marked_as_externally_aggregated() {
    let bar_type = bar_type_for(instrument(SODEX_SPOT), "1m").unwrap();

    assert_eq!(bar_type.aggregation_source(), AggregationSource::External);
}

#[test]
fn forming_candles_are_refused() {
    let mut forming = closed_candle();
    forming.closed = false;
    let bar_type = bar_type_for(instrument(SODEX_SPOT), "1m").unwrap();

    assert_eq!(
        parse_bar(&forming, bar_type, 0),
        Err(BarMappingError::BarNotClosed)
    );
}

#[test]
fn a_candle_known_complete_converts_without_the_flag() {
    let mut forming = closed_candle();
    forming.closed = false;
    let bar_type = bar_type_for(instrument(SODEX_SPOT), "1m").unwrap();
    let bar = parse_completed_bar(&forming, bar_type, 5).unwrap();
    assert_eq!(bar.close, "91976");
    assert_eq!(bar.ts_init, 5);
}

#[test]
fn closed_candle_becomes_a_bar_with_venue_prices_intact() {
    let bar_type = bar_type_for(instrument(SODEX_SPOT), "1m").unwrap();
    let bar = parse_bar(&closed_candle(), bar_type, 0).unwrap();

    assert_eq!(bar.open, "91869");
    assert_eq!(bar.high, "91982");
    assert_eq!(bar.low, "91869");
    assert_eq!(bar.close, "91976");
    assert_eq!(bar.volume, "4.12298");
}

#[test]
fn on_chain_padding_is_stripped_from_bar_values() {
    let mut candle = closed_candle();
    candle.volume = "0.001390000000000000".to_string();
    let bar_type = bar_type_for(instrument(SODEX_SPOT), "1m").unwrap();
    assert_eq!(parse_bar(&candle, bar_type, 0).unwrap().volume, "0.00139");
}

#[test]
fn a_malformed_price_is_reported_with_its_field() {
    let mut candle = closed_candle();
    candle.high = "n/a".to_string();
    let bar_type = bar_type_for(instrument(SODEX_SPOT), "1m").unwrap();
    assert_eq!(
        parse_bar(&candle, bar_type, 0),
        Err(BarMappingError::InvalidValue {
            field: "high",
            value: "n/a".to_string(),
            reason: NOT_A_DECIMAL.to_string()
        })
    );
    assert_eq!(decimal_field("1.50", "open").unwrap(), "1.5");
}

#[test]
fn bar_event_time_is_the_open_converted_to_nanoseconds() {
    let candle = closed_candle();
    let bar_type = bar_type_for(instrument(SODEX_SPOT), "1m").unwrap();
    let bar = parse_bar(&candle, bar_type, 0).unwrap();

    assert_eq!(bar.ts_event, candle.open_time_ms * 1_000_000);
    assert_ne!(bar.ts_event, candle.update_time_ms * 1_000_000);
}

#[test]
fn the_same_interval_on_each_engine_yields_distinct_bar_types() {
    let spot = bar_type_for(instrument(SODEX_SPOT), "1m").unwrap();
    let perps = bar_type_for(instrument(SODEX_PERPS), "1m").unwrap();

    assert_ne!(spot, perps);
    assert_eq!(spot.spec(), perps.spec());
}

#[test]
fn kline_parses_without_judging_closure() {
    let bar_type = bar_type_for(instrument(SODEX_SPOT), "1m").unwrap();
    let bar = parse_kline(&kline(1_767_972_900_000), bar_type, 0).unwrap();

    assert_eq!(bar.close, "91976");
    assert_eq!(bar.volume, "4.12298");
}

#[test]
fn the_still_forming_final_bar_is_dropped() {
    let now = 10 * MINUTE_MS + 30_000;
    let bars = bars_at(&[8 * MINUTE_MS, 9 * MINUTE_MS, 10 * MINUTE_MS]);

    let kept = drop_forming_tail(bars, &minute_spec(), now);

    assert_eq!(kept.len(), 2);
    assert_eq!(kept.last().unwrap().ts_event, 9 * MINUTE_MS * 1_000_000);
}

#[test]
fn a_bar_closing_exactly_now_is_kept() {
    let now = 10 * MINUTE_MS;
    let bars = bars_at(&[9 * MINUTE_MS]);

    assert_eq!(drop_forming_tail(bars, &minute_spec(), now).len(), 1);
}

#[test]
fn a_fully_historical_series_is_untouched() {
    let now = 100 * MINUTE_MS;
    let bars = bars_at(&[8 * MINUTE_MS, 9 * MINUTE_MS, 10 * MINUTE_MS]);

    assert_eq!(drop_forming_tail(bars, &minute_spec(), now).len(), 3);
}

#[test]
fn more_than_one_incomplete_tail_bar_is_handled() {
    let now = 8 * MINUTE_MS + 30_000;
    let bars = bars_at(&[8 * MINUTE_MS, 9 * MINUTE_MS, 10 * MINUTE_MS]);

    assert!(drop_forming_tail(bars, &minute_spec(), now).is_empty());
}

#[test]
fn dropping_on_a_newest_first_series_would_remove_the_wrong_end() {
    let now = 10 * MINUTE_MS + 30_000;
    let ascending = bars_at(&[8 * MINUTE_MS, 9 * MINUTE_MS, 10 * MINUTE_MS]);
    let mut descending = ascending.clone();
    descending.reverse();

    let correct = drop_forming_tail(ascending, &minute_spec(), now);
    let wrong = drop_forming_tail(descending, &minute_spec(), now);

    assert_eq!(correct.len(), 2);
    assert!(correct.iter().all(|b| b.ts_event < 10 * MINUTE_MS * 1_000_000));

    assert_eq!(wrong.first().unwrap().ts_event, 10 * MINUTE_MS * 1_000_000);
}

#[test]
fn sorting_puts_the_newest_first_response_oldest_first() {
    let descending = bars_at(&[10 * MINUTE_MS, 8 * MINUTE_MS, 9 * MINUTE_MS]);
    let sorted = sort_by_open_time(descending);
    let times: Vec<u64> = sorted.iter().map(|b| b.ts_event / 1_000_000).collect();
    assert_eq!(times, vec![8 * MINUTE_MS, 9 * MINUTE_MS, 10 * MINUTE_MS]);
    let kept = drop_forming_tail(sorted, &minute_spec(), 10 * MINUTE_MS + 30_000);
    assert_eq!(kept.len(), 2);
}

#[test]
fn a_kline_series_converts_in_order() {
    let bar_type = bar_type_for(instrument(SODEX_SPOT), "1m").unwrap();
    let bars = bars_from_klines(&vec![kline(MINUTE_MS), kline(0)], &bar_type, 0).unwrap();
    assert_eq!(bars.len(), 2);
    assert_eq!(bars[0].ts_event, MINUTE_MS * 1_000_000);
    let mut bad = kline(0);
    bad.open = "x".to_string();
    assert!(matches!(
        bars_from_klines(&vec![kline(0), bad], &bar_type, 0),
        Err(BarMappingError::InvalidValue { field: "open", .. })
    ));
}

#[test]
fn limits_differ_between_the_engines() {
    assert_eq!(max_limit(Market::Spot), 1500);
    assert_eq!(max_limit(Market::Perps), 1000);
}

#[test]
fn an_over_large_limit_names_the_engine_maximum() {
    let request = request(Some(1200), None, None);

    assert!(request.limit.unwrap() <= max_limit(Market::Spot));
    assert!(request.limit.unwrap() > max_limit(Market::Perps));
    assert_eq!(check_bar_request(&request, Market::Spot).unwrap(), "1m");
    assert_eq!(
        check_bar_request(&request, Market::Perps),
        Err(HistoryError::LimitTooLarge { requested: 1200, max: 1000, market: Market::Perps })
    );
}

#[test]
fn an_inverted_range_is_refused() {
    assert_eq!(
        check_bar_request(&request(None, Some(10), Some(5)), Market::Spot),
        Err(HistoryError::InvertedRange { start_ms: 10, end_ms: 5 })
    );
    assert!(check_bar_request(&request(None, Some(5), Some(5)), Market::Spot).is_ok());
}

#[test]
fn an_unserved_interval_is_refused_before_the_request() {
    let mut r = request(None, None, None);
    r.spec = BarSpecification::new(8, BarAggregation::Hour, PriceType::Last);
    assert_eq!(
        check_bar_request(&r, Market::Perps),
        Err(HistoryError::Mapping(BarMappingError::SpotOnly { interval: "8h" }))
    );
}

#[test]
fn the_kline_query_lists_only_what_was_given() {
    let q = kline_query(&request(Some(10), Some(1), None), "1m");
    assert_eq!(
        q,
        vec![
            ("interval".to_string(), "1m".to_string()),
            ("startTime".to_string(), "1".to_string()),
            ("limit".to_string(), "10".to_string()),
        ]
    );
    assert_eq!(klines_path("vBTC_vUSDC"), "/markets/vBTC_vUSDC/klines");
}

fn closed(symbol: &str, interval: &str) -> Candle {
    let mut c = closed_candle();
    c.symbol = symbol.to_string();
    c.interval = interval.to_string();
    c
}

#[test]
fn a_feed_is_keyed_by_the_venue_symbol_and_interval() {
    let bar_type = bar_type_for(instrument(SODEX_SPOT), "4h").unwrap();
    assert_eq!(feed_key(&bar_type, Market::Spot).unwrap(), ("vBTC_vUSDC".to_string(), "4h"));
    let spot_only = bar_type_for(instrument(SODEX_PERPS), "6h").unwrap();
    assert_eq!(
        feed_key(&spot_only, Market::Perps),
        Err(BarMappingError::SpotOnly { interval: "6h" })
    );
}

#[test]
fn only_closed_candles_of_recorded_feeds_become_bars() {
    let mut feeds = BarFeeds::new();
    let bar_type = bar_type_for(instrument(SODEX_SPOT), "1m").unwrap();
    feeds.insert("BTC-USD", "1m", bar_type.clone());

    let bar = on_candle(&feeds, &closed("BTC-USD", "1m"), 7).unwrap().unwrap();
    assert_eq!(bar.bar_type, bar_type);
    assert_eq!(bar.ts_init, 7);

    let mut forming = closed("BTC-USD", "1m");
    forming.closed = false;
    assert!(on_candle(&feeds, &forming, 7).is_none());
    assert!(on_candle(&feeds, &closed("BTC-USD", "5m"), 7).is_none());
    assert!(on_candle(&feeds, &closed("ETH-USD", "1m"), 7).is_none());
}

#[test]
fn a_feed_can_be_replaced_and_forgotten() {
    let mut feeds = BarFeeds::new();
    let first = bar_type_for(instrument(SODEX_SPOT), "1m").unwrap();
    let second = bar_type_for(instrument(SODEX_PERPS), "1m").unwrap();
    feeds.insert("BTC-USD", "1m", first);
    feeds.insert("BTC-USD", "1m", second.clone());
    assert_eq!(feeds.get("BTC-USD", "1m"), Some(second));
    feeds.remove("BTC-USD", "1m");
    assert_eq!(feeds.get("BTC-USD", "1m"), None);
    feeds.remove("BTC-USD", "1m");
    assert_eq!(feeds.get("BTC-USD", "1m"), None);
}

#[test]
fn a_bar_request_converts_nanoseconds_and_caps_the_limit() {
    let bar_type = bar_type_for(instrument(SODEX_SPOT), "1m").unwrap();
    let request = bar_request_for(&bar_type, Some(1_767_972_900_123_456_789), None, Some(5_000_000_000));
    assert_eq!(request.start_ms, Some(1_767_972_900_123));
    assert_eq!(request.end_ms, None);
    assert_eq!(request.limit, Some(u32::MAX));
    assert_eq!(request.spec, minute_spec());
    let small = bar_request_for(&bar_type, None, Some(2_000_000), Some(10));
    assert_eq!(small.end_ms, Some(2));
    assert_eq!(small.limit, Some(10));
}

fn perps_bar_type(step: usize, aggregation: BarAggregation) -> sodex::data::parse::BarType {
    sodex::data::parse::BarType {
        instrument_id: instrument(SODEX_PERPS),
        spec: BarSpecification::new(step, aggregation, PriceType::Last),
        aggregation_source: AggregationSource::External,
    }
}

fn subscribed_feeds(entry: sodex::data::parse::BarType) -> BarFeeds {
    let mut feeds = BarFeeds::new();
    feeds.insert("vBTC_vUSDC", "1m", entry);
    feeds
}

fn pushed(closed: bool) -> Candle {
    let mut c = closed_candle();
    c.symbol = "vBTC_vUSDC".to_string();
    c.closed = closed;
    c
}

#[test]
fn a_bar_type_maps_to_the_symbol_and_interval_the_venue_echoes() {
    let key = feed_key(&perps_bar_type(1, BarAggregation::Minute), Market::Perps).unwrap();

    assert_eq!(key, ("vBTC_vUSDC".to_string(), "1m"));
}

#[test]
fn a_bar_specification_this_engine_cannot_serve_is_refused_at_subscribe_time() {
    assert!(feed_key(&perps_bar_type(3, BarAggregation::Minute), Market::Perps).is_err());
}

#[test]
fn a_closed_bar_is_published() {
    let subscribed = perps_bar_type(1, BarAggregation::Minute);
    let feeds = subscribed_feeds(subscribed.clone());

    let bar = on_candle(&feeds, &pushed(true), 0).unwrap().unwrap();

    assert_eq!(bar.bar_type, subscribed);
    assert_eq!(bar.close, "91976");
}

#[test]
fn a_forming_bar_is_not_published() {
    let feeds = subscribed_feeds(perps_bar_type(1, BarAggregation::Minute));

    assert!(on_candle(&feeds, &pushed(false), 0).is_none());
}

#[test]
fn a_push_for_an_unsubscribed_feed_is_dropped() {
    assert!(on_candle(&BarFeeds::new(), &pushed(true), 0).is_none());
}

#[test]
fn a_closed_candle_and_its_kline_become_the_same_bar() {
    let bar_type = bar_type_for(instrument(SODEX_SPOT), "1m").unwrap();
    let streamed = parse_bar(&closed_candle(), bar_type.clone(), 3).unwrap();
    let historical = parse_kline(&kline(closed_candle().open_time_ms), bar_type, 3).unwrap();
    assert_eq!(streamed, historical);
}

#[test]
fn bars_opening_together_keep_their_order_when_sorted() {
    let bar_type = bar_type_for(instrument(SODEX_SPOT), "1m").unwrap();
    let mut first = kline(MINUTE_MS);
    first.close = "1".to_string();
    let mut second = kline(MINUTE_MS);
    second.close = "2".to_string();
    let bars = bars_from_klines(&vec![kline(2 * MINUTE_MS), first, second, kline(0)], &bar_type, 0).unwrap();
    let sorted = sort_by_open_time(bars);
    let closes: Vec<&str> = sorted.iter().map(|b| b.close.as_str()).collect();
    assert_eq!(closes, vec!["91976", "1", "2", "91976"]);
}

#[test]
fn a_historical_series_is_sorted_and_loses_its_forming_tail() {
    let newest_first = bars_at(&[10 * MINUTE_MS, 9 * MINUTE_MS, MINUTE_MS, 0]);
    let series = complete_series(newest_first, &minute_spec(), 10 * MINUTE_MS + 30_000);
    let opens: Vec<u64> = series.iter().map(|b| b.ts_event / 1_000_000).collect();
    assert_eq!(opens, vec![0, MINUTE_MS, 9 * MINUTE_MS]);
}

#[test]
fn a_series_entirely_in_the_past_is_only_sorted() {
    let series = complete_series(bars_at(&[2 * MINUTE_MS, 0, MINUTE_MS]), &minute_spec(), 60 * MINUTE_MS);
    let opens: Vec<u64> = series.iter().map(|b| b.ts_event / 1_000_000).collect();
    assert_eq!(opens, vec![0, MINUTE_MS, 2 * MINUTE_MS]);
}

#[test]
fn a_kline_response_becomes_an_oldest_first_series() {
    let bar_type = bar_type_for(instrument(SODEX_SPOT), "1m").unwrap();
    let series =
        series_from_klines(&vec![kline(2 * MINUTE_MS), kline(0), kline(MINUTE_MS)], &bar_type, 0)
            .unwrap();
    let opens: Vec<u64> = series.iter().map(|b| b.ts_event / 1_000_000).collect();
    assert_eq!(opens, vec![0, MINUTE_MS, 2 * MINUTE_MS]);
}

#[test]
fn the_first_bad_row_and_its_first_bad_field_are_reported() {
    let bar_type = bar_type_for(instrument(SODEX_SPOT), "1m").unwrap();
    let mut first = kline(0);
    first.close = "c?".to_string();
    first.volume = "v?".to_string();
    let mut second = kline(MINUTE_MS);
    second.open = "o?".to_string();
    assert_eq!(
        series_from_klines(&vec![kline(2 * MINUTE_MS), first, second], &bar_type, 0),
        Err(BarMappingError::InvalidValue {
            field: "volume",
            value: "v?".to_string(),
            reason: NOT_A_DECIMAL.to_string()
        })
    );
}
