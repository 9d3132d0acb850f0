use sodex::common::decimal::FIXED_PRECISION;
use sodex::common::Market;
use sodex::config::{Venue, SODEX_PERPS, SODEX_SPOT};
use sodex::data::parse::InstrumentId;
use sodex::http::Network;
use sodex::providers::{
    currency_precision, instrument_id_for, optional_bound, parse_perps_instrument, CurrencyRegistry,
    parse_spot_instrument, PerpsSymbol, ProviderError, SodexInstrumentProvider, SpotSymbol,
    STATUS_TRADING, UNKNOWN_CURRENCY,
};

fn spot_symbol() -> SpotSymbol {
    SpotSymbol {
        id: 1,
        name: "vBTC_vUSDC".to_string(),
        display_name: "BTC/USDC".to_string(),
        base_coin: Some("vBTC".to_string()),
        base_coin_precision: Some(8),
        quote_coin: Some("vUSDC".to_string()),
        quote_coin_precision: Some(6),
        price_precision: 0,
        tick_size: "1".to_string(),
        min_price: "0".to_string(),
        max_price: "0".to_string(),
        quantity_precision: 5,
        step_size: "0.00001".to_string(),
        min_quantity: "0.00001".to_string(),
        max_quantity: "1000".to_string(),
        min_notional: "5".to_string(),
        max_notional: "4000000".to_string(),
        maker_fee: "0.00065".to_string(),
        taker_fee: "0.00035".to_string(),
        status: STATUS_TRADING.to_string(),
    }
}

fn perps_symbol() -> PerpsSymbol {
    PerpsSymbol {
        id: 1,
        name: "BTC-USD".to_string(),
        display_name: "BTC-USD".to_string(),
        base_coin: "BTC".to_string(),
        quote_coin: "vUSDC".to_string(),
        quote_coin_precision: 6,
        price_precision: 0,
        tick_size: "1".to_string(),
        min_price: "0".to_string(),
        max_price: "0".to_string(),
        quantity_precision: 5,
        step_size: "0.00001".to_string(),
        min_quantity: "0.00001".to_string(),
        max_quantity: "1000".to_string(),
        min_notional: "10".to_string(),
        max_notional: "4000000".to_string(),
        max_leverage: 40,
        maker_fee: "0.0002".to_string(),
        taker_fee: "0.0005".to_string(),
        status: STATUS_TRADING.to_string(),
    }
}

fn spot_provider() -> SodexInstrumentProvider {
    SodexInstrumentProvider::new(Network::Testnet, Market::Spot).unwrap()
}

#[test]
fn spot_instrument_preserves_the_venue_tick_and_step() {
    let venue = Venue::new(SODEX_SPOT);
    let instrument = parse_spot_instrument(&spot_symbol(), &venue, &CurrencyRegistry::new()).unwrap();

    assert_eq!(instrument.price_increment, "1");
    assert_eq!(instrument.size_increment, "0.00001");
    assert_eq!(instrument.price_precision, 0);
    assert_eq!(instrument.size_precision, 5);
}

#[test]
fn decimal_strings_do_not_pass_through_a_float() {
    let venue = Venue::new(SODEX_SPOT);
    let instrument = parse_spot_instrument(&spot_symbol(), &venue, &CurrencyRegistry::new()).unwrap();

    assert_eq!(instrument.size_increment, "0.00001");
    assert!(!instrument.size_increment.contains("9999"));
}

#[test]
fn zero_bounds_map_to_unbounded_not_to_a_literal_zero() {
    let venue = Venue::new(SODEX_SPOT);
    let instrument = parse_spot_instrument(&spot_symbol(), &venue, &CurrencyRegistry::new()).unwrap();

    assert!(instrument.min_price.is_none());
    assert!(instrument.max_price.is_none());
    assert!(instrument.min_quantity.is_some(), "0.00001 is a real bound");
    assert_eq!(instrument.max_notional.as_deref(), Some("4000000"));
}

#[test]
fn bounds_and_fees_are_normalised_decimal_text() {
    assert_eq!(optional_bound("0.000"), None);
    assert_eq!(optional_bound("abc"), None);
    assert_eq!(optional_bound("5.5000"), Some("5.5".to_string()));
    let mut symbol = spot_symbol();
    symbol.maker_fee = "n/a".to_string();
    let instrument = parse_spot_instrument(&symbol, &Venue::new(SODEX_SPOT), &CurrencyRegistry::new()).unwrap();
    assert_eq!(instrument.maker_fee, "0");
    assert_eq!(instrument.taker_fee, "0.00035");
}

#[test]
fn on_chain_token_decimals_are_clamped_to_the_fixed_point_maximum() {
    let venue = Venue::new(SODEX_SPOT);
    let mut symbol = spot_symbol();
    symbol.base_coin = Some("wSOMETOKEN".to_string());
    symbol.base_coin_precision = Some(18);

    let instrument = parse_spot_instrument(&symbol, &venue, &CurrencyRegistry::new()).unwrap();

    assert_eq!(u32::from(instrument.base_currency.precision), FIXED_PRECISION);
    assert_eq!(currency_precision(18), 9);
    assert_eq!(currency_precision(6), 6);
}

#[test]
fn clamping_does_not_touch_order_precision() {
    let venue = Venue::new(SODEX_SPOT);
    let mut symbol = spot_symbol();
    symbol.base_coin = Some("wOTHERTOKEN".to_string());
    symbol.base_coin_precision = Some(18);

    let instrument = parse_spot_instrument(&symbol, &venue, &CurrencyRegistry::new()).unwrap();

    assert_eq!(instrument.price_precision, 0);
    assert_eq!(instrument.size_precision, 5);
    assert_eq!(instrument.size_increment, "0.00001");
}

#[test]
fn unknown_venue_coins_are_registered_rather_than_rejected() {
    let venue = Venue::new(SODEX_SPOT);
    let instrument = parse_spot_instrument(&spot_symbol(), &venue, &CurrencyRegistry::new()).unwrap();

    assert_eq!(instrument.base_currency.code, "vBTC");
    assert_eq!(instrument.quote_currency.code, "vUSDC");
}

#[test]
fn absent_coins_are_named_unknown_with_the_order_precision() {
    let mut symbol = spot_symbol();
    symbol.base_coin = None;
    symbol.base_coin_precision = None;
    let instrument = parse_spot_instrument(&symbol, &Venue::new(SODEX_SPOT), &CurrencyRegistry::new()).unwrap();
    assert_eq!(instrument.base_currency.code, UNKNOWN_CURRENCY);
    assert_eq!(instrument.base_currency.precision, 5);
}

#[test]
fn malformed_required_fields_are_refused_with_their_name() {
    let mut symbol = spot_symbol();
    symbol.step_size = "step".to_string();
    assert_eq!(
        parse_spot_instrument(&symbol, &Venue::new(SODEX_SPOT), &CurrencyRegistry::new()),
        Err(ProviderError::InvalidValue { field: "stepSize", value: "step".to_string() })
    );
    let mut wide = spot_symbol();
    wide.price_precision = 300;
    assert_eq!(
        parse_spot_instrument(&wide, &Venue::new(SODEX_SPOT), &CurrencyRegistry::new()),
        Err(ProviderError::Precision { field: "pricePrecision", value: 300 })
    );
    let mut negative = spot_symbol();
    negative.quantity_precision = -3;
    assert_eq!(
        parse_spot_instrument(&negative, &Venue::new(SODEX_SPOT), &CurrencyRegistry::new()).unwrap().size_precision,
        0
    );
}

#[test]
fn perps_settle_in_the_quote_currency_and_are_linear() {
    let venue = Venue::new(SODEX_PERPS);
    let instrument = parse_perps_instrument(&perps_symbol(), &venue, &CurrencyRegistry::new()).unwrap();

    assert_eq!(instrument.settlement_currency, Some(instrument.quote_currency.clone()));
    assert!(!instrument.is_inverse);
    assert_eq!(instrument.instrument_id.venue, SODEX_PERPS);
}

#[test]
fn the_same_symbol_name_on_each_engine_is_a_different_instrument() {
    let spot = instrument_id_for("BTC-USD", &Venue::new(SODEX_SPOT));
    let perps = instrument_id_for("BTC-USD", &Venue::new(SODEX_PERPS));

    assert_ne!(spot, perps);
    assert_eq!(spot.symbol, perps.symbol);
}

#[test]
fn halted_symbols_are_not_loaded() {
    let mut provider = spot_provider();
    let mut halted = spot_symbol();
    halted.status = "HALT".to_string();

    provider.ingest_spot(&vec![halted]).unwrap();

    assert!(provider.is_empty());
}

#[test]
fn loading_populates_the_reverse_map_for_order_submission() {
    let mut provider = spot_provider();
    provider.ingest_spot(&vec![spot_symbol()]).unwrap();

    let id = instrument_id_for("vBTC_vUSDC", &Venue::new(SODEX_SPOT));
    assert_eq!(provider.symbol_id(&id), Some(1));
    assert_eq!(provider.len(), 1);
    assert_eq!(provider.instrument(0).raw_symbol, "vBTC_vUSDC");
}

#[test]
fn an_unloaded_instrument_has_no_symbol_id() {
    let provider = spot_provider();
    let id = instrument_id_for("vBTC_vUSDC", &Venue::new(SODEX_SPOT));

    assert_eq!(provider.symbol_id(&id), None);
}

#[test]
fn another_venues_instrument_has_no_symbol_id_here() {
    let mut provider = spot_provider();
    provider.ingest_spot(&vec![spot_symbol()]).unwrap();
    let id = InstrumentId::new("vBTC_vUSDC", SODEX_PERPS);
    assert_eq!(provider.symbol_id(&id), None);
    assert_eq!(
        provider.load_target(&id),
        Err(ProviderError::WrongVenue { venue: SODEX_PERPS.to_string() })
    );
    assert!(provider.load_target(&InstrumentId::new("x", SODEX_SPOT)).is_ok());
    assert_eq!(provider.venue(), Venue::new(SODEX_SPOT));
}

#[test]
fn reloading_rebuilds_rather_than_accumulates() {
    let mut provider = spot_provider();
    provider.ingest_spot(&vec![spot_symbol()]).unwrap();
    assert_eq!(provider.len(), 1);

    provider.clear();
    provider.ingest_spot(&vec![spot_symbol()]).unwrap();

    assert_eq!(provider.len(), 1, "reload must not double-count");
}

#[test]
fn ingesting_a_symbol_again_replaces_its_id() {
    let mut provider = spot_provider();
    provider.ingest_spot(&vec![spot_symbol()]).unwrap();
    let mut renumbered = spot_symbol();
    renumbered.id = 9;
    provider.ingest_spot(&vec![renumbered]).unwrap();
    let id = instrument_id_for("vBTC_vUSDC", &Venue::new(SODEX_SPOT));
    assert_eq!(provider.len(), 1);
    assert_eq!(provider.symbol_id(&id), Some(9));
}

#[test]
fn a_reload_drops_delisted_symbols() {
    let mut provider = spot_provider();
    let mut other = spot_symbol();
    other.id = 2;
    other.name = "vETH_vUSDC".to_string();
    provider.reload_spot(&vec![spot_symbol(), other]).unwrap();
    assert_eq!(provider.len(), 2);
    provider.reload_spot(&vec![spot_symbol()]).unwrap();
    assert_eq!(provider.len(), 1);
    let gone = instrument_id_for("vETH_vUSDC", &Venue::new(SODEX_SPOT));
    assert_eq!(provider.symbol_id(&gone), None);
}

#[test]
fn a_bad_symbol_stops_the_load_after_those_before_it() {
    let mut provider = SodexInstrumentProvider::new(Network::Mainnet, Market::Perps).unwrap();
    let mut bad = perps_symbol();
    bad.name = "ETH-USD".to_string();
    bad.tick_size = "".to_string();
    let mut after = perps_symbol();
    after.name = "SOL-USD".to_string();
    let result = provider.reload_perps(&vec![perps_symbol(), bad, after]);
    assert!(matches!(result, Err(ProviderError::InvalidValue { field: "tickSize", .. })));
    assert_eq!(provider.len(), 1);
    let kept = instrument_id_for("BTC-USD", &Venue::new(SODEX_PERPS));
    assert_eq!(provider.symbol_id(&kept), Some(1));
}

#[test]
fn a_loaded_instrument_can_be_found_by_its_id() {
    let mut provider = spot_provider();
    provider.ingest_spot(&vec![spot_symbol()]).unwrap();
    let found = provider.find(&InstrumentId::new("vBTC_vUSDC", SODEX_SPOT)).unwrap();
    assert_eq!(found.price_increment, "1");
    assert!(provider.find(&InstrumentId::new("vBTC_vUSDC", SODEX_PERPS)).is_none());
    assert!(provider.find(&InstrumentId::new("vETH_vUSDC", SODEX_SPOT)).is_none());
}

#[test]
fn the_stored_definition_is_the_latest_conversion_of_its_symbol() {
    let mut provider = spot_provider();
    provider.ingest_spot(&vec![spot_symbol()]).unwrap();
    let mut retick = spot_symbol();
    retick.tick_size = "0.5".to_string();
    retick.price_precision = 1;
    provider.ingest_spot(&vec![retick.clone()]).unwrap();
    let venue = Venue::new(SODEX_SPOT);
    let expected = parse_spot_instrument(&retick, &venue, &CurrencyRegistry::new()).unwrap();
    let found = provider.find(&InstrumentId::new("vBTC_vUSDC", SODEX_SPOT)).unwrap();
    assert_eq!(*found, expected);
    assert_eq!(found.price_precision, 1);
    assert_eq!(found.base_currency.code, "vBTC");
    assert_eq!(found.quote_currency.code, "vUSDC");
    assert_eq!(*provider.instrument(0), expected);
}

#[test]
fn a_coin_the_engine_defines_keeps_that_definition() {
    let mut currencies = CurrencyRegistry::new();
    currencies.register("BTC", 8);
    let instrument =
        parse_perps_instrument(&perps_symbol(), &Venue::new(SODEX_PERPS), &currencies).unwrap();
    assert_eq!(instrument.base_currency.code, "BTC");
    assert_eq!(instrument.base_currency.precision, 8, "not the size precision 5");
    assert_eq!(instrument.quote_currency.precision, 6, "vUSDC is not defined: the listing's");
}

#[test]
fn registering_a_code_again_replaces_its_precision() {
    let mut currencies = CurrencyRegistry::new();
    currencies.register("vUSDC", 2);
    currencies.register("vUSDC", 4);
    assert_eq!(currencies.precision_of("vUSDC"), Some(4));
    assert_eq!(currencies.precision_of("vBTC"), None);
}

#[test]
fn a_provider_resolves_coins_against_its_registered_currencies() {
    let mut provider = spot_provider();
    provider.register_currency("vBTC", 3);
    provider.ingest_spot(&vec![spot_symbol()]).unwrap();
    let found = provider.find(&InstrumentId::new("vBTC_vUSDC", SODEX_SPOT)).unwrap();
    assert_eq!(found.base_currency.precision, 3);
    assert_eq!(found.quote_currency.precision, 6);
}
