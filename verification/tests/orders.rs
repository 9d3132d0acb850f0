use sodex::common::enums::{ExecutionType, OrderSide, OrderStatus, OrderType, PositionSide, TimeInForce};
use sodex::common::Market;
use sodex::execution::client::{
    cancel_label, cancel_target, contingency_denial, plan_cancel, plan_submission, report_cancel,
    report_submission, BuildError, CancelTarget, Cancellation, ContingencyType, OrderAck,
    Submission, SubmissionOutcome,
    ACCEPTED_WITHOUT_ID, CANCEL_REJECTED, NO_CANCEL_ACK, NO_ORDER_ACK, ORDER_REJECTED,
};
use sodex::execution::parse::{
    is_fill, map_client_order_id, map_order_status, map_order_type, map_side, map_time_in_force,
    to_perps_order, to_spot_order, EngineOrderSide, EngineOrderStatus, EngineOrderType,
    EngineTimeInForce, OrderConversionError, OrderInitialized, OrderSpec,
};
use sodex::http::requests::{ClientOrderId, NewOrderRequest, RequestError};
use sodex::http::spot::SpotNewOrderRequest;
use sodex::config::{ConfigError, SodexExecClientConfig};
use sodex::execution::client::{execution_setup, SetupError};
use sodex::http::Network;

const DEFAULT_ID: &str = "O-19700101-000000-001-001-1";

fn spec(order_type: OrderType, side: OrderSide, tif: TimeInForce) -> OrderSpec {
    OrderSpec {
        cl_ord_id: ClientOrderId::parse(DEFAULT_ID).unwrap(),
        side,
        order_type,
        time_in_force: tif,
        quantity: "0.001".to_string(),
        price: Some("40000".to_string()),
        quote_quantity: false,
        reduce_only: false,
    }
}

fn submission_spec() -> OrderSpec {
    OrderSpec {
        cl_ord_id: ClientOrderId::parse("O-19700101-000000-001").unwrap(),
        side: OrderSide::Buy,
        order_type: OrderType::Limit,
        time_in_force: TimeInForce::Gtc,
        quantity: "0.001".to_string(),
        price: Some("40000".to_string()),
        quote_quantity: false,
        reduce_only: false,
    }
}

fn initialized() -> OrderInitialized {
    OrderInitialized {
        client_order_id: DEFAULT_ID.to_string(),
        order_side: EngineOrderSide::Sell,
        order_type: EngineOrderType::Limit,
        time_in_force: EngineTimeInForce::Gtc,
        post_only: true,
        quantity: "2".to_string(),
        price: Some("100".to_string()),
        quote_quantity: false,
        reduce_only: false,
    }
}

#[test]
fn nautilus_and_venue_time_in_force_numbering_actually_disagree() {
    assert_eq!(EngineTimeInForce::Ioc.engine_number(), 2);
    assert_eq!(TimeInForce::Ioc.as_int(), 3);
    assert_eq!(EngineTimeInForce::Fok.engine_number(), 3);
    assert_eq!(TimeInForce::Fok.as_int(), 2);
}

#[test]
fn ioc_maps_to_ioc_and_not_to_the_venue_value_that_shares_its_number() {
    let mapped = map_time_in_force(EngineTimeInForce::Ioc, false).unwrap();

    assert_eq!(mapped, TimeInForce::Ioc);
    assert_ne!(mapped, TimeInForce::Fok);
}

#[test]
fn post_only_becomes_gtx() {
    assert_eq!(
        map_time_in_force(EngineTimeInForce::Gtc, true).unwrap(),
        TimeInForce::Gtx
    );
}

#[test]
fn post_only_with_ioc_is_refused() {
    assert!(matches!(
        map_time_in_force(EngineTimeInForce::Ioc, true),
        Err(OrderConversionError::PostOnlyWithNonResting { .. })
    ));
}

#[test]
fn unsupported_time_in_force_is_refused() {
    for tif in [EngineTimeInForce::Fok, EngineTimeInForce::Gtd, EngineTimeInForce::Day] {
        assert!(
            map_time_in_force(tif, false).is_err(),
            "{tif:?} must be refused"
        );
    }
    assert_eq!(
        map_time_in_force(EngineTimeInForce::Gtd, false),
        Err(OrderConversionError::Unsupported { what: "Gtd time in force".to_string() })
    );
}

#[test]
fn stop_orders_are_refused_rather_than_flattened_to_limit() {
    for order_type in [
        EngineOrderType::StopMarket,
        EngineOrderType::StopLimit,
        EngineOrderType::TrailingStopMarket,
    ] {
        assert_eq!(map_order_type(order_type), None, "{order_type:?}");
    }
    assert_eq!(map_order_type(EngineOrderType::Market), Some(OrderType::Market));
    assert_eq!(map_side(EngineOrderSide::Sell), OrderSide::Sell);
}

#[test]
fn a_limit_order_converts_with_its_price_and_id_intact() {
    let item =
        to_spot_order(&spec(OrderType::Limit, OrderSide::Buy, TimeInForce::Gtc), 1).unwrap();

    assert_eq!(item.cl_ord_id.as_str(), DEFAULT_ID);
    assert_eq!(item.price.as_deref(), Some("40000"));
    assert_eq!(item.quantity.as_deref(), Some("0.001"));
    assert_eq!(item.side, OrderSide::Buy);
    assert_eq!(item.time_in_force, TimeInForce::Gtc);
    assert_eq!(item.symbol_id, 1);
}

#[test]
fn the_default_nautilus_client_order_id_is_accepted_unchanged() {
    assert_eq!(map_client_order_id(DEFAULT_ID).unwrap().as_str(), DEFAULT_ID);
}

#[test]
fn a_non_conforming_client_order_id_is_refused_not_rewritten() {
    assert!(matches!(
        map_client_order_id("order:with:colons"),
        Err(OrderConversionError::ClientOrderId { .. })
    ));
}

#[test]
fn an_engine_order_event_becomes_an_order_spec() {
    let spec = OrderSpec::from_initialized(&initialized()).unwrap();
    assert_eq!(spec.cl_ord_id.as_str(), DEFAULT_ID);
    assert_eq!(spec.side, OrderSide::Sell);
    assert_eq!(spec.order_type, OrderType::Limit);
    assert_eq!(spec.time_in_force, TimeInForce::Gtx);
    assert_eq!(spec.quantity, "2");
    assert_eq!(spec.price.as_deref(), Some("100"));

    let mut stop = initialized();
    stop.order_type = EngineOrderType::StopLimit;
    stop.client_order_id = "bad id".to_string();
    assert_eq!(
        OrderSpec::from_initialized(&stop),
        Err(OrderConversionError::Unsupported { what: "StopLimit orders".to_string() })
    );
}

#[test]
fn a_limit_order_without_a_price_is_refused() {
    let mut order = spec(OrderType::Limit, OrderSide::Buy, TimeInForce::Gtc);
    order.price = None;

    assert_eq!(
        to_spot_order(&order, 1),
        Err(OrderConversionError::LimitWithoutPrice)
    );
}

#[test]
fn quote_quantity_requires_a_market_buy() {
    let mut sell = spec(OrderType::Market, OrderSide::Sell, TimeInForce::Ioc);
    sell.quote_quantity = true;
    assert_eq!(
        to_spot_order(&sell, 1),
        Err(OrderConversionError::QuoteQuantityNotMarketBuy)
    );

    let mut buy = spec(OrderType::Market, OrderSide::Buy, TimeInForce::Ioc);
    buy.quote_quantity = true;
    let item = to_spot_order(&buy, 1).unwrap();
    assert_eq!(item.funds.as_deref(), Some("0.001"));
    assert!(item.quantity.is_none());
}

#[test]
fn reduce_only_is_refused_on_spot_but_carried_on_perps() {
    let mut order = spec(OrderType::Market, OrderSide::Sell, TimeInForce::Ioc);
    order.reduce_only = true;

    assert!(matches!(
        to_spot_order(&order, 1),
        Err(OrderConversionError::Unsupported { .. })
    ));

    assert!(to_perps_order(&order).unwrap().reduce_only);
}

#[test]
fn perps_orders_use_one_way_position_side() {
    let item =
        to_perps_order(&spec(OrderType::Limit, OrderSide::Buy, TimeInForce::Gtc)).unwrap();

    assert_eq!(item.position_side, PositionSide::Both);
}

#[test]
fn venue_statuses_map_onto_nautilus_equivalents() {
    assert_eq!(map_order_status(OrderStatus::New), Some(EngineOrderStatus::Accepted));
    assert_eq!(map_order_status(OrderStatus::Filled), Some(EngineOrderStatus::Filled));
    assert_eq!(map_order_status(OrderStatus::Canceled), Some(EngineOrderStatus::Canceled));
    assert_eq!(map_order_status(OrderStatus::Expired), Some(EngineOrderStatus::Expired));
}

#[test]
fn triggered_has_no_direct_equivalent() {
    assert_eq!(map_order_status(OrderStatus::Triggered), None);
}

#[test]
fn only_fill_execution_types_count_as_fills() {
    assert!(is_fill(ExecutionType::Filled));
    assert!(is_fill(ExecutionType::PartiallyFilled));

    for other in [
        ExecutionType::New,
        ExecutionType::Canceled,
        ExecutionType::Rejected,
        ExecutionType::Modified,
        ExecutionType::Expired,
        ExecutionType::Replaced,
    ] {
        assert!(!is_fill(other), "{other:?} is not a fill");
    }
}

#[test]
fn a_spot_submission_carries_the_symbol_on_the_order_item() {
    let Submission::Spot(request) =
        Submission::build(&submission_spec(), Market::Spot, 60366, 1).unwrap()
    else {
        panic!("expected a spot submission");
    };

    let json = request.to_json();
    assert!(json.contains(r#""orders":[{"symbolID":1"#), "{json}");
    assert_eq!(SpotNewOrderRequest::ENDPOINT, "/trade/orders/batch");
    assert_eq!(SpotNewOrderRequest::ACTION, "batchNewOrder");
}

#[test]
fn a_perps_submission_carries_the_symbol_once_on_the_request() {
    let Submission::Perps(request) =
        Submission::build(&submission_spec(), Market::Perps, 60366, 7).unwrap()
    else {
        panic!("expected a perps submission");
    };

    assert_eq!(request.symbol_id, 7);
    let json = request.to_json();
    assert!(json.contains(r#""symbolID":7"#), "{json}");
    assert_eq!(NewOrderRequest::ENDPOINT, "/trade/orders");
    assert_eq!(NewOrderRequest::ACTION, "newOrder");
}

#[test]
fn a_submission_reports_the_ids_it_sent_for_alignment() {
    let submission = Submission::build(&submission_spec(), Market::Perps, 60366, 7).unwrap();

    assert_eq!(
        submission.client_order_ids(),
        vec!["O-19700101-000000-001".to_string()]
    );
    let (path, action, body) = submission.wire();
    assert_eq!(path, "/trade/orders");
    assert_eq!(action, "newOrder");
    assert!(body.starts_with(r#"{"accountID":60366,"symbolID":7"#), "{body}");
}

#[test]
fn a_spot_cancel_names_both_itself_and_its_target() {
    let label = ClientOrderId::parse("cancel-1").unwrap();
    let target = ClientOrderId::parse("order-1").unwrap();

    let Cancellation::Spot(request) = Cancellation::build(
        Market::Spot,
        60366,
        1,
        CancelTarget::ClientOrderId(target),
        label,
    ) else {
        panic!("expected a spot cancellation");
    };

    let json = request.to_json();
    assert!(json.contains(r#""clOrdID":"cancel-1""#), "{json}");
    assert!(json.contains(r#""origClOrdID":"order-1""#), "{json}");
}

#[test]
fn a_perps_cancel_by_venue_order_id_carries_no_client_id() {
    let label = ClientOrderId::parse("cancel-1").unwrap();

    let Cancellation::Perps(request) = Cancellation::build(
        Market::Perps,
        60366,
        7,
        CancelTarget::VenueOrderId(1_289_807_722),
        label,
    ) else {
        panic!("expected a perps cancellation");
    };

    let json = request.to_json();
    assert!(json.contains(r#""orderID":1289807722"#), "{json}");
    assert!(!json.contains("clOrdID"), "{json}");
}

#[test]
fn a_cancel_label_fits_the_venue_limit() {
    let label = cancel_label("O-20260910-120000-001-002-3", 1_767_972_900_123_456_789);

    assert!(label.as_str().len() <= 36, "{}", label.as_str());
    assert!(label.as_str().ends_with("-1767972900123456789"));
    assert_eq!(label.as_str(), "O-20260910-12000-1767972900123456789");
}

#[test]
fn two_cancels_of_one_order_get_different_labels() {
    let first = cancel_label("O-1", 1_000_000_000);
    let second = cancel_label("O-1", 2_000_000_000);

    assert_ne!(first.as_str(), second.as_str());
}

#[test]
fn a_cancel_label_drops_characters_the_venue_forbids() {
    let label = cancel_label("O.1:2", 1_000_000_000);

    assert!(label.as_str().starts_with("O12-"), "{}", label.as_str());
    assert_eq!(label.as_str(), "O12-1000000000");
}

#[test]
fn a_cancel_names_its_target_by_venue_id_when_known() {
    assert!(matches!(
        cancel_target(Some("1289807722"), "O-1"),
        Ok(CancelTarget::VenueOrderId(1_289_807_722))
    ));
    assert_eq!(
        cancel_target(Some("12x"), "O-1").unwrap_err(),
        "venue order id 12x is not numeric"
    );
    assert!(matches!(
        cancel_target(None, "O-1"),
        Ok(CancelTarget::ClientOrderId(ref c)) if c.as_str() == "O-1"
    ));
    assert!(cancel_target(None, "bad id").is_err());
}

#[test]
fn acknowledgements_become_acceptances_or_reasons() {
    let accepted = OrderAck { order_id: Some(42), success: true, error: None };
    assert_eq!(
        report_submission(Some(&accepted)),
        SubmissionOutcome::Accepted { venue_order_id: 42 }
    );
    let no_id = OrderAck { order_id: None, success: true, error: None };
    assert_eq!(
        report_submission(Some(&no_id)),
        SubmissionOutcome::Rejected { reason: ACCEPTED_WITHOUT_ID.to_string() }
    );
    let refused = OrderAck { order_id: None, success: false, error: Some("price".to_string()) };
    assert_eq!(
        report_submission(Some(&refused)),
        SubmissionOutcome::Rejected { reason: "price".to_string() }
    );
    let silent = OrderAck { order_id: None, success: false, error: None };
    assert_eq!(
        report_submission(Some(&silent)),
        SubmissionOutcome::Rejected { reason: ORDER_REJECTED.to_string() }
    );
    assert_eq!(
        report_submission(None),
        SubmissionOutcome::Rejected { reason: NO_ORDER_ACK.to_string() }
    );
}

#[test]
fn cancel_acknowledgements_report_only_failures() {
    let ok = OrderAck { order_id: Some(1), success: true, error: None };
    assert_eq!(report_cancel(Some(&ok)), None);
    let refused = OrderAck { order_id: None, success: false, error: None };
    assert_eq!(report_cancel(Some(&refused)), Some(CANCEL_REJECTED.to_string()));
    assert_eq!(report_cancel(None), Some(NO_CANCEL_ACK.to_string()));
}

#[test]
fn contingent_orders_are_denied_with_the_contingency_named() {
    assert_eq!(contingency_denial(None), None);
    assert_eq!(
        contingency_denial(Some(ContingencyType::Oco)),
        Some("SoDEX cannot enforce Oco contingency between orders".to_string())
    );
}

fn instrument() -> sodex::data::parse::InstrumentId {
    sodex::data::parse::InstrumentId::new("BTC-USD", "SODEX_PERPS")
}

#[test]
fn a_cancel_without_a_known_symbol_id_is_rejected_before_the_venue() {
    let result = plan_cancel(Market::Perps, 60366, &instrument(), None, Some("1"), "O-1", 5);
    assert_eq!(
        result.unwrap_err(),
        "no venue symbol id for BTC-USD.SODEX_PERPS; instruments have not been loaded"
    );
}

#[test]
fn a_cancel_prefers_the_venue_order_id() {
    let Ok(Cancellation::Perps(request)) =
        plan_cancel(Market::Perps, 60366, &instrument(), Some(7), Some("99"), "O-1", 5)
    else {
        panic!("expected a perps cancellation");
    };
    assert_eq!(
        request.to_json(),
        r#"{"accountID":60366,"cancels":[{"symbolID":7,"orderID":99}]}"#
    );
    assert_eq!(
        plan_cancel(Market::Perps, 60366, &instrument(), Some(7), Some("x9"), "O-1", 5).unwrap_err(),
        "venue order id x9 is not numeric"
    );
}

#[test]
fn a_spot_cancel_by_client_id_is_labelled_with_the_request_time() {
    let Ok(Cancellation::Spot(request)) =
        plan_cancel(Market::Spot, 1, &instrument(), Some(3), None, "O-1", 1_000)
    else {
        panic!("expected a spot cancellation");
    };
    assert_eq!(
        request.to_json(),
        r#"{"accountID":1,"cancels":[{"symbolID":3,"clOrdID":"O-1-1000","origClOrdID":"O-1"}]}"#
    );
}

#[test]
fn a_cancel_by_a_malformed_client_id_says_why() {
    assert_eq!(
        plan_cancel(Market::Spot, 1, &instrument(), Some(3), None, "bad id", 1).unwrap_err(),
        "client order id \"bad id\" is not accepted: client order id must match ^[0-9a-zA-Z_-]{1,36}$, got \"bad id\""
    );
}

#[test]
fn a_submission_is_denied_in_the_documented_order() {
    let init = initialized();
    assert_eq!(
        plan_submission(Some(ContingencyType::Oto), &init, &instrument(), Some(1), Market::Perps, 1)
            .unwrap_err(),
        "SoDEX cannot enforce Oto contingency between orders"
    );
    let mut stop = initialized();
    stop.order_type = EngineOrderType::StopMarket;
    assert_eq!(
        plan_submission(None, &stop, &instrument(), None, Market::Perps, 1).unwrap_err(),
        "StopMarket orders is not supported by SoDEX"
    );
    let mut ioc = initialized();
    ioc.time_in_force = EngineTimeInForce::Ioc;
    assert_eq!(
        plan_submission(None, &ioc, &instrument(), Some(1), Market::Perps, 1).unwrap_err(),
        "post-only requires a resting order; it cannot be combined with Ioc"
    );
    assert_eq!(
        plan_submission(None, &init, &instrument(), None, Market::Perps, 1).unwrap_err(),
        "no venue symbol id for BTC-USD.SODEX_PERPS; instruments have not been loaded"
    );
}

#[test]
fn an_accepted_submission_carries_the_order() {
    let Ok(Submission::Perps(request)) =
        plan_submission(None, &initialized(), &instrument(), Some(4), Market::Perps, 60366)
    else {
        panic!("expected a perps submission");
    };
    assert_eq!(
        request.to_json(),
        r#"{"accountID":60366,"symbolID":4,"orders":[{"clOrdID":"O-19700101-000000-001-001-1","modifier":1,"side":2,"type":1,"timeInForce":4,"price":"100","quantity":"2","reduceOnly":false,"positionSide":1}]}"#
    );
}

#[test]
fn a_reduce_only_spot_order_is_denied_with_the_reason() {
    let mut init = initialized();
    init.reduce_only = true;
    init.post_only = false;
    assert_eq!(
        plan_submission(None, &init, &instrument(), Some(4), Market::Spot, 1).unwrap_err(),
        "reduce-only on spot is not supported by SoDEX"
    );
}

#[test]
fn error_messages_read_as_the_engine_reports_them() {
    assert_eq!(
        OrderConversionError::LimitWithoutPrice.message(),
        "a limit order requires a price"
    );
    assert_eq!(
        OrderConversionError::Request(RequestError::BatchSize(101)).message(),
        "batch must contain between 1 and 100 items, got 101"
    );
    assert_eq!(
        RequestError::MarketTimeInForce(TimeInForce::Gtc).message(),
        "market orders must use IOC time in force, got GTC"
    );
    assert_eq!(
        BuildError::Request(RequestError::FundsOnMarketBuyOnly).message(),
        "funds is only valid for market buy orders"
    );
}

#[test]
fn a_spot_market_order_resting_gtc_is_denied_by_the_placement_rules() {
    let mut init = initialized();
    init.order_type = EngineOrderType::Market;
    init.post_only = false;
    init.price = None;
    assert_eq!(
        plan_submission(None, &init, &instrument(), Some(4), Market::Spot, 1).unwrap_err(),
        "market orders must use IOC time in force, got GTC"
    );
    let Ok(Submission::Perps(request)) =
        plan_submission(None, &init, &instrument(), Some(4), Market::Perps, 1)
    else {
        panic!("perps market orders are sent as IOC");
    };
    assert_eq!(request.orders[0].time_in_force, TimeInForce::Ioc);
}

#[test]
fn an_execution_client_resolves_every_credential_at_setup() {
    let config = SodexExecClientConfig::from_env(Network::Testnet, Market::Perps);
    let key = "2".repeat(64);
    let setup = execution_setup(&config, Some("60366"), Some("api-key-01"), Some(&key)).unwrap();
    assert_eq!(setup.venue_account_id, 60366);
    assert!(setup.http.can_sign());
    assert!(setup.provider.is_empty());

    assert!(matches!(
        execution_setup(&config, None, Some("api-key-01"), Some(&key)),
        Err(SetupError::Config(ConfigError::Missing { .. }))
    ));
    assert!(matches!(
        execution_setup(&config, Some("1"), Some("default"), Some(&key)),
        Err(SetupError::Credential(_))
    ));
    assert!(matches!(
        execution_setup(&config, Some("1"), Some("k"), Some("0xdeadbeef")),
        Err(SetupError::Credential(_))
    ));
    assert!(matches!(
        execution_setup(&config, Some("1"), Some("k"), Some(&"0".repeat(64))),
        Err(SetupError::Client(_))
    ));
}
