use sodex::common::enums::{OrderSide, PositionSide, TimeInForce, TriggerType};
use sodex::common::Market;
use sodex::common::{CHAIN_ID_MAINNET, CHAIN_ID_TESTNET};
use sodex::http::requests::{
    BuilderParams, CancelItem, CancelOrderRequest, ClientOrderId, NewOrderRequest, OrderItem,
    RequestError, MAX_BATCH,
};
use sodex::http::spot::{
    SpotCancelItem, SpotCancelOrderRequest, SpotNewOrderRequest, SpotOrderItem,
};
use sodex::http::Network;
use sodex::json::ToJson;

fn id(value: &str) -> ClientOrderId {
    ClientOrderId::parse(value).unwrap()
}

#[test]
fn market_base_uses_the_rest_path_segment_not_the_domain_name() {
    assert_eq!(
        Network::Testnet.market_base(Market::Perps),
        "https://testnet-gw.sodex.dev/api/v1/perps"
    );
    assert_eq!(Market::Perps.domain_name(), "futures");
}

#[test]
fn network_binds_url_and_chain_id_together() {
    assert_eq!(Network::Mainnet.chain_id(), CHAIN_ID_MAINNET);
    assert_eq!(Network::Testnet.chain_id(), CHAIN_ID_TESTNET);
    assert!(Network::Testnet.public_base().contains("testnet"));
    assert!(Network::Mainnet.public_base().contains("mainnet"));
}

#[test]
fn spot_and_perps_differ_only_in_the_trailing_segment() {
    let spot = Network::Mainnet.market_base(Market::Spot);
    let perps = Network::Mainnet.market_base(Market::Perps);

    assert!(spot.ends_with("/spot"));
    assert!(perps.ends_with("/perps"));
    assert_eq!(
        spot.trim_end_matches("/spot"),
        perps.trim_end_matches("/perps")
    );
}

#[test]
fn new_order_request_matches_the_venue_signing_example_byte_for_byte() {
    let expected = r#"{"accountID":12345,"symbolID":1,"orders":[{"clOrdID":"my-order-1","modifier":1,"side":1,"type":2,"timeInForce":3,"quantity":"0.001","reduceOnly":false,"positionSide":1}]}"#;

    let request = NewOrderRequest::new(
        12345,
        1,
        vec![OrderItem::market(id("my-order-1"), OrderSide::Buy, "0.001")],
    )
    .unwrap();

    assert_eq!(request.to_json(), expected);
}

#[test]
fn client_order_id_enforces_the_documented_pattern() {
    assert!(ClientOrderId::parse("my-order_1").is_ok());
    assert!(ClientOrderId::parse(&"a".repeat(36)).is_ok());

    assert!(ClientOrderId::parse("").is_err());
    assert!(ClientOrderId::parse(&"a".repeat(37)).is_err());
    assert!(ClientOrderId::parse("BTC-USD:1").is_err(), "colon");
    assert!(ClientOrderId::parse("order 1").is_err(), "space");
}

#[test]
fn a_refused_client_order_id_is_carried_in_the_error() {
    assert_eq!(
        ClientOrderId::parse("order 1"),
        Err(RequestError::ClientOrderId("order 1".to_string()))
    );
    assert_eq!(id("abc").as_str(), "abc");
}

#[test]
fn market_orders_are_ioc_and_carry_no_price() {
    let order = OrderItem::market(id("m1"), OrderSide::Sell, "1.5");

    assert_eq!(order.time_in_force, TimeInForce::Ioc);
    assert!(order.price.is_none());
    order.validate().unwrap();
}

#[test]
fn limit_order_rejects_unsupported_time_in_force() {
    let err = OrderItem::limit(id("l1"), OrderSide::Buy, TimeInForce::Fok, "100", "1")
        .unwrap_err();

    assert_eq!(err, RequestError::Unsupported("FOK time in force"));
}

#[test]
fn a_limit_order_carries_price_and_quantity() {
    let order = OrderItem::limit(id("l2"), OrderSide::Sell, TimeInForce::Gtx, "100.5", "2").unwrap();
    assert_eq!(order.price.as_deref(), Some("100.5"));
    assert_eq!(order.quantity.as_deref(), Some("2"));
    assert_eq!(order.position_side, PositionSide::Both);
    assert!(!order.reduce_only);
    let mut json = String::new();
    order.write_json(&mut json);
    assert_eq!(
        json,
        r#"{"clOrdID":"l2","modifier":1,"side":2,"type":1,"timeInForce":4,"price":"100.5","quantity":"2","reduceOnly":false,"positionSide":1}"#
    );
}

#[test]
fn funds_is_refused_outside_market_buy() {
    let mut sell = OrderItem::market(id("f1"), OrderSide::Sell, "1");
    sell.quantity = None;
    sell.funds = Some("100".to_string());

    assert_eq!(sell.validate(), Err(RequestError::FundsOnMarketBuyOnly));

    OrderItem::market_buy_with_funds(id("f2"), "100")
        .validate()
        .unwrap();
}

#[test]
fn market_order_with_non_ioc_tif_is_refused() {
    let mut order = OrderItem::market(id("m2"), OrderSide::Buy, "1");
    order.time_in_force = TimeInForce::Gtc;

    assert_eq!(
        order.validate(),
        Err(RequestError::MarketTimeInForce(TimeInForce::Gtc))
    );
}

#[test]
fn hedge_mode_position_side_is_refused() {
    let mut order = OrderItem::market(id("h1"), OrderSide::Buy, "1");
    order.position_side = PositionSide::Long;

    assert_eq!(
        order.validate(),
        Err(RequestError::Unsupported("hedge-mode position side"))
    );
}

#[test]
fn unsupported_trigger_types_are_refused() {
    let mut order = OrderItem::market(id("t1"), OrderSide::Buy, "1");
    order.trigger_type = Some(TriggerType::LastPrice);

    assert_eq!(
        order.validate(),
        Err(RequestError::Unsupported("last/index price trigger"))
    );

    order.trigger_type = Some(TriggerType::MarkPrice);
    order.validate().unwrap();
}

#[test]
fn the_first_violated_rule_is_reported() {
    let mut order = OrderItem::market(id("v1"), OrderSide::Sell, "1");
    order.time_in_force = TimeInForce::Fok;
    order.position_side = PositionSide::Short;
    assert_eq!(order.validate(), Err(RequestError::Unsupported("FOK time in force")));
}

#[test]
fn requests_batch_bounds_are_enforced() {
    assert_eq!(
        NewOrderRequest::new(1, 1, vec![]).unwrap_err(),
        RequestError::BatchSize(0)
    );

    let too_many: Vec<OrderItem> = (0..=MAX_BATCH)
        .map(|i| OrderItem::market(id(&format!("o{i}")), OrderSide::Buy, "1"))
        .collect();
    assert_eq!(
        NewOrderRequest::new(1, 1, too_many).unwrap_err(),
        RequestError::BatchSize(MAX_BATCH + 1)
    );

    let exactly_max: Vec<OrderItem> = (0..MAX_BATCH)
        .map(|i| OrderItem::market(id(&format!("o{i}")), OrderSide::Buy, "1"))
        .collect();
    assert!(NewOrderRequest::new(1, 1, exactly_max).is_ok());
}

#[test]
fn a_batch_with_an_invalid_order_is_refused_with_that_order_error() {
    let mut bad = OrderItem::market(id("x2"), OrderSide::Buy, "1");
    bad.position_side = PositionSide::Long;
    let result = NewOrderRequest::new(
        1,
        1,
        vec![OrderItem::market(id("x1"), OrderSide::Buy, "1"), bad],
    );
    assert_eq!(result, Err(RequestError::Unsupported("hedge-mode position side")));
}

#[test]
fn client_order_ids_come_back_in_submission_order() {
    let request = NewOrderRequest::new(
        1,
        1,
        vec![
            OrderItem::market(id("first"), OrderSide::Buy, "1"),
            OrderItem::market(id("second"), OrderSide::Sell, "2"),
        ],
    )
    .unwrap();

    assert_eq!(request.client_order_ids(), vec!["first", "second"]);
}

#[test]
fn cancel_must_name_the_order_exactly_one_way() {
    CancelItem::by_order_id(1, 99).validate().unwrap();
    CancelItem::by_client_order_id(1, id("c1")).validate().unwrap();

    let both = CancelItem {
        symbol_id: 1,
        order_id: Some(99),
        cl_ord_id: Some(id("c1")),
    };
    assert_eq!(both.validate(), Err(RequestError::CancelIdentification));

    let neither = CancelItem {
        symbol_id: 1,
        order_id: None,
        cl_ord_id: None,
    };
    assert_eq!(neither.validate(), Err(RequestError::CancelIdentification));
}

#[test]
fn cancel_request_omits_the_unused_identifier() {
    let request = CancelOrderRequest::new(7, vec![CancelItem::by_order_id(1, 99)]).unwrap();
    let json = request.to_json();

    assert_eq!(
        json,
        r#"{"accountID":7,"cancels":[{"symbolID":1,"orderID":99}]}"#
    );
    assert!(!json.contains("clOrdID"));
    let by_client = CancelOrderRequest::new(7, vec![CancelItem::by_client_order_id(2, id("c9"))])
        .unwrap();
    assert_eq!(
        by_client.to_json(),
        r#"{"accountID":7,"cancels":[{"symbolID":2,"clOrdID":"c9"}]}"#
    );
    assert_eq!(
        CancelOrderRequest::new(7, vec![]).unwrap_err(),
        RequestError::BatchSize(0)
    );
}

#[test]
fn builder_is_omitted_unless_attached() {
    let plain =
        NewOrderRequest::new(1, 1, vec![OrderItem::market(id("b1"), OrderSide::Buy, "1")])
            .unwrap();
    assert!(!plain.to_json().contains("builder"));

    let with_builder = plain.with_builder(BuilderParams { id: 1234, fee: 10 });
    let json = with_builder.to_json();
    assert!(json.contains(r#""builder":{"id":1234,"fee":10}"#), "{json}");
}

#[test]
fn reduce_only_and_price_bound_compose_onto_a_market_order() {
    let order = OrderItem::market(id("r1"), OrderSide::Sell, "1")
        .reduce_only()
        .with_price_bound("90000");

    assert!(order.reduce_only);
    assert_eq!(order.price.as_deref(), Some("90000"));
    order.validate().unwrap();
}

#[test]
fn order_item_carries_its_own_symbol() {
    let request = SpotNewOrderRequest::new(
        60366,
        vec![
            SpotOrderItem::limit(1, id("a"), OrderSide::Buy, TimeInForce::Gtc, "40000", "0.001")
                .unwrap(),
        ],
    )
    .unwrap();

    assert_eq!(
        request.to_json(),
        r#"{"accountID":60366,"orders":[{"symbolID":1,"clOrdID":"a","side":1,"type":1,"timeInForce":1,"price":"40000","quantity":"0.001"}]}"#
    );
}

#[test]
fn a_spot_batch_may_span_symbols() {
    let request = SpotNewOrderRequest::new(
        60366,
        vec![
            SpotOrderItem::market(1, id("btc"), OrderSide::Buy, "0.001"),
            SpotOrderItem::market(2, id("eth"), OrderSide::Sell, "0.5"),
        ],
    )
    .unwrap();

    let json = request.to_json();
    assert!(json.contains(r#""symbolID":1"#));
    assert!(json.contains(r#""symbolID":2"#));
    assert_eq!(request.client_order_ids(), vec!["btc", "eth"]);
}

#[test]
fn cancel_distinguishes_its_own_id_from_the_target() {
    let cancel = SpotCancelItem::by_client_order_id(1, id("cancel-1"), id("order-7"));
    cancel.validate().unwrap();

    assert_eq!(
        cancel.to_json(),
        r#"{"symbolID":1,"clOrdID":"cancel-1","origClOrdID":"order-7"}"#
    );
}

#[test]
fn cancel_by_order_id_omits_the_original_client_id() {
    let cancel = SpotCancelItem::by_order_id(1, id("cancel-1"), 987);
    let json = cancel.to_json();

    assert_eq!(json, r#"{"symbolID":1,"clOrdID":"cancel-1","orderID":987}"#);
    assert!(!json.contains("origClOrdID"));
}

#[test]
fn cancel_must_name_exactly_one_target() {
    let both = SpotCancelItem {
        symbol_id: 1,
        cl_ord_id: id("c"),
        order_id: Some(1),
        orig_cl_ord_id: Some(id("o")),
    };
    assert_eq!(both.validate(), Err(RequestError::CancelIdentification));

    let neither = SpotCancelItem {
        symbol_id: 1,
        cl_ord_id: id("c"),
        order_id: None,
        orig_cl_ord_id: None,
    };
    assert_eq!(neither.validate(), Err(RequestError::CancelIdentification));
}

#[test]
fn spot_cancel_batches_wrap_their_items() {
    let request =
        SpotCancelOrderRequest::new(5, vec![SpotCancelItem::by_order_id(3, id("k"), 11)]).unwrap();
    assert_eq!(
        request.to_json(),
        r#"{"accountID":5,"cancels":[{"symbolID":3,"clOrdID":"k","orderID":11}]}"#
    );
    assert_eq!(
        SpotCancelOrderRequest::new(5, vec![]).unwrap_err(),
        RequestError::BatchSize(0)
    );
}

#[test]
fn spot_items_have_no_position_fields() {
    let json = SpotOrderItem::market(1, id("m"), OrderSide::Buy, "0.001").to_json();

    assert!(!json.contains("reduceOnly"));
    assert!(!json.contains("positionSide"));
    assert!(!json.contains("modifier"));
}

#[test]
fn market_orders_are_ioc() {
    let order = SpotOrderItem::market(1, id("m"), OrderSide::Buy, "0.001");

    assert_eq!(order.time_in_force, TimeInForce::Ioc);
    order.validate().unwrap();
}

#[test]
fn spot_batch_bounds_are_enforced() {
    assert_eq!(
        SpotNewOrderRequest::new(1, vec![]).unwrap_err(),
        RequestError::BatchSize(0)
    );
}

#[test]
fn spot_batches_target_the_batch_path_not_the_single_order_one() {
    assert_eq!(SpotNewOrderRequest::ENDPOINT, "/trade/orders/batch");
    assert_eq!(SpotCancelOrderRequest::ENDPOINT, "/trade/orders/batch");

    assert_eq!(NewOrderRequest::ENDPOINT, "/trade/orders");
    assert_eq!(CancelOrderRequest::ENDPOINT, "/trade/orders");
    assert_ne!(SpotNewOrderRequest::ENDPOINT, NewOrderRequest::ENDPOINT);
}
