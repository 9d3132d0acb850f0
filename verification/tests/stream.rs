use sodex::common::Market;
use sodex::http::Network;
use sodex::json::ToJson;
use sodex::websocket::client::{
    classify_frame, FrameKind, Pending, Rejection, SodexWebSocketClient, State, Subscription,
    WsError,
};
use sodex::websocket::messages::{
    Candle, CandleParams, Heartbeat, Op, SymbolsParams, WsAck, WsRequest,
    FAILURE_WITHOUT_MESSAGE,
};
use sodex::websocket::{
    probe_interval_is_sound, stream_url, Keepalive, KeepaliveAction, DEFAULT_IDLE_PROBE_MS,
    DEFAULT_IDLE_PROBE_SECS, SERVER_IDLE_DISCONNECT_MS, SERVER_IDLE_DISCONNECT_SECS,
};

const PROBE: u64 = 20_000;

fn tracker() -> Keepalive {
    Keepalive::with_probe_interval(0, PROBE)
}

fn candles() -> Subscription {
    Subscription::candles("BTC-USD", "1m")
}

fn candle() -> Candle {
    Candle {
        open_time_ms: 1_767_972_900_000,
        update_time_ms: 1_767_972_938_724,
        symbol: "BTC-USD".to_string(),
        interval: "1m".to_string(),
        open: "91869".to_string(),
        high: "91982".to_string(),
        low: "91869".to_string(),
        close: "91976".to_string(),
        volume: "4.12298".to_string(),
        quote_volume: "379148.6798".to_string(),
        trade_count: 0,
        closed: false,
    }
}

fn ack(success: bool, error: Option<&str>) -> WsAck<CandleParams> {
    WsAck {
        op: Op::Subscribe,
        id: Some(1),
        result: if success { Some(CandleParams::new("BTC-USD", "1m")) } else { None },
        success,
        conn_id: Some("0xb0922dfe2b14dadb1195ea4db2b45508".to_string()),
        error: error.map(|e| e.to_string()),
        time_in: Some(1),
        time_out: Some(2),
    }
}

#[test]
fn stays_idle_while_traffic_is_recent() {
    let keepalive = tracker();

    assert_eq!(keepalive.poll(PROBE - 1), KeepaliveAction::Idle);
}

#[test]
fn pings_once_silence_reaches_the_probe_interval() {
    let keepalive = tracker();

    assert_eq!(keepalive.poll(PROBE), KeepaliveAction::SendPing);
}

#[test]
fn any_inbound_frame_resets_the_timer() {
    let mut keepalive = tracker();
    assert_eq!(keepalive.poll(PROBE), KeepaliveAction::SendPing);

    keepalive.on_inbound(PROBE);

    assert_eq!(keepalive.poll(PROBE + PROBE - 1), KeepaliveAction::Idle);
}

#[test]
fn waits_quietly_while_a_pong_is_outstanding() {
    let mut keepalive = tracker();
    keepalive.on_ping_sent(PROBE);

    assert_eq!(keepalive.poll(PROBE + PROBE - 1), KeepaliveAction::Idle);
}

#[test]
fn reconnects_when_the_pong_never_arrives() {
    let mut keepalive = tracker();
    keepalive.on_ping_sent(PROBE);

    assert_eq!(keepalive.poll(PROBE * 2), KeepaliveAction::Reconnect);
}

#[test]
fn a_pong_clears_the_deadline() {
    let mut keepalive = tracker();
    keepalive.on_ping_sent(PROBE);
    keepalive.on_inbound(PROBE + 100);

    assert_eq!(keepalive.poll(PROBE * 2), KeepaliveAction::Idle);
}

#[test]
fn full_detection_cycle_completes_before_the_venue_hangs_up() {
    let mut keepalive = tracker();

    assert_eq!(keepalive.poll(PROBE), KeepaliveAction::SendPing);
    keepalive.on_ping_sent(PROBE);
    assert_eq!(keepalive.poll(PROBE * 2), KeepaliveAction::Reconnect);

    assert!(PROBE * 2 < SERVER_IDLE_DISCONNECT_MS);
}

#[test]
fn the_default_probe_is_the_documented_one() {
    let keepalive = Keepalive::new(5);
    assert_eq!(keepalive.poll(5 + DEFAULT_IDLE_PROBE_MS - 1), KeepaliveAction::Idle);
    assert_eq!(keepalive.poll(5 + DEFAULT_IDLE_PROBE_MS), KeepaliveAction::SendPing);
}

#[test]
fn a_probe_interval_that_cannot_detect_failure_in_time_is_refused() {
    assert!(!probe_interval_is_sound(30));
    assert!(!probe_interval_is_sound(0));
}

#[test]
fn the_dead_link_verdict_lands_before_the_venue_hangs_up() {
    assert!(probe_interval_is_sound(DEFAULT_IDLE_PROBE_SECS));
    assert!(probe_interval_is_sound(29));
    assert!(DEFAULT_IDLE_PROBE_SECS * 2 < SERVER_IDLE_DISCONNECT_SECS);
}

#[test]
fn stream_urls_pair_network_with_market() {
    assert_eq!(
        stream_url(Network::Testnet, Market::Perps),
        "wss://testnet-gw.sodex.dev/ws/perps"
    );
    assert_eq!(
        stream_url(Network::Mainnet, Market::Spot),
        "wss://mainnet-gw.sodex.dev/ws/spot"
    );
}

#[test]
fn forming_bar_is_not_final() {
    assert!(!candle().is_final());
}

#[test]
fn closed_bar_is_final() {
    let mut c = candle();
    c.closed = true;
    assert!(c.is_final());
}

#[test]
fn subscribe_request_serializes_to_the_documented_shape() {
    let request = WsRequest {
        op: Op::Subscribe,
        id: None,
        params: CandleParams::new("BTC-USD", "1m"),
    };

    assert_eq!(
        request.to_json(),
        r#"{"op":"subscribe","params":{"channel":"candle","symbol":"BTC-USD","interval":"1m"}}"#
    );
}

#[test]
fn request_id_is_omitted_when_absent_and_present_when_set() {
    let without = WsRequest {
        op: Op::Unsubscribe,
        id: None,
        params: CandleParams::new("BTC-USD", "1m"),
    }
    .to_json();
    assert!(!without.contains("\"id\""));

    let with = WsRequest {
        op: Op::Unsubscribe,
        id: Some(7),
        params: CandleParams::new("BTC-USD", "1m"),
    }
    .to_json();
    assert!(with.contains(r#""id":7"#));
}

#[test]
fn unsubscribe_params_match_subscribe_params_exactly() {
    let subscribe = CandleParams::new("BTC-USD", "1m");
    let unsubscribe = CandleParams::new("BTC-USD", "1m");

    assert!(subscribe.same_as(&unsubscribe));
    let mut a = String::new();
    subscribe.write_json(&mut a);
    let mut b = String::new();
    unsubscribe.write_json(&mut b);
    assert_eq!(a, b);
}

#[test]
fn symbol_selectors_carry_a_list() {
    let trade = SymbolsParams::trade("BTC-USD");
    let mut json = String::new();
    trade.write_json(&mut json);
    assert_eq!(json, r#"{"channel":"trade","symbols":["BTC-USD"]}"#);
    assert_eq!(trade.sole_symbol(), Some("BTC-USD"));
    let two = SymbolsParams::new("ticker", vec!["A".to_string(), "B".to_string()]);
    assert_eq!(two.sole_symbol(), None);
    assert_eq!(SymbolsParams::ticker("X").channel, "ticker");
}

#[test]
fn successful_ack_yields_the_echoed_selector() {
    let ack = ack(true, None);

    assert_eq!(ack.conn_id.as_deref(), Some("0xb0922dfe2b14dadb1195ea4db2b45508"));
    assert_eq!(
        ack.into_result().unwrap(),
        Some(CandleParams::new("BTC-USD", "1m"))
    );
}

#[test]
fn failed_ack_surfaces_the_error_text() {
    assert_eq!(ack(false, Some("unknown symbol")).into_result().unwrap_err(), "unknown symbol");
}

#[test]
fn failure_without_message_still_reports_an_error() {
    assert_eq!(ack(false, None).into_result().unwrap_err(), FAILURE_WITHOUT_MESSAGE);
}

#[test]
fn ping_frame_carries_no_params() {
    assert_eq!(Heartbeat::ping().to_json(), r#"{"op":"ping"}"#);
    assert_eq!(Op::from_name("pong"), Some(Op::Pong));
    assert_eq!(Op::Unsubscribe.as_str(), "unsubscribe");
    assert_eq!(Op::from_name("auth"), None);
}

#[test]
fn wanting_the_same_selector_twice_sends_only_once() {
    let mut state = State::default();

    assert!(state.want(&candles()));
    assert!(!state.want(&candles()));
    assert_eq!(state.desired, vec![candles()]);
}

#[test]
fn unwanting_an_absent_selector_reports_nothing_to_do() {
    let mut state = State::default();

    assert!(!state.unwant(&candles()));

    state.want(&candles());
    assert!(state.unwant(&candles()));
    assert!(state.desired.is_empty());
}

#[test]
fn request_ids_are_never_reused() {
    let mut state = State::default();

    let first = state.take_id();
    let second = state.take_id();

    assert_ne!(first, second);
}

#[test]
fn a_recorded_request_carries_its_id_in_the_frame() {
    let mut state = State::default();
    let (id, frame) = state.record_request(Op::Subscribe, candles());
    assert_eq!(id, 1);
    assert_eq!(
        frame,
        r#"{"op":"subscribe","id":1,"params":{"channel":"candle","symbol":"BTC-USD","interval":"1m"}}"#
    );
    assert!(state.pending.contains_key(&1));
    state.forget_request(1);
    assert!(state.pending.is_empty());
}

#[test]
fn the_reconnect_sentinel_is_recognised_before_any_parsing() {
    assert_eq!(classify_frame(true, Some("pong"), None), FrameKind::Reconnected);
}

#[test]
fn keepalive_replies_are_classified_as_heartbeats() {
    assert_eq!(classify_frame(false, Some("pong"), None), FrameKind::Heartbeat);
    assert_eq!(classify_frame(false, Some("ping"), None), FrameKind::Heartbeat);
}

#[test]
fn a_candle_push_is_classified_as_an_update() {
    assert_eq!(classify_frame(false, None, Some("candle")), FrameKind::Candle);
    assert_eq!(classify_frame(false, None, Some("trade")), FrameKind::Trades);
    assert_eq!(classify_frame(false, None, Some("ticker")), FrameKind::Tickers);
}

#[test]
fn an_acknowledgement_is_told_apart_from_a_push_by_its_op_field() {
    assert_eq!(classify_frame(false, Some("subscribe"), None), FrameKind::Ack);
    assert_eq!(classify_frame(false, Some("unsubscribe"), Some("candle")), FrameKind::Ack);
}

#[test]
fn an_unknown_channel_or_op_is_ignored_rather_than_failing_the_stream() {
    assert_eq!(classify_frame(false, None, Some("trades")), FrameKind::Unrecognized);
    assert_eq!(classify_frame(false, Some("auth"), None), FrameKind::Unrecognized);
}

#[test]
fn a_rejection_names_the_selector_that_was_refused() {
    let mut state = State::default();
    state.pending.insert(9, Pending { op: Op::Subscribe, subscription: candles() });

    let event = state.resolve_ack(Some(9), Err("unknown symbol".to_string())).unwrap();

    assert_eq!(
        event,
        Rejection {
            op: Op::Subscribe,
            subscription: Some(candles()),
            reason: "unknown symbol".to_string(),
        }
    );
    assert!(state.pending.is_empty());
}

#[test]
fn a_successful_acknowledgement_produces_no_event() {
    let mut state = State::default();
    state.pending.insert(1, Pending { op: Op::Subscribe, subscription: candles() });

    assert!(state.resolve_ack(Some(1), Ok(())).is_none());
    assert!(state.pending.is_empty());
}

#[test]
fn a_rejection_with_no_id_still_surfaces() {
    let mut state = State::default();

    let event = state.resolve_ack(None, Err("rate limited".to_string())).unwrap();

    assert!(matches!(event, Rejection { subscription: None, .. }));
}

#[test]
fn a_replay_resubscribes_everything_wanted_under_fresh_ids() {
    let mut state = State::default();
    state.want(&candles());
    state.want(&Subscription::trades("ETH-USD"));
    let stale = state.take_id();
    state.pending.insert(stale, Pending { op: Op::Unsubscribe, subscription: candles() });

    let frames = state.replay();

    assert_eq!(frames.len(), 2);
    assert_eq!(frames[0].0, 2);
    assert_eq!(frames[1].0, 3);
    assert!(frames[1].1.contains(r#""symbols":["ETH-USD"]"#), "{}", frames[1].1);
    assert!(!state.pending.contains_key(&stale));
    assert_eq!(state.pending.len(), 2);
}

#[test]
fn the_keepalive_is_a_text_frame_not_a_control_ping() {
    let client = SodexWebSocketClient::new(Network::Testnet, Market::Perps);
    assert_eq!(client.heartbeat_payload(), r#"{"op":"ping"}"#);
    assert_eq!(client.url(), "wss://testnet-gw.sodex.dev/ws/perps");
}

#[test]
fn the_transport_verdict_lands_before_the_venue_hangs_up() {
    let client = SodexWebSocketClient::new(Network::Testnet, Market::Perps);
    let probe = client.heartbeat_interval_secs();
    let verdict = client.heartbeat_timeout_secs();
    assert_eq!(verdict, probe * 2);
    assert!(verdict < SERVER_IDLE_DISCONNECT_SECS);
}

#[test]
fn a_client_refuses_a_probe_interval_too_long_to_detect_failure() {
    let error = SodexWebSocketClient::new(Network::Testnet, Market::Perps)
        .with_probe_interval_secs(30)
        .unwrap_err();
    assert_eq!(error, WsError::ProbeIntervalTooLong(30));
    assert!(error.message().starts_with("probe interval of 30s leaves no room"));
}

#[test]
fn a_sound_probe_interval_reaches_the_transport_configuration() {
    let client = SodexWebSocketClient::new(Network::Testnet, Market::Perps)
        .with_probe_interval_secs(5)
        .unwrap();
    assert_eq!(client.heartbeat_interval_secs(), 5);
    assert_eq!(client.heartbeat_timeout_secs(), 10);
}

#[test]
fn a_client_subscribes_once_and_replays_after_reconnect() {
    let mut client = SodexWebSocketClient::new(Network::Mainnet, Market::Spot);
    let (id, frame) = client.subscribe(candles()).unwrap();
    assert_eq!(id, 1);
    assert!(frame.starts_with(r#"{"op":"subscribe","id":1,"#), "{frame}");
    assert!(client.subscribe(candles()).is_none());
    assert_eq!(client.subscriptions(), vec![candles()]);

    let rejection = client.acknowledged(Some(1), Err("unknown symbol".to_string())).unwrap();
    assert_eq!(rejection.subscription, Some(candles()));

    let frames = client.reconnected();
    assert_eq!(frames.len(), 1);
    assert_eq!(frames[0].0, 2);

    let (unsub_id, unsub) = client.unsubscribe(&candles()).unwrap();
    assert_eq!(unsub_id, 3);
    assert!(unsub.starts_with(r#"{"op":"unsubscribe","id":3,"#), "{unsub}");
    assert!(client.unsubscribe(&candles()).is_none());
    assert!(client.subscriptions().is_empty());
    client.send_failed(3);
    assert!(client.acknowledged(Some(3), Ok(())).is_none());
}

#[test]
fn a_reconnect_resends_each_wanted_feed_under_a_fresh_id() {
    let mut client = SodexWebSocketClient::new(Network::Mainnet, Market::Spot);
    client.subscribe(candles()).unwrap();
    client.subscribe(Subscription::trades("ETH-USD")).unwrap();
    let frames = client.reconnected();
    assert_eq!(
        frames,
        vec![
            (
                3,
                r#"{"op":"subscribe","id":3,"params":{"channel":"candle","symbol":"BTC-USD","interval":"1m"}}"#
                    .to_string()
            ),
            (
                4,
                r#"{"op":"subscribe","id":4,"params":{"channel":"trade","symbols":["ETH-USD"]}}"#
                    .to_string()
            ),
        ]
    );
}

#[test]
fn unsubscribing_one_feed_keeps_the_others_for_the_next_replay() {
    let mut client = SodexWebSocketClient::new(Network::Mainnet, Market::Spot);
    client.subscribe(candles()).unwrap();
    client.subscribe(Subscription::trades("ETH-USD")).unwrap();
    client.subscribe(Subscription::ticker("SOL-USD")).unwrap();
    client.unsubscribe(&Subscription::trades("ETH-USD")).unwrap();
    assert_eq!(
        client.subscriptions(),
        vec![candles(), Subscription::ticker("SOL-USD")]
    );
    let frames = client.reconnected();
    assert_eq!(frames.len(), 2);
    assert!(frames[1].1.contains(r#""channel":"ticker""#), "{}", frames[1].1);
}
