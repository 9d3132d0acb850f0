use sodex::common::credential::{ApiKeyName, ApiPrivateKey, MasterPrivateKey};
use sodex::common::enums::{DisabledPermissions, OrderSide};
use sodex::common::{Market, CHAIN_ID_MAINNET, CHAIN_ID_TESTNET};
use sodex::http::account::{
    generate_api_key, AccountClient, HEADER_API_CHAIN, NO_EXPIRY, PERMISSIONS_REFUSED,
};
use sodex::http::client::{
    encode_prefixed, ClientError, HttpMethod, SodexHttpClient, HEADER_API_KEY, HEADER_API_NONCE,
    HEADER_API_SIGN,
};
use sodex::http::requests::{ClientOrderId, NewOrderRequest, OrderItem};
use sodex::http::Network;
use sodex::signing::eip712::{compute_domain_separator, keccak_str, payload_hash, signing_envelope};
use sodex::signing::nonce::{is_within_window, NonceGenerator, WINDOW_AHEAD_MS, WINDOW_BEHIND_MS};
use sodex::signing::signers::ExchangeSigner;
use sodex::signing::universal::UniversalSigner;

fn now_ms() -> u64 {
    std::time::SystemTime::now()
        .duration_since(std::time::UNIX_EPOCH)
        .unwrap()
        .as_millis() as u64
}

fn doc_example_params() -> NewOrderRequest {
    let cl_ord_id = ClientOrderId::parse("my-order-1").expect("valid id");
    NewOrderRequest::new(
        12345,
        1,
        vec![OrderItem::market(cl_ord_id, OrderSide::Buy, "0.001")],
    )
    .expect("valid batch")
}

fn trading_client() -> SodexHttpClient {
    let key = ApiPrivateKey::parse(&"2".repeat(64)).unwrap();
    let name = ApiKeyName::parse("api-key-01").unwrap();
    SodexHttpClient::with_credentials(Network::Testnet, Market::Perps, name, &key).unwrap()
}

fn account_client() -> AccountClient {
    let key = MasterPrivateKey::parse(&"3".repeat(64)).unwrap();
    AccountClient::new(Network::Testnet, Market::Perps, &key).unwrap()
}

fn name() -> ApiKeyName {
    ApiKeyName::parse("api-key-01").unwrap()
}

fn zero_address() -> Vec<u8> {
    vec![0u8; 20]
}

fn universal(api_chain: u64) -> UniversalSigner {
    let key = MasterPrivateKey::parse(&"3".repeat(64)).unwrap();
    UniversalSigner::new(&key, api_chain).unwrap()
}

fn registered_key() -> Vec<u8> {
    vec![
        0x3d, 0x45, 0x95, 0xc8, 0x74, 0x2d, 0x0a, 0x58, 0x17, 0x3a, 0x99, 0x63, 0xc0, 0x57, 0x55,
        0xb5, 0x9a, 0x8f, 0x82, 0x56,
    ]
}

fn sign_with(signer: &UniversalSigner, network_chain_id: u64) -> Vec<u8> {
    signer
        .sign_add_api_key(
            network_chain_id,
            1_760_373_925_000,
            1010,
            "api-key-01",
            1,
            &registered_key(),
            0,
        )
        .unwrap()
}

fn body(request: &sodex::http::client::SignedRequest) -> String {
    request.body_str()
}

#[test]
fn successive_nonces_strictly_increase_within_one_millisecond() {
    let future = now_ms() + 60_000;
    let mut nonces = NonceGenerator::starting_at(future);

    let drawn: Vec<u64> = (0..1000).map(|_| nonces.next()).collect();

    for pair in drawn.windows(2) {
        assert!(pair[1] > pair[0], "nonces must strictly increase: {pair:?}");
    }
}

#[test]
fn nonce_fast_forwards_to_wall_clock_after_idling() {
    let stale = now_ms() - WINDOW_BEHIND_MS * 2;
    let mut nonces = NonceGenerator::starting_at(stale);

    let issued = nonces.next();

    assert!(
        is_within_window(issued, now_ms()),
        "issued {issued} fell outside the window"
    );
}

#[test]
fn nonce_steps_by_one_inside_a_millisecond_and_jumps_to_the_clock() {
    let mut nonces = NonceGenerator::starting_at(100);
    assert_eq!(nonces.next_at(50), 101);
    assert_eq!(nonces.next_at(101), 102);
    assert_eq!(nonces.next_at(500), 500);
    assert_eq!(nonces.last_issued(), 500);
    let mut saturated = NonceGenerator::starting_at(u64::MAX);
    assert_eq!(saturated.next_at(0), u64::MAX);
}

#[test]
fn window_bounds_are_exclusive() {
    let t = 1_760_373_925_000_u64;

    assert!(!is_within_window(t - WINDOW_BEHIND_MS, t), "lower bound");
    assert!(!is_within_window(t + WINDOW_AHEAD_MS, t), "upper bound");
    assert!(is_within_window(t - WINDOW_BEHIND_MS + 1, t));
    assert!(is_within_window(t + WINDOW_AHEAD_MS - 1, t));
    assert!(is_within_window(t, t));
}

#[test]
fn window_rejects_values_outside_the_bounds() {
    let t = 1_760_373_925_000_u64;

    assert!(!is_within_window(t - WINDOW_BEHIND_MS - 1, t), "too old");
    assert!(!is_within_window(t + WINDOW_AHEAD_MS + 1, t), "too far ahead");
}

#[test]
fn the_window_saturates_at_the_ends_of_the_range() {
    assert!(is_within_window(1, 0));
    assert!(!is_within_window(0, 0));
    assert!(is_within_window(u64::MAX - 1, u64::MAX));
    assert!(!is_within_window(u64::MAX, u64::MAX));
}

#[test]
fn signing_payload_matches_venue_example_byte_for_byte() {
    let expected = r#"{"type":"newOrder","params":{"accountID":12345,"symbolID":1,"orders":[{"clOrdID":"my-order-1","modifier":1,"side":1,"type":2,"timeInForce":3,"quantity":"0.001","reduceOnly":false,"positionSide":1}]}}"#;

    let actual = signing_envelope("newOrder", &doc_example_params().to_json());

    assert_eq!(actual, expected);
}

#[test]
fn keccak_of_known_inputs() {
    assert_eq!(
        encode_prefixed(&keccak_str("")),
        "0xc5d2460186f7233c927e7db2dcc703c0e500b653ca82273b7bfad8045d85a470"
    );
    assert_eq!(
        encode_prefixed(&keccak_str("abc")),
        "0x4e03657aea45a94fc7d47ba826c8d667c0d1e6e33a64a036ec44f58fa12d6c45"
    );
    assert_eq!(payload_hash("newOrder", "{}").len(), 32);
    assert_eq!(
        payload_hash("newOrder", "{}"),
        keccak_str(r#"{"type":"newOrder","params":{}}"#)
    );
}

#[test]
fn signature_carries_exchange_prefix_and_is_66_bytes() {
    let key = ApiPrivateKey::parse(&"2".repeat(64)).unwrap();
    let signer = ExchangeSigner::new(&key, Market::Perps, CHAIN_ID_TESTNET).unwrap();

    let hash = payload_hash("newOrder", &doc_example_params().to_json());
    let sig = signer.sign_action(&hash, 1_760_373_925_001).unwrap();

    assert_eq!(sig.len(), 66, "1 prefix byte + 65 signature bytes");
    assert_eq!(sig[0], 0x01);
}

#[test]
fn market_selects_a_distinct_domain() {
    let key = ApiPrivateKey::parse(&"2".repeat(64)).unwrap();
    let hash = payload_hash("newOrder", &doc_example_params().to_json());
    let nonce = 1_760_373_925_001;

    let spot = ExchangeSigner::new(&key, Market::Spot, CHAIN_ID_TESTNET)
        .unwrap()
        .sign_action(&hash, nonce)
        .unwrap();
    let perps = ExchangeSigner::new(&key, Market::Perps, CHAIN_ID_TESTNET)
        .unwrap()
        .sign_action(&hash, nonce)
        .unwrap();

    assert_ne!(spot, perps);
}

#[test]
fn chain_id_selects_a_distinct_domain() {
    let key = ApiPrivateKey::parse(&"2".repeat(64)).unwrap();
    let hash = payload_hash("newOrder", &doc_example_params().to_json());
    let nonce = 1_760_373_925_001;

    let mainnet = ExchangeSigner::new(&key, Market::Perps, CHAIN_ID_MAINNET)
        .unwrap()
        .sign_action(&hash, nonce)
        .unwrap();
    let testnet = ExchangeSigner::new(&key, Market::Perps, CHAIN_ID_TESTNET)
        .unwrap()
        .sign_action(&hash, nonce)
        .unwrap();

    assert_ne!(mainnet, testnet);
}

#[test]
fn signing_is_deterministic_for_one_key_and_input() {
    let key = ApiPrivateKey::parse(&"2".repeat(64)).unwrap();
    let signer = ExchangeSigner::new(&key, Market::Spot, CHAIN_ID_TESTNET).unwrap();
    let hash = payload_hash("newOrder", "{}");
    assert_eq!(signer.sign_action(&hash, 7).unwrap(), signer.sign_action(&hash, 7).unwrap());
    assert_ne!(signer.sign_action(&hash, 7).unwrap(), signer.sign_action(&hash, 8).unwrap());
    assert_eq!(signer.address().len(), 20);
}

#[test]
fn a_zero_key_is_not_a_signing_key() {
    let key = ApiPrivateKey::parse(&"0".repeat(64)).unwrap();
    assert!(ExchangeSigner::new(&key, Market::Spot, CHAIN_ID_TESTNET).is_err());
}

#[test]
fn signature_carries_the_universal_prefix() {
    let signature = sign_with(&universal(CHAIN_ID_TESTNET), CHAIN_ID_TESTNET);

    assert_eq!(signature[0], 0x02);
    assert_eq!(signature.len(), 66);
}

#[test]
fn domain_chain_id_is_reported_for_the_header() {
    assert_eq!(universal(42).api_chain(), 42);
}

#[test]
fn domain_chain_id_and_network_chain_id_are_independent() {
    let base = universal(42);
    let other_domain = universal(43);

    let a = sign_with(&base, CHAIN_ID_TESTNET);
    let b = sign_with(&other_domain, CHAIN_ID_TESTNET);
    assert_ne!(a, b, "domain chain id must affect the signature");

    let c = sign_with(&base, CHAIN_ID_MAINNET);
    assert_ne!(a, c, "message chain id must affect the signature");
}

#[test]
fn for_network_mirrors_the_network_chain_id_into_the_domain() {
    let key = MasterPrivateKey::parse(&"3".repeat(64)).unwrap();
    let signer = UniversalSigner::for_network(&key, CHAIN_ID_TESTNET).unwrap();

    assert_eq!(signer.api_chain(), CHAIN_ID_TESTNET);
}

#[test]
fn permissioned_and_plain_actions_are_different_structs() {
    let signer = universal(CHAIN_ID_TESTNET);

    let plain = sign_with(&signer, CHAIN_ID_TESTNET);
    let permissioned = signer
        .sign_add_permissioned_api_key(
            CHAIN_ID_TESTNET,
            1_760_373_925_000,
            1010,
            "api-key-01",
            1,
            &registered_key(),
            0,
            DisabledPermissions::cancel_only().as_mask(),
        )
        .unwrap();

    assert_ne!(plain, permissioned);
    assert_eq!(permissioned[0], 0x02);
}

#[test]
fn permission_mask_changes_the_signature() {
    let signer = universal(CHAIN_ID_TESTNET);

    let sign_mask = |mask: u64| {
        signer
            .sign_add_permissioned_api_key(
                CHAIN_ID_TESTNET,
                1_760_373_925_000,
                1010,
                "api-key-01",
                1,
                &registered_key(),
                0,
                mask,
            )
            .unwrap()
    };

    assert_ne!(
        sign_mask(DisabledPermissions::none().as_mask()),
        sign_mask(DisabledPermissions::cancel_only().as_mask())
    );
}

#[test]
fn master_address_is_derived_from_the_key() {
    assert_ne!(universal(CHAIN_ID_TESTNET).address(), zero_address());
    assert_eq!(
        account_client().master_address(),
        universal(CHAIN_ID_TESTNET).address()
    );
}

#[test]
fn body_carries_params_only_without_the_signing_envelope() {
    let request = trading_client()
        .build_signed(HttpMethod::Post, "/trade/orders", "newOrder", &doc_example_params().to_json())
        .unwrap();

    let body = body(&request);

    assert!(!body.contains(r#""type":"newOrder""#), "envelope leaked: {body}");
    assert!(!body.contains(r#""params":"#), "envelope leaked: {body}");
    assert!(body.starts_with(r#"{"accountID":12345"#), "{body}");
}

#[test]
fn body_matches_the_signed_params_byte_for_byte() {
    let request = trading_client()
        .build_signed(HttpMethod::Post, "/trade/orders", "newOrder", &doc_example_params().to_json())
        .unwrap();

    assert_eq!(request.body, doc_example_params().to_json().into_bytes());
}

#[test]
fn api_key_header_carries_the_name_not_the_address() {
    let request = trading_client()
        .build_signed(HttpMethod::Post, "/trade/orders", "newOrder", &doc_example_params().to_json())
        .unwrap();

    assert_eq!(request.header(HEADER_API_KEY).unwrap(), "api-key-01");
    assert!(!request.header(HEADER_API_KEY).unwrap().starts_with("0x"));
}

#[test]
fn signature_header_is_hex_with_the_exchange_prefix() {
    let request = trading_client()
        .build_signed(HttpMethod::Post, "/trade/orders", "newOrder", &doc_example_params().to_json())
        .unwrap();

    let signature = request.header(HEADER_API_SIGN).unwrap();
    assert!(signature.starts_with("0x01"), "{signature}");
    assert_eq!(signature.len(), 2 + 66 * 2);
}

#[test]
fn every_request_draws_a_fresh_nonce() {
    let mut client = trading_client();
    let params = doc_example_params().to_json();

    let first = client
        .build_signed(HttpMethod::Post, "/trade/orders", "newOrder", &params)
        .unwrap();
    let second = client
        .build_signed(HttpMethod::Post, "/trade/orders", "newOrder", &params)
        .unwrap();

    let a: u64 = first.header(HEADER_API_NONCE).unwrap().parse().unwrap();
    let b: u64 = second.header(HEADER_API_NONCE).unwrap().parse().unwrap();
    assert!(b > a, "nonces must advance: {a} then {b}");
}

#[test]
fn identical_payloads_produce_different_signatures_via_the_nonce() {
    let mut client = trading_client();
    let params = doc_example_params().to_json();
    let first = client
        .build_signed(HttpMethod::Post, "/trade/orders", "newOrder", &params)
        .unwrap();
    let second = client
        .build_signed(HttpMethod::Post, "/trade/orders", "newOrder", &params)
        .unwrap();

    assert_eq!(first.body, second.body);
    assert_ne!(first.header(HEADER_API_SIGN), second.header(HEADER_API_SIGN));
}

#[test]
fn public_client_refuses_to_sign() {
    let mut public = SodexHttpClient::new_public(Network::Testnet, Market::Perps).unwrap();

    assert!(!public.can_sign());
    assert!(matches!(
        public.build_signed(HttpMethod::Post, "/trade/orders", "newOrder", &doc_example_params().to_json()),
        Err(ClientError::CredentialsRequired)
    ));
}

#[test]
fn urls_are_scoped_to_the_configured_network_and_market() {
    assert_eq!(
        trading_client().url_for("/trade/orders"),
        "https://testnet-gw.sodex.dev/api/v1/perps/trade/orders"
    );
    let request = trading_client()
        .build_signed(HttpMethod::Delete, "/trade/orders", "cancelOrder", "{}")
        .unwrap();
    assert_eq!(request.url, "https://testnet-gw.sodex.dev/api/v1/perps/trade/orders");
    assert_eq!(request.method, HttpMethod::Delete);
}

#[test]
fn generated_keys_are_distinct_and_usable() {
    let a = generate_api_key().unwrap();
    let b = generate_api_key().unwrap();

    assert_ne!(a.public_key, b.public_key);
    assert_ne!(a.private_key.as_hex(), b.private_key.as_hex());
    assert_eq!(a.private_key.as_hex().len(), 64);
}

#[test]
fn generated_private_key_derives_the_reported_address() {
    let generated = generate_api_key().unwrap();
    let signer =
        ExchangeSigner::new(&generated.private_key, Market::Perps, CHAIN_ID_TESTNET).unwrap();

    assert_eq!(signer.address(), generated.public_key);
}

#[test]
fn add_request_carries_the_chain_header_matching_the_signing_domain() {
    let request = account_client()
        .build_add_api_key(60366, &name(), &zero_address(), NO_EXPIRY, None)
        .unwrap();

    assert_eq!(
        request.header(HEADER_API_CHAIN).unwrap(),
        CHAIN_ID_TESTNET.to_string()
    );
}

#[test]
fn add_request_signature_uses_the_universal_prefix() {
    let request = account_client()
        .build_add_api_key(60366, &name(), &zero_address(), NO_EXPIRY, None)
        .unwrap();

    assert!(request.header(HEADER_API_SIGN).unwrap().starts_with("0x02"));
}

#[test]
fn add_request_body_uses_type_not_key_type() {
    let request = account_client()
        .build_add_api_key(60366, &name(), &zero_address(), NO_EXPIRY, None)
        .unwrap();

    let body = body(&request);
    assert!(body.contains(r#""type":1"#), "{body}");
    assert!(!body.contains("keyType"), "{body}");
}

#[test]
fn permissions_are_omitted_unless_requested() {
    let plain = account_client()
        .build_add_api_key(60366, &name(), &zero_address(), NO_EXPIRY, None)
        .unwrap();
    assert!(!body(&plain).contains("permissions"));

    let restricted = account_client()
        .build_add_api_key(
            60366,
            &name(),
            &zero_address(),
            NO_EXPIRY,
            Some(DisabledPermissions::cancel_only()),
        )
        .unwrap();
    assert!(body(&restricted).contains(r#""permissions":13"#));
}

#[test]
fn permissioned_key_leaving_trade_and_cancel_enabled_is_refused() {
    let only_withdraw_disabled =
        DisabledPermissions::none().disabling(DisabledPermissions::WITHDRAW);

    let result = account_client().build_add_api_key(
        60366,
        &name(),
        &zero_address(),
        NO_EXPIRY,
        Some(only_withdraw_disabled),
    );

    assert!(result.is_err());
    assert_eq!(
        result.unwrap_err(),
        ClientError::Transport(PERMISSIONS_REFUSED.to_string())
    );
}

#[test]
fn requests_target_the_documented_path() {
    let request = account_client()
        .build_add_api_key(60366, &name(), &zero_address(), NO_EXPIRY, None)
        .unwrap();

    assert_eq!(
        request.url,
        "https://testnet-gw.sodex.dev/api/v1/perps/accounts/api-keys"
    );
    assert_eq!(request.method, HttpMethod::Post);
}

#[test]
fn revoke_uses_delete_and_names_the_key() {
    let request = account_client().build_revoke_api_key(60366, &name()).unwrap();

    assert_eq!(request.method, HttpMethod::Delete);
    assert!(body(&request).contains(r#""name":"api-key-01""#));
}

#[test]
fn revoke_signs_under_the_exchange_domain_not_the_universal_one() {
    let request = account_client().build_revoke_api_key(60366, &name()).unwrap();

    assert!(
        request.header(HEADER_API_SIGN).unwrap().starts_with("0x01"),
        "{:?}",
        request.header(HEADER_API_SIGN)
    );
    assert!(request.header(HEADER_API_CHAIN).is_none());
}

#[test]
fn add_and_revoke_use_different_signature_families() {
    let mut client = account_client();
    let add = client
        .build_add_api_key(60366, &name(), &zero_address(), NO_EXPIRY, None)
        .unwrap();
    let revoke = client.build_revoke_api_key(60366, &name()).unwrap();

    assert!(add.header(HEADER_API_SIGN).unwrap().starts_with("0x02"));
    assert!(revoke.header(HEADER_API_SIGN).unwrap().starts_with("0x01"));
}

#[test]
fn each_account_action_draws_a_fresh_nonce() {
    let mut client = account_client();

    let first = client
        .build_add_api_key(60366, &name(), &zero_address(), NO_EXPIRY, None)
        .unwrap();
    let second = client
        .build_add_api_key(60366, &name(), &zero_address(), NO_EXPIRY, None)
        .unwrap();

    let a: u64 = first.header(HEADER_API_NONCE).unwrap().parse().unwrap();
    let b: u64 = second.header(HEADER_API_NONCE).unwrap().parse().unwrap();
    assert!(b > a);
}

#[test]
fn the_address_of_a_known_key() {
    let key = ApiPrivateKey::parse(&format!("{}1", "0".repeat(63))).unwrap();
    let signer = ExchangeSigner::new(&key, Market::Spot, CHAIN_ID_TESTNET).unwrap();
    assert_eq!(
        encode_prefixed(&signer.address()),
        "0x7e5f4552091a69125d5dfcb7b8c2659029395bdf"
    );
}

fn reference_separator(name: &'static str, chain_id: u64) -> Vec<u8> {
    let domain = alloy_sol_types::Eip712Domain::new(
        Some(std::borrow::Cow::Borrowed(name)),
        Some(std::borrow::Cow::Borrowed("1")),
        Some(alloy_primitives::U256::from(chain_id)),
        Some(alloy_primitives::Address::ZERO),
        None,
    );
    domain.separator().as_slice().to_vec()
}

#[test]
fn domain_separators_agree_with_the_eip712_reference() {
    for name in ["spot", "futures", "universal"] {
        for chain_id in [CHAIN_ID_MAINNET, CHAIN_ID_TESTNET, 1u64] {
            assert_eq!(
                compute_domain_separator(name, chain_id),
                reference_separator(name, chain_id),
                "domain {name} on chain {chain_id}"
            );
        }
    }
}
