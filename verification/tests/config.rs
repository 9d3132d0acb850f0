use sodex::common::Market;
use sodex::config::{
    env_value, venue_for, ConfigError, SecretString, SodexDataClientConfig, SodexExecClientConfig,
    Venue, DEFAULT_TIMEOUT_SECS, ENV_ACCOUNT_ID, ENV_API_KEY_NAME, ENV_API_PRIVATE_KEY, SODEX,
    SODEX_PERPS, SODEX_SPOT,
};
use sodex::factories::{
    account_id_for, account_type_for, oms_type, AccountType, OmsType, SodexDataClientFactory,
    SodexExecutionClientFactory,
};
use sodex::http::Network;

#[test]
fn each_engine_gets_its_own_venue() {
    assert_eq!(venue_for(Market::Spot).as_str(), SODEX_SPOT);
    assert_eq!(venue_for(Market::Perps).as_str(), SODEX_PERPS);
    assert_ne!(venue_for(Market::Spot), venue_for(Market::Perps));
}

#[test]
fn data_config_holds_network_market_and_timeout_only() {
    let config = SodexDataClientConfig::new(Network::Testnet, Market::Spot);
    assert_eq!(config.network, Network::Testnet);
    assert_eq!(config.market, Market::Spot);
    assert!(config.instrument_ids.is_empty());
    assert_eq!(config.timeout_secs, DEFAULT_TIMEOUT_SECS);
    assert_eq!(config.venue(), Venue::new(SODEX_SPOT));
}

#[test]
fn explicit_config_wins_over_the_environment() {
    let config = SodexExecClientConfig {
        account_id: Some(4242),
        api_key_name: Some("explicit".to_string()),
        ..SodexExecClientConfig::from_env(Network::Testnet, Market::Perps)
    };

    assert_eq!(config.resolve_account_id(Some("7")).unwrap(), 4242);
    assert_eq!(config.resolve_api_key_name(Some("from-env")).unwrap(), "explicit");
}

#[test]
fn the_environment_fills_what_the_config_leaves_out() {
    let config = SodexExecClientConfig::from_env(Network::Testnet, Market::Perps);
    assert_eq!(config.resolve_account_id(Some(" 60366 ")).unwrap(), 60366);
    assert_eq!(config.resolve_api_key_name(Some("api-key-01")).unwrap(), "api-key-01");
    assert_eq!(
        config.resolve_api_private_key(Some("0xabc")).unwrap().expose(),
        "0xabc"
    );
    assert!(config.has_credentials(Some("1"), Some("k"), Some("0x1")));
    assert!(!config.has_credentials(Some("x"), Some("k"), Some("0x1")));
    assert!(!config.has_credentials(Some("1"), None, Some("0x1")));
}

#[test]
fn missing_credentials_name_the_variable_to_set() {
    let config = SodexExecClientConfig {
        account_id: None,
        ..SodexExecClientConfig::from_env(Network::Testnet, Market::Perps)
    };

    let err = config.resolve_account_id(None).unwrap_err();
    assert_eq!(
        err,
        ConfigError::Missing {
            what: "account id",
            env: ENV_ACCOUNT_ID
        }
    );
    assert!(err.message().contains(ENV_ACCOUNT_ID));
    assert_eq!(
        config.resolve_api_key_name(Some("  ")).unwrap_err(),
        ConfigError::Missing { what: "API key name", env: ENV_API_KEY_NAME }
    );
    assert_eq!(
        config.resolve_api_private_key(None).unwrap_err(),
        ConfigError::Missing { what: "API private key", env: ENV_API_PRIVATE_KEY }
    );
}

#[test]
fn error_messages_say_what_to_fix() {
    let missing = ConfigError::Missing { what: "account id", env: ENV_ACCOUNT_ID };
    assert_eq!(
        missing.message(),
        "missing account id: set it in the config or the SODEX_ACCOUNT_ID environment variable"
    );
    let invalid = ConfigError::InvalidAccountId { env: ENV_ACCOUNT_ID, value: "abc".to_string() };
    assert_eq!(invalid.message(), "SODEX_ACCOUNT_ID is not a valid account id: \"abc\"");
}

#[test]
fn a_non_numeric_account_id_is_refused_with_its_value() {
    let config = SodexExecClientConfig::from_env(Network::Mainnet, Market::Spot);
    assert_eq!(
        config.resolve_account_id(Some("12a")),
        Err(ConfigError::InvalidAccountId { env: ENV_ACCOUNT_ID, value: "12a".to_string() })
    );
    assert!(config.resolve_account_id(Some("18446744073709551616")).is_err());
    assert_eq!(
        config.resolve_account_id(Some("18446744073709551615")).unwrap(),
        u64::MAX
    );
}

#[test]
fn blank_environment_values_count_as_absent() {
    assert_eq!(env_value(Some("   ")), None);
    assert_eq!(env_value(Some("")), None);
    assert_eq!(env_value(None), None);
    assert_eq!(env_value(Some("\t value \n")), Some("value".to_string()));
}

#[test]
fn secrets_do_not_show_in_debug_output() {
    let secret = SecretString::new("0xdeadbeef");
    assert_eq!(secret.expose(), "0xdeadbeef");
    let rendered = format!("{secret:?}");
    assert!(!rendered.contains("deadbeef"), "{rendered}");
}

#[test]
fn exec_config_reports_its_venue() {
    let config = SodexExecClientConfig {
        account_id: Some(60366),
        api_key_name: Some("api-key-01".to_string()),
        ..SodexExecClientConfig::from_env(Network::Mainnet, Market::Spot)
    };
    assert_eq!(config.account_id, Some(60366));
    assert_eq!(config.venue(), venue_for(Market::Spot));
}

#[test]
fn spot_settles_in_cash_and_perps_on_margin() {
    assert_eq!(account_type_for(Market::Spot), AccountType::Cash);
    assert_eq!(account_type_for(Market::Perps), AccountType::Margin);
    assert_eq!(oms_type(), OmsType::Netting);
}

#[test]
fn account_ids_carry_the_venue_and_the_numeric_id() {
    assert_eq!(account_id_for(Market::Spot, 60366), "SODEX_SPOT-60366");
    assert_eq!(account_id_for(Market::Perps, 0), "SODEX_PERPS-0");
}

#[test]
fn both_factories_register_under_one_key() {
    assert_eq!(SodexDataClientFactory::new().name(), SODEX);
    assert_eq!(SodexExecutionClientFactory::new().name(), SODEX);
}

#[test]
fn each_factory_names_the_config_it_accepts() {
    assert_eq!(
        SodexDataClientFactory::new().config_type(),
        "SodexDataClientConfig"
    );
    assert_eq!(
        SodexExecutionClientFactory::new().config_type(),
        "SodexExecClientConfig"
    );
}
