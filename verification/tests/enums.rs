use sodex::common::enums::{
    DisabledPermissions, ExecutionType, MarginMode, OrderModifier, OrderSide, OrderStatus,
    OrderType, PositionSide, SignatureType, StopType, TimeInForce, TriggerType,
};
use sodex::common::{Market, SignatureKind, CHAIN_ID_MAINNET, CHAIN_ID_TESTNET};

#[test]
fn integer_values_match_the_venue_tables() {
    assert_eq!(OrderSide::Buy.as_int(), 1);
    assert_eq!(OrderSide::Sell.as_int(), 2);
    assert_eq!(OrderType::Limit.as_int(), 1);
    assert_eq!(OrderType::Market.as_int(), 2);
    assert_eq!(TimeInForce::Gtc.as_int(), 1);
    assert_eq!(TimeInForce::Ioc.as_int(), 3);
    assert_eq!(TimeInForce::Gtx.as_int(), 4);
    assert_eq!(OrderModifier::Bracket.as_int(), 3);
    assert_eq!(PositionSide::Both.as_int(), 1);
    assert_eq!(StopType::TakeProfit.as_int(), 2);
    assert_eq!(TriggerType::MarkPrice.as_int(), 2);
}

#[test]
fn signature_type_values_match_the_prefix_bytes_used_when_signing() {
    assert_eq!(SignatureType::Eip712.as_int(), SignatureKind::Exchange.prefix());
    assert_eq!(
        SignatureType::Eip712Universal.as_int(),
        SignatureKind::Universal.prefix()
    );
}

#[test]
fn expired_differs_between_order_status_and_execution_type() {
    assert_eq!(OrderStatus::Expired.as_int(), 6);
    assert_eq!(ExecutionType::Expired.as_int(), 7);
    assert_ne!(OrderStatus::Expired.as_int(), ExecutionType::Expired.as_int());
}

#[test]
fn order_status_values_are_not_contiguous() {
    assert_eq!(OrderStatus::Triggered.as_int(), 10);
    assert_eq!(OrderStatus::from_int(7), None);
    assert_eq!(OrderStatus::from_int(9), None);
    assert_eq!(OrderStatus::from_int(10), Some(OrderStatus::Triggered));
}

#[test]
fn every_variant_round_trips_through_both_representations() {
    for variant in OrderSide::all() {
        assert_eq!(OrderSide::from_int(variant.as_int()), Some(variant));
        assert_eq!(OrderSide::from_str_value(variant.as_str()), Some(variant));
    }
    for variant in OrderType::all() {
        assert_eq!(OrderType::from_int(variant.as_int()), Some(variant));
        assert_eq!(OrderType::from_str_value(variant.as_str()), Some(variant));
    }
    for variant in TimeInForce::all() {
        assert_eq!(TimeInForce::from_int(variant.as_int()), Some(variant));
        assert_eq!(TimeInForce::from_str_value(variant.as_str()), Some(variant));
    }
    for variant in OrderStatus::all() {
        assert_eq!(OrderStatus::from_int(variant.as_int()), Some(variant));
        assert_eq!(OrderStatus::from_str_value(variant.as_str()), Some(variant));
    }
    for variant in ExecutionType::all() {
        assert_eq!(ExecutionType::from_int(variant.as_int()), Some(variant));
        assert_eq!(ExecutionType::from_str_value(variant.as_str()), Some(variant));
    }
    for variant in OrderModifier::all() {
        assert_eq!(OrderModifier::from_int(variant.as_int()), Some(variant));
        assert_eq!(OrderModifier::from_str_value(variant.as_str()), Some(variant));
    }
    for variant in MarginMode::all() {
        assert_eq!(MarginMode::from_int(variant.as_int()), Some(variant));
        assert_eq!(MarginMode::from_str_value(variant.as_str()), Some(variant));
    }
    for variant in PositionSide::all() {
        assert_eq!(PositionSide::from_int(variant.as_int()), Some(variant));
        assert_eq!(PositionSide::from_str_value(variant.as_str()), Some(variant));
    }
    for variant in StopType::all() {
        assert_eq!(StopType::from_int(variant.as_int()), Some(variant));
        assert_eq!(StopType::from_str_value(variant.as_str()), Some(variant));
    }
    for variant in TriggerType::all() {
        assert_eq!(TriggerType::from_int(variant.as_int()), Some(variant));
        assert_eq!(TriggerType::from_str_value(variant.as_str()), Some(variant));
    }
    for variant in SignatureType::all() {
        assert_eq!(SignatureType::from_int(variant.as_int()), Some(variant));
        assert_eq!(SignatureType::from_str_value(variant.as_str()), Some(variant));
    }
}

#[test]
fn status_strings_are_the_ones_responses_carry() {
    assert_eq!(OrderStatus::PartiallyFilled.as_str(), "PARTIALLY_FILLED");
    assert_eq!(
        OrderStatus::from_str_value("PARTIALLY_FILLED"),
        Some(OrderStatus::PartiallyFilled)
    );
    assert_eq!(ExecutionType::from_str_value("REPLACED"), Some(ExecutionType::Replaced));
    assert_eq!(OrderSide::from_int(2), Some(OrderSide::Sell));
}

#[test]
fn unknown_values_have_no_variant() {
    assert_eq!(OrderStatus::from_str_value("SETTLED"), None);
    assert_eq!(OrderStatus::from_int(99), None);
    assert_eq!(OrderSide::from_int(0), None);
    assert_eq!(OrderSide::from_str_value("buy"), None);
}

#[test]
fn every_type_lists_each_variant_once() {
    assert_eq!(OrderSide::all().len(), 2);
    assert_eq!(OrderStatus::all().len(), 7);
    assert_eq!(SignatureType::all().len(), 2);
}

#[test]
fn placement_support_matches_the_documented_restrictions() {
    assert!(!TimeInForce::Fok.is_supported_for_placement());
    assert!(TimeInForce::Ioc.is_supported_for_placement());

    assert!(PositionSide::Both.is_supported_for_placement());
    assert!(!PositionSide::Long.is_supported_for_placement());
    assert!(!PositionSide::Short.is_supported_for_placement());

    assert!(TriggerType::MarkPrice.is_supported_for_placement());
    assert!(!TriggerType::LastPrice.is_supported_for_placement());
    assert!(!TriggerType::IndexPrice.is_supported_for_placement());
}

#[test]
fn permission_bits_mean_disabled_not_granted() {
    let withhold_withdraw = DisabledPermissions::none().disabling(DisabledPermissions::WITHDRAW);

    assert!(withhold_withdraw.is_disabled(DisabledPermissions::WITHDRAW));
    assert!(!withhold_withdraw.is_disabled(DisabledPermissions::TRADE));
    assert_eq!(withhold_withdraw.as_mask(), 4);
}

#[test]
fn empty_mask_enables_everything() {
    let all_enabled = DisabledPermissions::none();

    assert_eq!(all_enabled.as_mask(), 0);
    for permission in [
        DisabledPermissions::TRADE,
        DisabledPermissions::CANCEL,
        DisabledPermissions::WITHDRAW,
        DisabledPermissions::TRANSFER,
    ] {
        assert!(!all_enabled.is_disabled(permission));
    }
}

#[test]
fn cancel_only_key_can_wind_down_but_not_open_or_move_funds() {
    let key = DisabledPermissions::cancel_only();

    assert!(!key.is_disabled(DisabledPermissions::CANCEL));
    assert!(key.is_disabled(DisabledPermissions::TRADE));
    assert!(key.is_disabled(DisabledPermissions::WITHDRAW));
    assert!(key.is_disabled(DisabledPermissions::TRANSFER));
    assert_eq!(key.as_mask(), 13);
}

#[test]
fn disabling_accumulates_and_is_idempotent() {
    let mask = DisabledPermissions::none()
        .disabling(DisabledPermissions::TRADE)
        .disabling(DisabledPermissions::TRANSFER)
        .disabling(DisabledPermissions::TRADE);
    assert_eq!(mask.as_mask(), 9);
    assert!(mask.is_disabled(DisabledPermissions::TRADE));
    assert!(!mask.is_disabled(DisabledPermissions::CANCEL));
}

#[test]
fn markets_name_their_domain_and_path() {
    assert_eq!(Market::Spot.domain_name(), "spot");
    assert_eq!(Market::Perps.domain_name(), "futures");
    assert_eq!(Market::Spot.path_segment(), "spot");
    assert_eq!(Market::Perps.path_segment(), "perps");
    assert_ne!(CHAIN_ID_MAINNET, CHAIN_ID_TESTNET);
}
