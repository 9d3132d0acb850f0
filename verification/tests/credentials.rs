use std::str::FromStr;

use rust_decimal::Decimal;
use sodex::common::credential::{
    ApiKeyName, ApiPrivateKey, CredentialError, MasterPrivateKey, REDACTED,
};
use sodex::common::decimal::{normalize, normalize_to, DecimalError, FIXED_PRECISION};

#[test]
fn parses_key_with_and_without_prefix() {
    let bare = "2".repeat(64);
    let prefixed = format!("0x{bare}");
    assert_eq!(
        ApiPrivateKey::parse(&bare).unwrap().as_hex(),
        ApiPrivateKey::parse(&prefixed).unwrap().as_hex()
    );
}

#[test]
fn rejects_wrong_length_key() {
    assert!(matches!(
        ApiPrivateKey::parse("0xdeadbeef"),
        Err(CredentialError::KeyLength(8))
    ));
}

#[test]
fn rejects_non_hex_key() {
    let bad = "z".repeat(64);
    assert!(matches!(
        ApiPrivateKey::parse(&bad),
        Err(CredentialError::KeyEncoding)
    ));
}

#[test]
fn debug_output_hides_key_material() {
    let key = ApiPrivateKey::parse(&"2".repeat(64)).unwrap();
    let rendered = format!("{key:?}");
    assert!(rendered.contains(REDACTED), "{rendered}");
    assert!(!rendered.contains("22222"), "{rendered}");
}

#[test]
fn rejects_reserved_and_malformed_key_names() {
    assert!(ApiKeyName::parse("default").is_err());
    assert!(ApiKeyName::parse("").is_err());
    assert!(ApiKeyName::parse(&"a".repeat(37)).is_err());
    assert!(ApiKeyName::parse("has space").is_err());
    assert!(ApiKeyName::parse("api-key_01").is_ok());
}

#[test]
fn key_hex_is_lowercased_and_unprefixed() {
    let key = MasterPrivateKey::parse(&format!("0x{}", "AB".repeat(32))).unwrap();
    assert_eq!(key.as_hex(), "ab".repeat(32));
    let master_debug = format!("{key:?}");
    assert!(!master_debug.contains("abab"), "{master_debug}");
}

#[test]
fn key_length_error_counts_bytes_after_the_prefix() {
    assert!(matches!(
        MasterPrivateKey::parse(&"1".repeat(66)),
        Err(CredentialError::KeyLength(66))
    ));
    assert!(matches!(ApiPrivateKey::parse(""), Err(CredentialError::KeyLength(0))));
}

#[test]
fn key_name_error_carries_the_name() {
    assert_eq!(
        ApiKeyName::parse("default"),
        Err(CredentialError::KeyName("default".to_string()))
    );
    assert_eq!(ApiKeyName::parse(&"a".repeat(36)).unwrap().as_str(), "a".repeat(36));
}

#[test]
fn strips_on_chain_padding_without_changing_the_value() {
    assert_eq!(normalize("0.001390000000000000").unwrap(), "0.00139");
    assert_eq!(normalize("4.12298000").unwrap(), "4.12298");
}

#[test]
fn leaves_already_short_values_alone() {
    assert_eq!(normalize("91976").unwrap(), "91976");
    assert_eq!(normalize("0.00001").unwrap(), "0.00001");
    assert_eq!(normalize("1").unwrap(), "1");
}

#[test]
fn result_never_exceeds_the_engine_precision() {
    for raw in [
        "0.001390000000000000",
        "0.123456789012345678",
        "1234.000000000000000001",
        "0.000000000000000001",
    ] {
        let normalized = normalize(raw).unwrap();
        let scale = Decimal::from_str(&normalized).unwrap().scale();
        assert!(
            scale <= FIXED_PRECISION,
            "{raw} normalised to {normalized} with scale {scale}"
        );
    }
}

#[test]
fn rounds_only_when_significant_digits_actually_exceed_the_cap() {
    let rounded = normalize("0.123456789012345678").unwrap();
    let scale = Decimal::from_str(&rounded).unwrap().scale();

    assert_eq!(scale, FIXED_PRECISION);
    assert!(rounded.starts_with("0.1234567"));
}

#[test]
fn a_value_below_the_representable_minimum_becomes_zero_not_an_error() {
    let normalized = normalize("0.000000000000000001").unwrap();

    assert_eq!(Decimal::from_str(&normalized).unwrap(), Decimal::ZERO);
}

#[test]
fn negative_values_survive() {
    assert_eq!(normalize("-0.0000125000").unwrap(), "-0.0000125");
}

#[test]
fn non_numeric_input_is_reported_rather_than_defaulted() {
    assert!(normalize("").is_err());
    assert!(normalize("abc").is_err());
    assert!(normalize("1.2.3").is_err());
}

#[test]
fn normalisation_rounds_half_to_even_at_the_cap() {
    assert_eq!(normalize("0.1234567895").unwrap(), "0.123456790");
    assert_eq!(normalize("0.1234567885").unwrap(), "0.123456788");
    assert_eq!(normalize_to("2.5", 0).unwrap(), "2");
    assert_eq!(normalize_to("3.5", 0).unwrap(), "4");
    assert_eq!(normalize_to("-1.25", 1).unwrap(), "-1.2");
}

#[test]
fn the_error_carries_the_rejected_text() {
    assert_eq!(normalize("abc"), Err(DecimalError("abc".to_string())));
}

#[test]
fn zero_keeps_no_sign_or_padding() {
    assert_eq!(normalize("0.000").unwrap(), "0");
    assert_eq!(normalize("100.0").unwrap(), "100");
}

#[test]
fn negative_dust_rounds_to_an_unsigned_zero() {
    assert_eq!(normalize("-0.0000000001").unwrap(), "0.000000000");
    assert_eq!(normalize("-0.0000000009").unwrap(), "-0.000000001");
}

#[test]
fn an_uppercase_prefix_is_not_stripped() {
    assert!(matches!(
        ApiPrivateKey::parse(&format!("0X{}", "ab".repeat(32))),
        Err(CredentialError::KeyLength(66))
    ));
}
