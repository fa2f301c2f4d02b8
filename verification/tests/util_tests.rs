//! Text helpers, raw-value lookups, and the remaining configuration
//! accessors.

use service_core::config::{AppConfig, AppStateConfig, ConfigSection, LogFormat, LoggingConfig};
use service_core::loader::SecretOverrides;
use service_core::raw::{RawSection, RawValue};
use service_core::strutil::{contains_str, parse_bool, parse_u64, str_eq, u64_to_string};

#[test]
fn parse_u64_accepts_exactly_the_fitting_digit_strings() {
    assert_eq!(parse_u64("0"), Some(0));
    assert_eq!(parse_u64("007"), Some(7));
    assert_eq!(parse_u64("65535"), Some(65535));
    assert_eq!(parse_u64("18446744073709551615"), Some(u64::MAX));
    assert_eq!(parse_u64("18446744073709551616"), None);
    assert_eq!(parse_u64(""), None);
    assert_eq!(parse_u64("12a"), None);
    assert_eq!(parse_u64("-3"), None);
    assert_eq!(parse_u64(" 3"), None);
}

#[test]
fn parse_bool_accepts_the_two_words() {
    assert_eq!(parse_bool("true"), Some(true));
    assert_eq!(parse_bool("false"), Some(false));
    assert_eq!(parse_bool("True"), None);
    assert_eq!(parse_bool(""), None);
}

#[test]
fn u64_to_string_renders_decimal() {
    assert_eq!(u64_to_string(0), "0");
    assert_eq!(u64_to_string(42), "42");
    assert_eq!(u64_to_string(u64::MAX), "18446744073709551615");
}

#[test]
fn str_eq_compares_by_characters() {
    assert!(str_eq("", ""));
    assert!(str_eq("abc", "abc"));
    assert!(!str_eq("abc", "abd"));
    assert!(!str_eq("abc", "ab"));
}

#[test]
fn contains_str_finds_members() {
    let v = vec!["GET".to_string(), "*".to_string()];
    assert!(contains_str(&v, "*"));
    assert!(!contains_str(&v, "POST"));
    assert!(!contains_str(&Vec::new(), "*"));
}

#[test]
fn section_lookups_are_typed_and_first_match_wins() {
    let mut s = RawSection::new();
    s.push("a".to_string(), RawValue::Str("one".to_string()));
    s.push("a".to_string(), RawValue::Str("two".to_string()));
    s.push("n".to_string(), RawValue::Int(-5));
    s.push("b".to_string(), RawValue::Bool(true));
    assert_eq!(s.get_str("a").as_deref(), Some("one"));
    assert_eq!(s.get_int("n"), Some(-5));
    assert_eq!(s.get_bool("b"), Some(true));
    // Type mismatches and absent keys read as nothing.
    assert_eq!(s.get_str("n"), None);
    assert_eq!(s.get_int("a"), None);
    assert_eq!(s.get_bool("missing"), None);
    assert!(s.get_str_arr("a").is_none());
}

#[test]
fn section_names_are_fixed() {
    let c = AppConfig::default();
    assert_eq!(c.server.section_name(), "server");
    assert_eq!(c.database.section_name(), "database");
    assert_eq!(c.logging.section_name(), "logging");
    assert_eq!(c.secrets.section_name(), "secrets");
}

#[test]
fn format_kind_selects_by_name_with_compact_fallback() {
    let mut l = LoggingConfig::default();
    l.format = "json".to_string();
    assert_eq!(l.format_kind(), LogFormat::Json);
    l.format = "pretty".to_string();
    assert_eq!(l.format_kind(), LogFormat::Pretty);
    l.format = "anything-else".to_string();
    assert_eq!(l.format_kind(), LogFormat::Compact);
}

#[test]
fn level_is_known_accepts_the_named_levels() {
    let mut l = LoggingConfig::default();
    for lvl in ["trace", "debug", "info", "warn", "error", "off"] {
        l.level = lvl.to_string();
        assert!(l.level_is_known());
    }
    l.level = "verbose".to_string();
    assert!(!l.level_is_known());
}

#[test]
fn state_config_takes_the_signing_secret() {
    let env: Vec<(String, String)> = Vec::new();
    let c = AppConfig::load(
        None,
        &env,
        SecretOverrides {
            database_url: Some("d".to_string()),
            jwt_secret: Some("jwt-x".to_string()),
            redis_url: None,
        },
    )
    .unwrap();
    let sc = AppStateConfig::from_config(&c);
    assert_eq!(sc.jwt_secret, "jwt-x");
}
