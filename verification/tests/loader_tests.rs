//! Loading and merge-precedence behaviour of the configuration engine.

use service_core::config::AppConfig;
use service_core::error::EnvConfigError;
use service_core::loader::SecretOverrides;
use service_core::raw::{RawConfigValue, RawItem, RawSection, RawValue};

fn no_env() -> Vec<(String, String)> {
    Vec::new()
}

fn secrets(db: Option<&str>, jwt: Option<&str>, redis: Option<&str>) -> SecretOverrides {
    SecretOverrides {
        database_url: db.map(|s| s.to_string()),
        jwt_secret: jwt.map(|s| s.to_string()),
        redis_url: redis.map(|s| s.to_string()),
    }
}

fn file_with_database_url(url: &str) -> RawConfigValue {
    let mut sec = RawSection::new();
    sec.push("url".to_string(), RawValue::Str(url.to_string()));
    let mut f = RawConfigValue::new();
    f.push("database".to_string(), sec);
    f
}

#[test]
fn load_with_only_secrets_succeeds_with_exact_values() {
    let c = AppConfig::load(None, &no_env(), secrets(Some("postgres://db"), Some("s3cret"), None))
        .unwrap();
    assert_eq!(c.database.url, "postgres://db");
    assert_eq!(c.secrets.jwt_secret, "s3cret");
    // Everything else keeps its built-in default.
    assert_eq!(c.server.host, "127.0.0.1");
    assert_eq!(c.server.port, 3000);
    assert_eq!(c.server.timeout, 30);
    assert_eq!(c.database.max_connections, 10);
    assert_eq!(c.database.pool_timeout, 30);
    assert_eq!(c.logging.level, "info");
    assert_eq!(c.logging.format, "pretty");
    assert_eq!(c.secrets.redis_url, None);
    assert_eq!(c.cors.max_age, 3600);
}

#[test]
fn load_without_database_url_fails_naming_it() {
    let err = AppConfig::load(None, &no_env(), secrets(None, Some("s3cret"), None)).unwrap_err();
    match err {
        EnvConfigError::MissingVar { var_name } => assert_eq!(var_name, "DATABASE_URL"),
        other => panic!("expected MissingVar, got {:?}", other),
    }
}

#[test]
fn load_without_jwt_secret_fails_naming_it() {
    let err =
        AppConfig::load(None, &no_env(), secrets(Some("postgres://db"), None, None)).unwrap_err();
    match err {
        EnvConfigError::MissingVar { var_name } => assert_eq!(var_name, "JWT_SECRET"),
        other => panic!("expected MissingVar, got {:?}", other),
    }
}

#[test]
fn empty_secret_values_still_count_as_missing() {
    let err = AppConfig::load(None, &no_env(), secrets(Some(""), Some("s3cret"), None)).unwrap_err();
    assert!(matches!(err, EnvConfigError::MissingVar { .. }));
}

#[test]
fn secret_override_beats_env_file_and_default() {
    let file = file_with_database_url("file://db");
    let env = vec![("APP_DATABASE_URL".to_string(), "env://db".to_string())];
    let c = AppConfig::load(Some(&file), &env, secrets(Some("secret://db"), Some("j"), None))
        .unwrap();
    assert_eq!(c.database.url, "secret://db");
}

#[test]
fn env_override_beats_file_value() {
    let file = file_with_database_url("file://db");
    let env = vec![("APP_DATABASE_URL".to_string(), "env://db".to_string())];
    let c = AppConfig::load(Some(&file), &env, secrets(None, Some("j"), None)).unwrap();
    assert_eq!(c.database.url, "env://db");
}

#[test]
fn file_value_beats_default() {
    let file = file_with_database_url("file://db");
    let c = AppConfig::load(Some(&file), &no_env(), secrets(None, Some("j"), None)).unwrap();
    assert_eq!(c.database.url, "file://db");
}

#[test]
fn later_env_pair_overrides_earlier() {
    let env = vec![
        ("APP_SERVER_PORT".to_string(), "8080".to_string()),
        ("APP_SERVER_PORT".to_string(), "9090".to_string()),
    ];
    let c = AppConfig::load(None, &env, secrets(Some("d"), Some("j"), None)).unwrap();
    assert_eq!(c.server.port, 9090);
}

#[test]
fn env_overrides_reach_every_section() {
    let env = vec![
        ("APP_SERVER_HOST".to_string(), "0.0.0.0".to_string()),
        ("APP_SERVER_TIMEOUT".to_string(), "90".to_string()),
        ("APP_DATABASE_MAX_CONNECTIONS".to_string(), "42".to_string()),
        ("APP_DATABASE_POOL_TIMEOUT".to_string(), "7".to_string()),
        ("APP_LOGGING_LEVEL".to_string(), "debug".to_string()),
        ("APP_LOGGING_FORMAT".to_string(), "json".to_string()),
        ("APP_SECRETS_JWT_SECRET".to_string(), "env-jwt".to_string()),
        ("APP_SECRETS_REDIS_URL".to_string(), "redis://env".to_string()),
        ("APP_CORS_ALLOW_CREDENTIALS".to_string(), "true".to_string()),
        ("APP_CORS_MAX_AGE".to_string(), "60".to_string()),
    ];
    let c = AppConfig::load(None, &env, secrets(Some("d"), None, None)).unwrap();
    assert_eq!(c.server.host, "0.0.0.0");
    assert_eq!(c.server.timeout, 90);
    assert_eq!(c.database.max_connections, 42);
    assert_eq!(c.database.pool_timeout, 7);
    assert_eq!(c.logging.level, "debug");
    assert_eq!(c.logging.format, "json");
    assert_eq!(c.secrets.jwt_secret, "env-jwt");
    assert_eq!(c.secrets.redis_url.as_deref(), Some("redis://env"));
    assert!(c.cors.allow_credentials);
    assert_eq!(c.cors.max_age, 60);
}

#[test]
fn unknown_and_unprefixed_env_keys_are_ignored() {
    let env = vec![
        ("PATH".to_string(), "/usr/bin".to_string()),
        ("APP_SERVER_NONSENSE".to_string(), "zzz".to_string()),
        ("SERVER_PORT".to_string(), "1".to_string()),
    ];
    let c = AppConfig::load(None, &env, secrets(Some("d"), Some("j"), None)).unwrap();
    assert_eq!(c.server.port, 3000);
}

#[test]
fn unparsable_numeric_env_value_is_invalid() {
    let env = vec![("APP_SERVER_PORT".to_string(), "not-a-port".to_string())];
    let err = AppConfig::load(None, &env, secrets(Some("d"), Some("j"), None)).unwrap_err();
    match err {
        EnvConfigError::InvalidValue { var_name, value } => {
            assert_eq!(var_name, "APP_SERVER_PORT");
            assert_eq!(value, "not-a-port");
        }
        other => panic!("expected InvalidValue, got {:?}", other),
    }
}

#[test]
fn out_of_range_port_env_value_is_invalid() {
    let env = vec![("APP_SERVER_PORT".to_string(), "65536".to_string())];
    let err = AppConfig::load(None, &env, secrets(Some("d"), Some("j"), None)).unwrap_err();
    assert!(matches!(err, EnvConfigError::InvalidValue { .. }));
}

#[test]
fn boundary_port_env_value_is_accepted() {
    let env = vec![("APP_SERVER_PORT".to_string(), "65535".to_string())];
    let c = AppConfig::load(None, &env, secrets(Some("d"), Some("j"), None)).unwrap();
    assert_eq!(c.server.port, 65535);
}

#[test]
fn unparsable_bool_env_value_is_invalid() {
    let env = vec![("APP_CORS_ALLOW_CREDENTIALS".to_string(), "yes".to_string())];
    let err = AppConfig::load(None, &env, secrets(Some("d"), Some("j"), None)).unwrap_err();
    assert!(matches!(err, EnvConfigError::InvalidValue { .. }));
}

#[test]
fn first_invalid_env_pair_wins_over_missing_secret() {
    // The environment overlay runs before the required-field checks.
    let env = vec![("APP_CORS_MAX_AGE".to_string(), "soon".to_string())];
    let err = AppConfig::load(None, &env, SecretOverrides::none()).unwrap_err();
    assert!(matches!(err, EnvConfigError::InvalidValue { .. }));
}

#[test]
fn file_sections_merge_leniently() {
    // A type-mismatched key and an unknown key are ignored; a negative
    // integer cannot fill an unsigned field and is ignored too.
    let mut server = RawSection::new();
    server.push("host".to_string(), RawValue::Int(9));
    server.push("port".to_string(), RawValue::Int(-1));
    server.push("mystery".to_string(), RawValue::Bool(true));
    server.push("timeout".to_string(), RawValue::Int(45));
    let mut f = RawConfigValue::new();
    f.push("server".to_string(), server);
    let c = AppConfig::load(Some(&f), &no_env(), secrets(Some("d"), Some("j"), None)).unwrap();
    assert_eq!(c.server.host, "127.0.0.1");
    assert_eq!(c.server.port, 3000);
    assert_eq!(c.server.timeout, 45);
}

#[test]
fn file_array_keeps_only_strings() {
    let mut cors = RawSection::new();
    cors.push(
        "allow_methods".to_string(),
        RawValue::Arr(vec![
            RawItem::Str("GET".to_string()),
            RawItem::Int(42),
            RawItem::Str("POST".to_string()),
            RawItem::Bool(false),
        ]),
    );
    let mut f = RawConfigValue::new();
    f.push("cors".to_string(), cors);
    let c = AppConfig::load(Some(&f), &no_env(), secrets(Some("d"), Some("j"), None)).unwrap();
    assert_eq!(c.cors.allow_methods, vec!["GET".to_string(), "POST".to_string()]);
}

#[test]
fn invalid_cors_in_file_is_terminal() {
    let mut cors = RawSection::new();
    cors.push("allow_origins".to_string(), RawValue::Arr(Vec::new()));
    let mut f = RawConfigValue::new();
    f.push("cors".to_string(), cors);
    let err = AppConfig::load(Some(&f), &no_env(), secrets(Some("d"), Some("j"), None)).unwrap_err();
    match err {
        EnvConfigError::InvalidConfig(msg) => {
            assert_eq!(msg, "CORS allow_origins must not be empty")
        }
        other => panic!("expected InvalidConfig, got {:?}", other),
    }
}

#[test]
fn round_trip_of_fully_populated_config_preserves_every_field() {
    let env = vec![
        ("APP_SERVER_HOST".to_string(), "example.org".to_string()),
        ("APP_SERVER_PORT".to_string(), "8443".to_string()),
        ("APP_SERVER_TIMEOUT".to_string(), "75".to_string()),
        ("APP_DATABASE_MAX_CONNECTIONS".to_string(), "31".to_string()),
        ("APP_DATABASE_POOL_TIMEOUT".to_string(), "11".to_string()),
        ("APP_LOGGING_LEVEL".to_string(), "warn".to_string()),
        ("APP_LOGGING_FORMAT".to_string(), "json".to_string()),
        ("APP_CORS_MAX_AGE".to_string(), "120".to_string()),
    ];
    let original = AppConfig::load(
        None,
        &env,
        secrets(Some("postgres://db"), Some("jwt-1"), Some("redis://cache")),
    )
    .unwrap();

    let file = original.to_file_value();
    let reloaded =
        AppConfig::load(Some(&file), &no_env(), secrets(None, None, None)).unwrap();

    assert_eq!(reloaded.server.host, original.server.host);
    assert_eq!(reloaded.server.port, original.server.port);
    assert_eq!(reloaded.server.timeout, original.server.timeout);
    assert_eq!(reloaded.database.url, original.database.url);
    assert_eq!(reloaded.database.max_connections, original.database.max_connections);
    assert_eq!(reloaded.database.pool_timeout, original.database.pool_timeout);
    assert_eq!(reloaded.logging.level, original.logging.level);
    assert_eq!(reloaded.logging.format, original.logging.format);
    assert_eq!(reloaded.secrets.jwt_secret, original.secrets.jwt_secret);
    assert_eq!(reloaded.secrets.redis_url, original.secrets.redis_url);
    assert_eq!(reloaded.cors.allow_origins, original.cors.allow_origins);
    assert_eq!(reloaded.cors.allow_methods, original.cors.allow_methods);
    assert_eq!(reloaded.cors.allow_headers, original.cors.allow_headers);
    assert_eq!(reloaded.cors.allow_credentials, original.cors.allow_credentials);
    assert_eq!(reloaded.cors.expose_headers, original.cors.expose_headers);
    assert_eq!(reloaded.cors.max_age, original.cors.max_age);
}

#[test]
fn server_addr_formats_host_and_port() {
    let c = AppConfig::load(None, &no_env(), secrets(Some("d"), Some("j"), None)).unwrap();
    assert_eq!(c.server_addr(), "127.0.0.1:3000");

    let env = vec![
        ("APP_SERVER_HOST".to_string(), "0.0.0.0".to_string()),
        ("APP_SERVER_PORT".to_string(), "65535".to_string()),
    ];
    let c = AppConfig::load(None, &env, secrets(Some("d"), Some("j"), None)).unwrap();
    assert_eq!(c.server_addr(), "0.0.0.0:65535");
}
