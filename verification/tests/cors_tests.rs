//! CORS section defaults and validation rules.

use service_core::config::cors::CorsConfig;
use service_core::config::ConfigSection;
use service_core::error::EnvConfigError;

const WILDCARD_CREDENTIALS_MSG: &str = "Invalid CORS configuration: Cannot combine `Access-Control-Allow-Credentials: true` with `Access-Control-Allow-Methods: *`";

#[test]
fn defaults_are_the_documented_permissive_set() {
    let c = CorsConfig::default();
    assert_eq!(c.allow_origins, vec!["*".to_string()]);
    assert_eq!(
        c.allow_methods,
        vec![
            "GET".to_string(),
            "POST".to_string(),
            "PUT".to_string(),
            "DELETE".to_string(),
            "OPTIONS".to_string(),
            "HEAD".to_string(),
        ]
    );
    assert_eq!(
        c.allow_headers,
        vec![
            "Authorization".to_string(),
            "Content-Type".to_string(),
            "Accept".to_string(),
            "X-Request-ID".to_string(),
        ]
    );
    assert!(!c.allow_credentials);
    assert_eq!(c.expose_headers, vec!["Content-Type".to_string(), "X-Total-Count".to_string()]);
    assert_eq!(c.max_age, 3600);
    assert_eq!(c.section_name(), "cors");
}

#[test]
fn default_config_validates() {
    assert!(CorsConfig::default().validate().is_ok());
}

#[test]
fn credentials_with_wildcard_methods_fails_with_documented_message() {
    let mut c = CorsConfig::default();
    c.allow_credentials = true;
    c.allow_methods = vec!["GET".to_string(), "*".to_string()];
    assert_eq!(c.validate().unwrap_err(), WILDCARD_CREDENTIALS_MSG);
}

#[test]
fn same_config_without_credentials_validates() {
    let mut c = CorsConfig::default();
    c.allow_credentials = false;
    c.allow_methods = vec!["GET".to_string(), "*".to_string()];
    assert!(c.validate().is_ok());
}

#[test]
fn credentials_without_wildcard_validates() {
    let mut c = CorsConfig::default();
    c.allow_credentials = true;
    assert!(c.validate().is_ok());
}

#[test]
fn empty_allow_origins_fails_regardless_of_other_fields() {
    let mut c = CorsConfig::default();
    c.allow_origins = Vec::new();
    assert_eq!(c.validate().unwrap_err(), "CORS allow_origins must not be empty");
}

#[test]
fn empty_allow_methods_fails_regardless_of_other_fields() {
    let mut c = CorsConfig::default();
    c.allow_methods = Vec::new();
    c.allow_credentials = true;
    assert_eq!(c.validate().unwrap_err(), "CORS allow_methods must not be empty");
}

#[test]
fn empty_allow_headers_fails_regardless_of_other_fields() {
    let mut c = CorsConfig::default();
    c.allow_headers = Vec::new();
    c.max_age = 0;
    assert_eq!(c.validate().unwrap_err(), "CORS allow_headers must not be empty");
}

#[test]
fn wildcard_helpers_report_membership() {
    let c = CorsConfig::default();
    assert!(c.wildcard_origins());
    assert!(!c.wildcard_methods());
    let mut c = CorsConfig::default();
    c.allow_methods.push("*".to_string());
    assert!(c.wildcard_methods());
}

#[test]
fn layer_check_rejects_credentialed_wildcard() {
    let mut c = CorsConfig::default();
    c.allow_credentials = true;
    c.allow_methods = vec!["*".to_string()];
    match c.check_credentials_wildcard() {
        Err(EnvConfigError::InvalidConfig(msg)) => assert_eq!(
            msg,
            "Cannot combine `Access-Control-Allow-Credentials: true` with `Access-Control-Allow-Methods: *`"
        ),
        other => panic!("expected InvalidConfig, got {:?}", other),
    }
    c.allow_credentials = false;
    assert!(c.check_credentials_wildcard().is_ok());
}
