use estuary::config::secrets::{RotatableSecret, SecretFinding, SecretStore, SecretsManager};
use estuary::config::{parse_list, Config};

#[test]
fn test_default_config() {
    let config = Config::default();
    assert_eq!(config.server.port, 3000);
    assert_eq!(config.database.db_type, "memory");
    assert!(!config.auth.enabled);
}

#[test]
fn test_runtime_validation() {
    let mut config = Config::default();
    config.database.db_type = "convex".to_string();
    assert!(config.validate_runtime_dependencies().is_err());

    config.database.convex_deployment_url = Some("https://example.convex.cloud".to_string());
    assert!(config.validate_runtime_dependencies().is_ok());
}

#[test]
fn config_test_secrets_redaction() {
    assert_eq!(SecretsManager::redact_value("api_key", "abc123def456"), "ab...56");
    assert_eq!(SecretsManager::redact_value("port", "3000"), "3000");
    assert_eq!(SecretsManager::redact_value("password", "sho"), "***");
}

#[test]
fn test_runtime_dependency_validation() {
    let mut config = Config::default();

    config.database.db_type = "convex".to_string();
    config.database.convex_deployment_url = None;
    assert!(config.validate_runtime_dependencies().is_err());

    config.database.convex_deployment_url = Some("https://test.convex.cloud".to_string());
    assert!(config.validate_runtime_dependencies().is_ok());

    config.auth.enabled = true;
    config.auth.jwks_urls = vec![];
    assert!(config.validate_runtime_dependencies().is_err());

    config.auth.jwks_urls = vec!["https://auth.example.com/jwks".to_string()];
    assert!(config.validate_runtime_dependencies().is_ok());
}

#[test]
fn config_tests_test_secrets_redaction() {
    assert_eq!(SecretsManager::redact_value("api_key", "abcdef123456"), "ab...56");
    assert_eq!(SecretsManager::redact_value("password", "mysecretpass"), "my...ss");
    assert_eq!(SecretsManager::redact_value("token", "tok_abc123"), "to...23");
    assert_eq!(SecretsManager::redact_value("secret", "xxx"), "***");
    assert_eq!(SecretsManager::redact_value("port", "3000"), "3000");
    assert_eq!(
        SecretsManager::redact_value("database_url", "postgres://localhost"),
        "postgres://localhost"
    );
}

#[test]
fn test_config_conversions() {
    let config = Config::default();

    let auth_config: estuary::auth::AuthConfig = (&config.auth).into();
    assert_eq!(auth_config.enabled, config.auth.enabled);
    assert_eq!(auth_config.jwks_urls, config.auth.jwks_urls);

    let rate_limit_config: estuary::rate_limit::RateLimitConfig = (&config.rate_limit).into();
    assert_eq!(rate_limit_config.enabled, config.rate_limit.enabled);
    assert_eq!(rate_limit_config.max_requests, config.rate_limit.max_requests as u32);

    let security_config: estuary::security::SecurityConfig = (&config.security).into();
    assert_eq!(security_config.strict_mode, config.security.strict_mode);
    assert_eq!(security_config.csp, config.security.csp);
}

#[test]
fn production_profile_is_stricter() {
    let config = Config::for_profile(true);
    assert!(config.security.strict_mode);
    assert_eq!(config.rate_limit.max_requests, 100);
    let dev = Config::for_profile(false);
    assert!(!dev.security.strict_mode);
    assert_eq!(dev.rate_limit.max_requests, 1000);
    assert!(dev.rate_limit.enabled);
}

#[test]
fn settings_checks_reject_out_of_range_values() {
    let config = Config::default();
    assert!(config.validate_settings().is_ok());

    let mut c = Config::default();
    c.server.port = 0;
    assert!(c.validate_settings().is_err());

    let mut c = Config::default();
    c.rate_limit.max_requests = 0;
    assert!(c.validate_settings().is_err());

    let mut c = Config::default();
    c.auth.jwks_cache_seconds = 59;
    assert!(c.validate_settings().is_err());
    c.auth.jwks_cache_seconds = 86400;
    assert!(c.validate_settings().is_ok());
    c.auth.jwks_cache_seconds = 86401;
    assert!(c.validate_settings().is_err());

    let mut c = Config::default();
    c.shutdown.timeout_seconds = 301;
    assert!(c.validate_settings().is_err());

    let mut c = Config::default();
    c.auth.enabled = true;
    c.auth.jwks_urls = vec!["not-a-url".to_string()];
    let e = c.validate_settings().unwrap_err();
    assert_eq!(
        e.message(),
        "Invalid JWKS URL: not-a-url. URLs must start with http:// or https://"
    );
    c.auth.jwks_urls = vec!["https://valid.url/jwks".to_string(), "http://other/jwks".to_string()];
    assert!(c.validate_settings().is_ok());
}

#[test]
fn unknown_database_type_is_named() {
    let mut c = Config::default();
    c.database.db_type = "postgres".to_string();
    let e = c.validate_runtime_dependencies().unwrap_err();
    assert_eq!(e.message(), "Unknown database type: postgres");
    assert_eq!(e.to_text(), "Configuration error: Unknown database type: postgres");
}

#[test]
fn comma_lists_are_trimmed_and_empty_items_dropped() {
    assert_eq!(
        parse_list("http://localhost:3000,https://app.example.com"),
        vec!["http://localhost:3000".to_string(), "https://app.example.com".to_string()]
    );
    assert_eq!(
        parse_list(" https://auth1.com/jwks , ,https://auth2.com/jwks,"),
        vec!["https://auth1.com/jwks".to_string(), "https://auth2.com/jwks".to_string()]
    );
    assert!(parse_list("").is_empty());
}

#[test]
fn shutdown_duration_uses_timeout() {
    let c = Config::default();
    assert_eq!(c.shutdown_duration(), std::time::Duration::from_secs(30));
}

#[test]
fn redaction_ignores_key_case() {
    assert_eq!(SecretsManager::redact_value("API_KEY", "abcdef123456"), "ab...56");
    assert_eq!(SecretsManager::redact_value("Secret", "12345"), "12...45");
    assert_eq!(SecretsManager::redact_value("token", "1234"), "***");
}

#[test]
fn placeholder_secrets_are_spotted() {
    assert_eq!(SecretsManager::review("API_SECRET", "changeme"), SecretFinding::Placeholder);
    assert_eq!(SecretsManager::review("AUTH_TOKEN", "xxx"), SecretFinding::Placeholder);
    assert_eq!(SecretsManager::review("DB_PASSWORD", "example123"), SecretFinding::Placeholder);
    assert_eq!(SecretsManager::review("DB_PASSWORD", "s3cr3t-real"), SecretFinding::Configured);
    assert_eq!(SecretsManager::review("DB_PASSWORD", ""), SecretFinding::NotSecret);
    assert_eq!(SecretsManager::review("PORT", "changeme"), SecretFinding::NotSecret);
}

#[test]
fn rotatable_secret_accepts_previous_value() {
    let mut secret = RotatableSecret::new("initial_value".to_string());
    assert_eq!(secret.current(), "initial_value");
    assert!(secret.validate("initial_value"));
    assert!(!secret.validate("wrong_value"));

    secret.rotate("new_value".to_string());
    assert_eq!(secret.current(), "new_value");
    assert!(secret.validate("new_value"));
    assert!(secret.validate("initial_value"));

    secret.rotate("third".to_string());
    assert!(!secret.validate("initial_value"));
}

#[test]
fn secret_store_adds_rotates_and_checks() {
    let mut store = SecretStore::new();
    store.add_secret("api_key".to_string(), "key123".to_string());
    store.add_secret("db_password".to_string(), "pass456".to_string());

    assert_eq!(store.get_secret("api_key"), Some("key123".to_string()));
    assert_eq!(store.get_secret("db_password"), Some("pass456".to_string()));
    assert_eq!(store.get_secret("nonexistent"), None);

    assert!(store.validate_secret("api_key", "key123"));
    assert!(!store.validate_secret("api_key", "wrong_key"));

    assert!(store.rotate_secret("api_key", "new_key789".to_string()).is_ok());
    assert_eq!(store.get_secret("api_key"), Some("new_key789".to_string()));
    assert!(store.validate_secret("api_key", "new_key789"));
    assert!(store.validate_secret("api_key", "key123"));

    let err = store.rotate_secret("nonexistent", "value".to_string()).unwrap_err();
    assert_eq!(err.message(), "Secret 'nonexistent' not found");

    store.add_secret("api_key".to_string(), "fresh".to_string());
    assert!(!store.validate_secret("api_key", "new_key789"));
}

#[test]
fn redaction_and_review_on_lowered_keys() {
    assert_eq!(SecretsManager::redact_lowered("db_password", "hunter22"), "hu...22");
    assert_eq!(SecretsManager::redact_lowered("DB_PASSWORD", "hunter22"), "hunter22");
    assert_eq!(SecretsManager::review_lowered("api_key", "changeme"), SecretFinding::Placeholder);
    assert_eq!(SecretsManager::review_lowered("API_KEY", "changeme"), SecretFinding::NotSecret);
}
