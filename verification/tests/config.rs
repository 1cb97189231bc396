use blue_jacket::secret::SecretToken;
use blue_jacket::tradier::{ConfigError, TradierRestApiConfig};
use blue_jacket::tradier::{access_token_var, default_endpoint};

#[test]
fn new_config_with_custom_endpoint() {
    // Directly create a new config without relying on environment variables
    let config = TradierRestApiConfig::new(
        "https://api.tradier.com/v1/".to_string(),
        SecretToken::wrap("test_token".to_string()),
    );

    // Assert the custom endpoint is set correctly
    assert_eq!(config.endpoint, "https://api.tradier.com/v1/");
    assert_eq!(config.access_token.expose_secret(), "test_token");
}

#[test]
fn dynamic_endpoint_conversion() {
    // Load the default configuration as if the variable held "test_token"
    let mut config = TradierRestApiConfig::load_from_env(Some("test_token".to_string()))
        .expect("Failed to load config");

    // Update endpoint to a dynamically allocated string
    let dynamic_endpoint = "https://api.tradier.com/v1/".to_string();
    config.endpoint = dynamic_endpoint.clone();

    // Assert the endpoint matches the new dynamic string
    assert_eq!(config.endpoint, dynamic_endpoint);
}

#[test]
fn load_from_env_success() {
    // Load configuration as if the variable held "integration_test_token"
    let config =
        TradierRestApiConfig::load_from_env(Some("integration_test_token".to_string()))
            .expect("Failed to load config");

    // Assert that the default endpoint is the expected sandbox URL
    assert_eq!(config.endpoint, "https://sandbox.tradier.com/v1/");
    assert_eq!(config.access_token.expose_secret(), "integration_test_token");
}

#[test]
fn load_from_env_missing_credential() {
    let result = TradierRestApiConfig::load_from_env(None);
    let err = result.expect_err("a missing variable must fail the load");
    assert_eq!(err, ConfigError::MissingCredential);

    // The error names the variable but never echoes credential contents.
    let message = err.message();
    assert!(message.contains("TRADIER_API_ACCESS_TOKEN"));
    assert_eq!(message, "missing environment variable TRADIER_API_ACCESS_TOKEN");
}

#[test]
fn load_from_env_empty_value() {
    // An empty value cannot satisfy the credential invariant: it counts
    // as missing.
    let result = TradierRestApiConfig::load_from_env(Some(String::new()));
    let err = result.expect_err("an empty value must fail the load");
    assert_eq!(err, ConfigError::MissingCredential);
}

#[test]
fn round_trip_from_parts() {
    let config = TradierRestApiConfig::new(
        "https://example.test/base/".to_string(),
        SecretToken::wrap("s3cr3t-value".to_string()),
    );
    assert_eq!(config.endpoint, "https://example.test/base/");
    assert_eq!(config.access_token.expose_secret(), "s3cr3t-value");
}

#[test]
fn debug_output_never_contains_token() {
    let token = SecretToken::wrap("test_token".to_string());
    let shown = token.debug_text();
    assert_eq!(shown, "SecretBox<str>([REDACTED])");
    assert!(!shown.contains("test_token"));

    // The derived debug form of the whole config goes through the same
    // redaction.
    let config = TradierRestApiConfig::new(
        "https://sandbox.tradier.com/v1/".to_string(),
        token,
    );
    let dumped = format!("{:?}", config);
    assert!(!dumped.contains("test_token"));
    assert!(dumped.contains("REDACTED"));
}

#[test]
fn debug_output_same_for_marker_like_token() {
    // A token that coincides with a common debug marker gets the same
    // fixed text as any other token.
    let marker_like = SecretToken::wrap("redacted".to_string());
    let ordinary = SecretToken::wrap("test_token".to_string());
    assert_eq!(marker_like.debug_text(), ordinary.debug_text());
    assert!(!marker_like.debug_text().contains("redacted"));
}

#[test]
fn set_endpoint_keeps_credential() {
    let mut config = TradierRestApiConfig::new(
        default_endpoint(),
        SecretToken::wrap("test_token".to_string()),
    );
    assert_eq!(config.endpoint, "https://sandbox.tradier.com/v1/");

    config.set_endpoint("https://api.tradier.com/v1/".to_string());
    assert_eq!(config.endpoint, "https://api.tradier.com/v1/");
    assert_eq!(config.access_token.expose_secret(), "test_token");
}

#[test]
fn named_constants() {
    assert_eq!(default_endpoint(), "https://sandbox.tradier.com/v1/");
    assert_eq!(access_token_var(), "TRADIER_API_ACCESS_TOKEN");
}
