use splinter_registry::oauth::{OAuthClientConfigurationError, OAuthClientError};

#[test]
fn oauth_client_error_carries_its_message() {
    let error = OAuthClientError::new("token endpoint unreachable");
    assert_eq!(
        error.to_string(),
        "OAuth client encountered an unrecoverable error: token endpoint unreachable"
    );
    assert_eq!(error, OAuthClientError::new("token endpoint unreachable"));
    assert_ne!(error, OAuthClientError::new("token endpoint"));
}

#[test]
fn oauth_client_error_with_empty_message() {
    assert_eq!(
        OAuthClientError::new("").to_string(),
        "OAuth client encountered an unrecoverable error: "
    );
}

#[test]
fn oauth_configuration_error_names_the_url() {
    assert_eq!(
        OAuthClientConfigurationError::InvalidAuthUrl("no scheme".to_string()).to_string(),
        "provided authorization URL is invalid: no scheme"
    );
    assert_eq!(
        OAuthClientConfigurationError::InvalidRedirectUrl("no host".to_string()).to_string(),
        "client redirect URL is invalid: no host"
    );
    assert_eq!(
        OAuthClientConfigurationError::InvalidTokenUrl("empty".to_string()).to_string(),
        "provided token URL is invalid: empty"
    );
}
