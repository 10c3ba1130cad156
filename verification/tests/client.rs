use sanity_rs::client::{RequestPayload, SanityClient};
use sanity_rs::config::SanityConfig;
use sanity_rs::create_client;

#[test]
fn config_defaults() {
    let config = SanityConfig::new("abc123".to_string(), "production".to_string());
    assert_eq!(config.project_id, "abc123");
    assert_eq!(config.dataset, "production");
    assert!(!config.use_cdn);
    assert!(config.token.is_none());
    assert!(config.api_host.is_none());
    assert!(config.api_version.is_none());
    assert!(config.timeout.is_none());
    assert!(config.max_retries.is_none());
}

#[test]
fn payload_default_and_set_body() {
    let mut payload = RequestPayload::default();
    assert_eq!(payload.query.as_str(), "https://api.sanity.io");
    assert!(payload.body.is_none());
    assert!(payload.query_result.is_none());
    payload.set_body("{_id}");
    assert_eq!(payload.body.as_deref(), Some("{_id}"));
}

#[test]
fn client_builds_endpoint_from_config() {
    let config = SanityConfig::new("abc123".to_string(), "production".to_string());
    let client = SanityClient::new(config).unwrap();
    assert_eq!(
        client.payload.query.as_str(),
        "https://abc123.api.sanity.io/v2022-03-07/data/query/production"
    );
}

#[test]
fn client_rejects_unusable_project_id() {
    let config = SanityConfig::new("not a host".to_string(), "production".to_string());
    assert!(matches!(
        SanityClient::new(config),
        Err(sanity_rs::error::RequestError::URLParsingError(_))
    ));
}

#[test]
fn get_by_id_installs_encoded_query() {
    let config = SanityConfig::new("abc123".to_string(), "production".to_string());
    let mut client = create_client(config);
    client.get_by_id("09139a58-311b-4779-8fa4-723f19242a8e");
    assert_eq!(
        client.payload.query.as_str(),
        "https://abc123.api.sanity.io/v2022-03-07/data/query/production?query=*[_id%20==%20%2709139a58-311b-4779-8fa4-723f19242a8e%27]"
    );
}

#[test]
fn body_is_kept_for_later_sends() {
    let config = SanityConfig::new("abc123".to_string(), "production".to_string());
    let mut client = create_client(config);
    client.body("{_id,_createdAt}");
    assert_eq!(client.payload.body.as_deref(), Some("{_id,_createdAt}"));
}
