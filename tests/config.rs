use midtransclient::config::{
    CORE_PRODUCTION_BASE_URL, CORE_SANDBOX_BASE_URL, SNAP_PRODUCTION_BASE_URL, SNAP_SANDBOX_BASE_URL,
};
use midtransclient::ApiConfig;
use reqwest::header;

#[test]
fn config_build() {
    let server_key = String::from("secret_key");
    let config = ApiConfig::new(false, server_key).build();
    assert_eq!(config.is_production, false);
    assert_eq!(config.server_key, "secret_key");
    assert_eq!(config.client_key, "");
    assert!(config.custom_headers.is_none());
    assert!(config.proxies.is_none());
}

#[test]
fn display() {
    let server_key = String::from("secret_key");
    let config = ApiConfig::new(false, server_key).build();
    assert_eq!(config.to_string(), "<ApiConfig(false,secret_key,,None,None)>");
}

#[test]
fn get_core_api_base_url() {
    let server_key = String::from("secret_key");
    let mut config = ApiConfig::new(false, server_key).build();
    assert_eq!(config.get_core_api_base_url(), CORE_SANDBOX_BASE_URL);
    config.set_is_production(true);
    assert_eq!(config.get_core_api_base_url(), CORE_PRODUCTION_BASE_URL);
}

#[test]
fn get_snap_base_url() {
    let server_key = String::from("secret_key");
    let mut config = ApiConfig::new(false, server_key).build();
    assert_eq!(config.get_snap_base_url(), SNAP_SANDBOX_BASE_URL);
    config.set_is_production(true);
    assert_eq!(config.get_snap_base_url(), SNAP_PRODUCTION_BASE_URL);
}

#[test]
fn base_urls_are_the_four_origins() {
    assert_eq!(CORE_SANDBOX_BASE_URL, "https://api.sandbox.midtrans.com");
    assert_eq!(CORE_PRODUCTION_BASE_URL, "https://api.midtrans.com");
    assert_eq!(SNAP_SANDBOX_BASE_URL, "https://app.sandbox.midtrans.com");
    assert_eq!(SNAP_PRODUCTION_BASE_URL, "https://app.midtrans.com");
}

#[test]
fn get_is_production() {
    let server_key = String::from("secret_key");
    let config = ApiConfig::new(false, server_key).build();
    assert_eq!(config.get_is_production(), false);
}

#[test]
fn set_is_production() {
    let server_key = String::from("secret_key");
    let mut config = ApiConfig::new(false, server_key).build();
    config.set_is_production(true);
    assert_eq!(config.get_is_production(), true);
}

#[test]
fn get_server_key() {
    let server_key = String::from("secret_key");
    let config = ApiConfig::new(false, server_key).build();
    assert_eq!(config.get_server_key(), "secret_key");
}

#[test]
fn set_server_key() {
    let server_key = String::from("secret_key");
    let mut config = ApiConfig::new(false, server_key).build();
    config.set_server_key("key_secret".to_string());
    assert_eq!(config.get_server_key(), "key_secret");
}

#[test]
fn get_client_key() {
    let server_key = String::from("secret_key");
    let config = ApiConfig::new(false, server_key).build();
    assert_eq!(config.get_client_key(), "");
}

#[test]
fn set_client_key() {
    let server_key = String::from("secret_key");
    let mut config = ApiConfig::new(false, server_key).build();
    config.set_client_key("client_key".to_string());
    assert_eq!(config.get_client_key(), "client_key");
}

#[test]
fn get_custom_headers() {
    let server_key = String::from("secret_key");
    let config = ApiConfig::new(false, server_key).build();
    assert!(config.get_custom_headers().is_none());
}

#[test]
fn set_custom_headers() {
    let server_key = String::from("secret_key");
    let mut config = ApiConfig::new(false, server_key).build();
    let mut headers = header::HeaderMap::new();
    headers.insert("X-Custom-Header", header::HeaderValue::from_static("Some Value"));
    config.set_custom_headers(headers.clone());
    assert_eq!(config.get_custom_headers().clone().unwrap(), headers);
}

#[test]
fn get_proxies() {
    let server_key = String::from("secret_key");
    let config = ApiConfig::new(false, server_key).build();
    assert!(config.get_proxies().is_none());
}

#[test]
fn set_proxies() {
    let server_key = String::from("secret_key");
    let mut config = ApiConfig::new(false, server_key).build();
    let proxies = reqwest::Proxy::http("https://secure.example").unwrap();
    config.set_proxies(proxies.clone());
}

#[test]
fn builder_keeps_client_key_headers_and_proxy() {
    let mut headers = header::HeaderMap::new();
    headers.insert("X-Custom-Header", header::HeaderValue::from_static("Some Value"));
    let proxies = reqwest::Proxy::http("https://secure.example").unwrap();
    let config = ApiConfig::new(true, "secret_key".to_string())
        .client_key("client_key".to_string())
        .custom_header(headers.clone())
        .proxies(proxies)
        .build();
    assert_eq!(config.is_production, true);
    assert_eq!(config.client_key, "client_key");
    assert_eq!(config.custom_headers, Some(headers));
    assert!(config.proxies.is_some());
}
