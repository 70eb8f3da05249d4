use std::time::Duration;

use doh_resolver::config::Config;
use doh_resolver::transport::{error_for_status, HttpsClient};

#[test]
fn test_https_client_keeps_timeout() {
    let client = HttpsClient::new(Duration::from_secs(5));
    assert_eq!(client.timeout, Duration::from_secs(5));
}

#[test]
fn test_error_for_status_ok() {
    assert!(error_for_status(200, String::from("ignored")).is_none());
}

#[test]
fn test_error_for_status_bad_request() {
    let e = error_for_status(400, String::from("ignored")).unwrap();
    assert_eq!(e.code, 400);
    assert_eq!(e.message, "DNS query not specified or too small.");
}

#[test]
fn test_error_for_status_payload_too_large() {
    let e = error_for_status(413, String::from("ignored")).unwrap();
    assert_eq!(e.code, 413);
    assert_eq!(
        e.message,
        "DNS query is larger than maximum allowed DNS message size."
    );
}

#[test]
fn test_error_for_status_passthrough() {
    let e = error_for_status(502, String::from("bad gateway body")).unwrap();
    assert_eq!(e.code, 502);
    assert_eq!(e.message, "bad gateway body");
}

#[test]
fn test_config_holds_plain_values() {
    let config = Config {
        server: String::from("cloudflare"),
        timeout: 10000,
        retries: 3,
        rtype: String::from("A"),
        fmt: String::from("default"),
        xdb_filepath: None,
        domain: String::from("example.com"),
    };
    assert_eq!(config.server, "cloudflare");
    assert_eq!(config.retries, 3);
    assert_eq!(config.domain, "example.com");
}
