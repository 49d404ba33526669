use rust_of_clans::client::{authorization_text, classify_status, CoCClient, ResponseClass};
use rust_of_clans::errors::CoCClientError;

#[test]
fn new_coc_client() {
    let bearer_token = String::from("MY_BEARER_TOKEN");

    let base_url = String::from("https://api.clashofclans.com");

    let version = String::from("v1");

    let url = String::from("https://api.clashofclans.com/v1");

    let coc_client = CoCClient::new(bearer_token, None);

    assert_eq!(coc_client.bearer_token, String::from("MY_BEARER_TOKEN"));

    assert_eq!(coc_client.base_url, base_url);

    assert_eq!(coc_client.version, version);

    assert_eq!(coc_client.url, url);

    assert!(coc_client.client.is_some())
}

#[test]
fn new_client_keeps_a_given_http_client() {
    let http = reqwest::Client::new();
    let coc_client = CoCClient::new(String::from("token\nwith a line break"), Some(http));
    assert!(coc_client.client.is_some());
    assert_eq!(coc_client.url, "https://api.clashofclans.com/v1");
}

#[test]
fn new_client_accepts_tab_and_non_ascii_in_token() {
    let coc_client = CoCClient::new(String::from("a\tb-é"), None);
    assert!(coc_client.client.is_some());
}

#[test]
fn success_status() {
    assert_eq!(classify_status(200), ResponseClass::Success);
}

#[test]
fn client_failure_statuses() {
    for code in [400u16, 401, 402, 403, 404, 405, 418, 429, 499] {
        assert_eq!(classify_status(code), ResponseClass::ClientFailure);
    }
}

#[test]
fn server_failure_statuses() {
    for code in [500u16, 501, 502, 503, 504, 599] {
        assert_eq!(classify_status(code), ResponseClass::ServerFailure);
    }
}

#[test]
fn other_statuses_are_unexpected() {
    for code in [0u16, 100, 199, 201, 204, 301, 399, 600, 65535] {
        assert_eq!(classify_status(code), ResponseClass::Unexpected);
    }
}

#[test]
fn take_client_reports_a_missing_http_client() {
    let mut coc_client = CoCClient::new(String::from("MY_BEARER_TOKEN"), None);
    coc_client.client = None;
    assert!(matches!(coc_client.take_client(), Err(CoCClientError::MissingClientError)));
    let with_client = CoCClient::new(String::from("MY_BEARER_TOKEN"), Some(reqwest::Client::new()));
    assert!(with_client.take_client().is_ok());
}

#[test]
fn authorization_text_is_bearer_and_token() {
    assert_eq!(authorization_text("MY_BEARER_TOKEN"), "Bearer MY_BEARER_TOKEN");
    assert_eq!(authorization_text(""), "Bearer ");
}
