use ctrader_rs::client::endpoint::{Encoding, Endpoints};
use ctrader_rs::text::decimal_text;
use ctrader_rs::error::CTraderError;
use ctrader_rs::types::{Auth, TokenResponse};

fn auth() -> Auth {
    Auth::new(
        "id-123".to_string(),
        "access".to_string(),
        "secret-456".to_string(),
        "https://example.org/cb".to_string(),
        "refresh".to_string(),
    )
}

#[test]
fn resolve_covers_the_table() {
    assert_eq!(Endpoints::resolve(true, Encoding::Protobuf), "wss://demo.ctraderapi.com:5035");
    assert_eq!(Endpoints::resolve(true, Encoding::Json), "wss://demo.ctraderapi.com:5036");
    assert_eq!(Endpoints::resolve(false, Encoding::Protobuf), "wss://live.ctraderapi.com:5035");
    assert_eq!(Endpoints::resolve(false, Encoding::Json), "wss://live.ctraderapi.com:5036");
}

#[test]
fn endpoint_constants() {
    assert_eq!(Endpoints::AUTH_URI, "https://openapi.ctrader.com/apps/auth");
    assert_eq!(Endpoints::TOKEN_URI, "https://openapi.ctrader.com/apps/token");
    assert_eq!(Endpoints::DEMO_HOST_URI, "https://demo.ctraderapi.com");
    assert_eq!(Endpoints::DEMO_HOST_WS_URI, "wss://demo.ctraderapi.com");
    assert_eq!(Endpoints::LIVE_HOST_WS_URI, "wss://live.ctraderapi.com");
    assert_eq!(Endpoints::LIVE_HOST_URI, "https://live.ctraderapi.com");
    assert_eq!(Endpoints::JSON_PORT, 5036);
    assert_eq!(Endpoints::PROTOBUF_PORT, 5035);
}

#[test]
fn decimal_text_writes_numbers() {
    assert_eq!(decimal_text(0), "0");
    assert_eq!(decimal_text(9), "9");
    assert_eq!(decimal_text(10), "10");
    assert_eq!(decimal_text(5035), "5035");
    assert_eq!(decimal_text(1_000_000), "1000000");
    assert_eq!(decimal_text(u64::MAX), "18446744073709551615");
}

#[test]
fn auth_new_keeps_each_credential_in_its_field() {
    let auth = auth();
    assert_eq!(auth.ctrader_client_id, "id-123");
    assert_eq!(auth.ctrader_access_token, "access");
    assert_eq!(auth.ctrader_client_secret, "secret-456");
    assert_eq!(auth.ctrader_redirect_url, "https://example.org/cb");
    assert_eq!(auth.ctrader_refresh_token, "refresh");
}

#[test]
fn auth_uri() {
    let uri = auth().get_auth_uri().unwrap();
    assert_eq!(
        uri,
        "https://openapi.ctrader.com/apps/auth?client_id=id-123&redirect_uri=https://example.org/cb&scope=trading"
    );
}

#[test]
fn token_uri() {
    let uri = auth().get_token_uri("code-9");
    assert_eq!(
        uri,
        "https://openapi.ctrader.com/apps/token?grant_type=authorization_code&code=code-9&redirect_uri=https://example.org/cb&client_id=id-123&client_secret=secret-456"
    );
}

#[test]
fn refresh_token_uri() {
    let uri = auth().refresh_token_uri("r-1");
    assert_eq!(
        uri,
        "https://openapi.ctrader.com/apps/token?grant_type=refresh_token&refresh_token=r-1&client_id=id-123&client_secret=secret-456"
    );
}

#[test]
fn auth_uri_of_empty_credentials() {
    let auth = Auth::new(String::new(), String::new(), String::new(), String::new(), String::new());
    assert_eq!(
        auth.get_auth_uri().unwrap(),
        "https://openapi.ctrader.com/apps/auth?client_id=&redirect_uri=&scope=trading"
    );
}

#[test]
fn a_failed_token_exchange_is_an_http_error() {
    assert!(matches!(Auth::token_result(Ok(TokenResponse)), Ok(TokenResponse)));
    match Auth::token_result(Err("connection refused".to_string())) {
        Err(CTraderError::HttpRequest(reason)) => assert_eq!(reason, "connection refused"),
        other => panic!("not an HTTP error: {:?}", other),
    }
}
