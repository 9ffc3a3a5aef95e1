use flarecord::gateway::credentials::GatewayCredentials;
use flarecord::gateway::endpoint::{
    bot_authorization, gateway_info_from_body, gateway_status_error, websocket_refused,
    websocket_request_url,
};
use flarecord::gateway::utils::{GatewayBotResponse, GatewayError, SessionStartLimit};
use flarecord::gateway::webhook::{
    forward_again, forward_outcome, forward_target, validate_credentials, ForwardNext,
};
use flarecord::text::decimal_text;

fn with_webhook(url: &str) -> GatewayCredentials {
    GatewayCredentials {
        bot_token: "tok".to_string(),
        webhook_url: Some(url.to_string()),
        webhook_secret: None,
    }
}

#[test]
fn webhook_urls_are_checked() {
    assert!(validate_credentials(&with_webhook("https://hooks.example.com/x")).is_ok());
    assert_eq!(
        validate_credentials(&with_webhook("not a url")).unwrap_err(),
        "webhookUrl must be a valid URL"
    );
    assert_eq!(
        validate_credentials(&with_webhook("http://hooks.example.com")).unwrap_err(),
        "webhookUrl must use HTTPS"
    );
    assert_eq!(
        validate_credentials(&with_webhook("https://user:pw@hooks.example.com")).unwrap_err(),
        "webhookUrl must not contain credentials"
    );
    assert_eq!(
        validate_credentials(&with_webhook("https://user@hooks.example.com")).unwrap_err(),
        "webhookUrl must not contain credentials"
    );
    assert_eq!(
        validate_credentials(&with_webhook("https://localhost/x")).unwrap_err(),
        "webhookUrl host must be publicly routable"
    );
    assert_eq!(
        validate_credentials(&with_webhook("https://192.168.1.2/x")).unwrap_err(),
        "webhookUrl host must be publicly routable"
    );
    let no_token = GatewayCredentials { bot_token: String::new(), webhook_url: None, webhook_secret: None };
    assert_eq!(validate_credentials(&no_token).unwrap_err(), "Bot Token is required");
}

#[test]
fn forward_targets() {
    assert!(forward_target(None).is_none());
    let mut c = with_webhook("https://h.example");
    let (url, token) = forward_target(Some(&c)).unwrap();
    assert_eq!(url, "https://h.example");
    assert_eq!(token, "tok");
    c.webhook_secret = Some("s3".to_string());
    assert_eq!(forward_target(Some(&c)).unwrap().1, "s3");
    c.webhook_url = None;
    assert!(forward_target(Some(&c)).is_none());
}

#[test]
fn forward_outcomes() {
    assert_eq!(forward_outcome(Some(204)), ForwardNext::Delivered);
    assert_eq!(forward_outcome(Some(404)), ForwardNext::GiveUp);
    assert_eq!(forward_outcome(Some(500)), ForwardNext::Retry);
    assert_eq!(forward_outcome(Some(301)), ForwardNext::Retry);
    assert_eq!(forward_outcome(None), ForwardNext::Retry);
}

#[test]
fn gateway_endpoint_answers() {
    assert!(gateway_status_error(200).is_none());
    match gateway_status_error(404) {
        Some(GatewayError::Api(msg, retryable, status)) => {
            assert_eq!(msg, "GET /gateway/bot failed (404)");
            assert!(!retryable);
            assert_eq!(status, 404);
        },
        _ => panic!(),
    }
    for status in [408u16, 429, 500, 503] {
        assert!(matches!(gateway_status_error(status), Some(GatewayError::Api(_, true, _))));
    }
    let limit = SessionStartLimit { total: 1, remaining: 1, reset_after: 2, max_concurrency: 1 };
    let empty = GatewayBotResponse { url: String::new(), shards: 1, session_start_limit: limit };
    match gateway_info_from_body(Ok(empty)) {
        Err(GatewayError::Api(msg, true, 200)) => assert_eq!(msg, "GET /gateway/bot returned no URL"),
        _ => panic!(),
    }
    match gateway_info_from_body(Err("eof".to_string())) {
        Err(GatewayError::Network(msg)) => assert_eq!(msg, "Failed to parse JSON: eof"),
        _ => panic!(),
    }
    let good = GatewayBotResponse { url: "wss://g".to_string(), shards: 1, session_start_limit: limit };
    let info = gateway_info_from_body(Ok(good)).ok().unwrap();
    assert_eq!(info.url, "wss://g");
    assert_eq!(info.session_start_limit.reset_after, 2);
    assert_eq!(bot_authorization("abc"), "Bot abc");
}

#[test]
fn socket_upgrade() {
    assert_eq!(
        websocket_request_url("wss://gateway.discord.gg"),
        "https://gateway.discord.gg?v=10&encoding=json"
    );
    let e = websocket_refused(404);
    assert_eq!(e.error, "failed to connect (404)");
    assert!(!e.retryable);
    assert!(websocket_refused(0).retryable);
    assert!(websocket_refused(429).retryable);
    assert!(websocket_refused(502).retryable);
}

#[test]
fn decimals() {
    assert_eq!(decimal_text(0), "0");
    assert_eq!(decimal_text(7), "7");
    assert_eq!(decimal_text(10), "10");
    assert_eq!(decimal_text(65535), "65535");
    assert_eq!(decimal_text(u64::MAX), u64::MAX.to_string());
}

#[test]
fn forward_attempts() {
    assert!(forward_again(0, ForwardNext::Retry));
    assert!(!forward_again(1, ForwardNext::Retry));
    assert!(!forward_again(0, ForwardNext::Delivered));
    assert!(!forward_again(0, ForwardNext::GiveUp));
    assert!(!forward_again(255, ForwardNext::Retry));
}
