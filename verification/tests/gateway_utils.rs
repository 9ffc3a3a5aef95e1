use flarecord::gateway::utils::{
    can_resume, classify_close_code, is_private_hostname, is_private_ipv4, is_private_ipv6,
    to_http_url,
};
use flarecord::gateway::state::{GatewayState, ReconnectStrategy};

#[test]
fn private_hostnames() {
    assert!(is_private_hostname("localhost"));
    assert!(is_private_hostname("LOCALHOST"));
    assert!(is_private_hostname("api.localhost"));
    assert!(is_private_hostname("printer.local"));
    assert!(is_private_hostname("10.1.2.3"));
    assert!(is_private_hostname("192.168.0.1"));
    assert!(is_private_hostname("::1"));
    assert!(is_private_hostname("FE80::1"));
    assert!(!is_private_hostname("discord.com"));
    assert!(!is_private_hostname("8.8.8.8"));
    assert!(!is_private_hostname(""));
}

#[test]
fn private_ipv4_ranges() {
    assert!(is_private_ipv4("0.0.0.0"));
    assert!(is_private_ipv4("127.0.0.1"));
    assert!(is_private_ipv4("169.254.1.1"));
    assert!(!is_private_ipv4("169.253.1.1"));
    assert!(is_private_ipv4("172.16.0.1"));
    assert!(is_private_ipv4("172.31.255.255"));
    assert!(!is_private_ipv4("172.32.0.1"));
    assert!(!is_private_ipv4("172.15.0.1"));
    assert!(is_private_ipv4("+10.0.0.1"));
    assert!(is_private_ipv4("010.0.0.1"));
    assert!(!is_private_ipv4("10.0.0"));
    assert!(!is_private_ipv4("10.0.0.1.5"));
    assert!(!is_private_ipv4("10.0.0.256"));
    assert!(!is_private_ipv4("10.0.0.-1"));
    assert!(!is_private_ipv4("10..0.1"));
}

#[test]
fn private_ipv6_ranges() {
    assert!(is_private_ipv6("::"));
    assert!(is_private_ipv6("fc00::1"));
    assert!(is_private_ipv6("FD12::1"));
    assert!(is_private_ipv6("fe80::1"));
    assert!(is_private_ipv6("feb0::1"));
    assert!(!is_private_ipv6("fec0::1"));
    assert!(is_private_ipv6("::ffff:192.168.1.1"));
    assert!(!is_private_ipv6("::ffff:8.8.8.8"));
    assert!(!is_private_ipv6("2001:db8::1"));
}

#[test]
fn http_urls() {
    assert_eq!(to_http_url("wss://gateway.discord.gg"), "https://gateway.discord.gg");
    assert_eq!(to_http_url("ws://localhost:8080"), "http://localhost:8080");
    assert_eq!(to_http_url("https://example.com"), "https://example.com");
    assert_eq!(to_http_url("wss:/x"), "wss:/x");
}

#[test]
fn close_codes() {
    let c = classify_close_code(4004);
    assert!(!c.should_reconnect && !c.can_resume);
    let c = classify_close_code(4007);
    assert!(c.should_reconnect && !c.can_resume);
    let c = classify_close_code(1000);
    assert!(c.should_reconnect && c.can_resume);
    let c = classify_close_code(4014);
    assert!(!c.should_reconnect);
}

#[test]
fn resume_needs_session_and_sequence() {
    let mut s = GatewayState::default();
    assert!(!can_resume(&s));
    s.session_id = Some("abc".to_string());
    assert!(!can_resume(&s));
    s.sequence = Some(3);
    assert!(can_resume(&s));
    s.reconnect_strategy = ReconnectStrategy::IdentifyOnly;
    assert!(!can_resume(&s));
}
