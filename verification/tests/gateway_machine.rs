use flarecord::gateway::credentials::GatewayCredentials;
use flarecord::gateway::effect::{GatewayEffect, GatewayMemory};
use flarecord::gateway::machine::{
    alarm, alarm_would_count, close_would_count, handle_gateway_frame, connect_after_gateway_info, connect_after_open, connect_begin, connect_request,
    disconnect, handle_gateway_text, handle_reconnect, handle_websocket_close,
    handle_websocket_error, identify_or_resume, reconnect_with_backoff, reconnect_with_min_delay,
    stop_reconnecting, ConnectStep, Moment,
};
use flarecord::gateway::state::{GatewayState, ReconnectStrategy};
use flarecord::gateway::status::{gateway_status, is_already_connected, Status};
use flarecord::gateway::utils::{
    GatewayError, GatewayInfo, OpenWebSocketError, ReconnectOptions, SessionStartLimit,
};

fn at(now: u64, random: u32) -> Moment {
    Moment { now, random }
}

fn creds(token: &str) -> GatewayCredentials {
    GatewayCredentials { bot_token: token.to_string(), webhook_url: None, webhook_secret: None }
}

fn resumable_state() -> GatewayState {
    let mut s = GatewayState::default();
    s.session_id = Some("sess".to_string());
    s.sequence = Some(42);
    s.ws_url = Some("wss://gateway.discord.gg".to_string());
    s
}

fn saved(e: &GatewayEffect) -> &GatewayState {
    match e {
        GatewayEffect::SaveState(s) => s,
        other => panic!("expected a saved state, got {:?}", other),
    }
}

fn alarm_at(e: &GatewayEffect) -> u64 {
    match e {
        GatewayEffect::SetAlarm(t) => *t,
        other => panic!("expected an alarm, got {:?}", other),
    }
}

#[test]
fn backoff_doubles_and_caps() {
    let mut s = resumable_state();
    let e = reconnect_with_backoff(&s, None, false, at(1_000_000, 500_000));
    assert_eq!(e.len(), 2);
    let n = saved(&e[0]);
    assert_eq!(n.reconnect_attempts, 1);
    assert!(n.ws_url.is_none() && n.heartbeat_interval_ms.is_none());
    assert_eq!(alarm_at(&e[1]), 1_000_000 + 2000 + 500);

    s.reconnect_attempts = 4;
    let e = reconnect_with_backoff(&s, None, false, at(0, 0));
    assert_eq!(alarm_at(&e[1]), 32_000);
    s.reconnect_attempts = 5;
    let e = reconnect_with_backoff(&s, None, false, at(0, 999_999));
    assert_eq!(alarm_at(&e[1]), 60_000 + 999);
    s.reconnect_attempts = 100;
    let e = reconnect_with_backoff(&s, None, false, at(0, 0));
    assert_eq!(alarm_at(&e[1]), 60_000);
    s.reconnect_attempts = 0x7fff_fffe;
    let e = reconnect_with_backoff(&s, None, false, at(0, 0));
    assert_eq!(alarm_at(&e[1]), 60_000);
}

#[test]
fn backoff_past_the_signed_range() {
    // From attempt 2^31 on, the exponent read as a signed number is negative.
    let mut s = resumable_state();
    s.reconnect_attempts = 0xffff_fffe;
    let e = reconnect_with_backoff(&s, None, false, at(1000, 0));
    assert_eq!(saved(&e[0]).reconnect_attempts, u32::MAX);
    assert_eq!(alarm_at(&e[1]), 1000 + 500);
    s.reconnect_attempts = 0xffff_fffb;
    let e = reconnect_with_backoff(&s, None, false, at(1000, 2_000));
    assert_eq!(alarm_at(&e[1]), 1000 + 64);
    // 1000 / 16 + 0.999 = 63.499: the sum is rounded down as a whole.
    let e = reconnect_with_backoff(&s, None, false, at(1000, 999));
    assert_eq!(alarm_at(&e[1]), 1000 + 63);
    s.reconnect_attempts = 0x7fff_ffff;
    let e = reconnect_with_backoff(&s, None, false, at(1000, 999_999));
    assert_eq!(alarm_at(&e[1]), 1000 + 999);
}

#[test]
fn backoff_closes_socket_and_applies_options() {
    let s = resumable_state();
    let opts = ReconnectOptions {
        strategy: Some(ReconnectStrategy::IdentifyOnly),
        clear_session: true,
        reason: None,
    };
    let e = reconnect_with_backoff(&s, Some(opts), true, at(10, 0));
    assert_eq!(e.len(), 4);
    let n = saved(&e[0]);
    assert_eq!(n.reconnect_strategy, ReconnectStrategy::IdentifyOnly);
    assert!(n.session_id.is_none() && n.sequence.is_none());
    assert!(matches!(e[1], GatewayEffect::SetReconnectPlanned(true)));
    assert!(matches!(&e[2], GatewayEffect::CloseSocket(4000, r) if r == "reconnecting"));
    assert_eq!(alarm_at(&e[3]), 2010);
}

#[test]
fn prompt_reconnect_keeps_attempts() {
    let mut s = resumable_state();
    s.reconnect_attempts = 3;
    let e = reconnect_with_min_delay(&s, None, false, at(500, 0));
    assert_eq!(saved(&e[0]).reconnect_attempts, 3);
    assert!(saved(&e[0]).ws_url.is_none());
    assert_eq!(alarm_at(&e[1]), 1500);
}

#[test]
fn stop_after_terminal_code_drops_session() {
    let s = resumable_state();
    let e = stop_reconnecting(&s, 4004);
    assert!(matches!(e[0], GatewayEffect::SetReconnectDisabled(true)));
    let n = saved(&e[1]);
    assert!(n.reconnect_disabled);
    assert!(n.session_id.is_none());
    assert_eq!(n.reconnect_strategy, ReconnectStrategy::IdentifyOnly);
    assert!(matches!(e[2], GatewayEffect::DeleteAlarm));
}

#[test]
fn login_resumes_or_identifies() {
    let c = creds("tok");
    let s = resumable_state();
    let (e, err) = identify_or_resume(&s, false, Some(&c), at(0, 0));
    assert!(e.is_empty() && err.is_none());
    let (e, err) = identify_or_resume(&s, true, None, at(0, 0));
    assert!(e.is_empty());
    assert_eq!(err.as_deref(), Some("Missing credentials"));
    let (e, _) = identify_or_resume(&s, true, Some(&c), at(0, 0));
    assert!(matches!(&e[0], GatewayEffect::SendResume(42, sid, t) if sid == "sess" && t == "tok"));

    let mut fresh = GatewayState::default();
    fresh.session_start_remaining = Some(3);
    fresh.reconnect_strategy = ReconnectStrategy::IdentifyOnly;
    let (e, _) = identify_or_resume(&fresh, true, Some(&c), at(0, 0));
    assert!(matches!(&e[0], GatewayEffect::SendIdentify(t) if t == "tok"));
    let n = saved(&e[1]);
    assert_eq!(n.session_start_remaining, Some(2));
    assert_eq!(n.reconnect_strategy, ReconnectStrategy::ResumeOrIdentify);
}

#[test]
fn login_waits_for_cooldown_and_session_starts() {
    let c = creds("tok");
    let mut s = GatewayState::default();
    s.identify_cooldown_until = Some(5000);
    let (e, _) = identify_or_resume(&s, true, Some(&c), at(1000, 0));
    assert_eq!(e.len(), 4);
    assert_eq!(saved(&e[0]).identify_cooldown_until, Some(5000));
    assert!(matches!(&e[2], GatewayEffect::CloseSocket(4000, r) if r == "identify cooldown"));
    assert_eq!(alarm_at(&e[3]), 6000);

    let mut s = GatewayState::default();
    s.session_start_remaining = Some(0);
    s.session_start_reset_after_ms = Some(7000);
    let (e, _) = identify_or_resume(&s, true, Some(&c), at(1000, 0));
    assert_eq!(saved(&e[0]).identify_cooldown_until, Some(8000));
    assert!(saved(&e[0]).ws_url.is_none());
    assert!(matches!(&e[2], GatewayEffect::CloseSocket(4000, r) if r == "session start limit exhausted"));
    assert_eq!(alarm_at(&e[3]), 9000);
}

fn memory() -> GatewayMemory {
    GatewayMemory::new()
}

#[test]
fn close_events() {
    let stored = Some(resumable_state());
    let mut mem = memory();
    mem.suppress_reconnect = true;
    let e = handle_websocket_close(1000, "bye", &stored, &mem, at(0, 0));
    assert_eq!(e.len(), 2);
    assert!(matches!(e[1], GatewayEffect::SetSuppressReconnect(false)));

    let mut mem = memory();
    mem.reconnect_planned = true;
    let e = handle_websocket_close(4000, "again", &stored, &mem, at(0, 0));
    assert!(matches!(e[1], GatewayEffect::SetReconnectPlanned(false)));
    assert_eq!(e.len(), 2);

    let mem = memory();
    let e = handle_websocket_close(4014, "intents", &stored, &mem, at(0, 0));
    assert!(matches!(e[0], GatewayEffect::ClearUpstream));
    assert!(matches!(e[1], GatewayEffect::SetReconnectDisabled(true)));
    assert!(saved(&e[3]).reconnect_disabled);

    let e = handle_websocket_close(4007, "bad seq", &stored, &mem, at(0, 0));
    let n = saved(&e[1]);
    assert!(n.session_id.is_none());
    assert_eq!(n.reconnect_strategy, ReconnectStrategy::IdentifyOnly);
    assert_eq!(n.reconnect_attempts, 1);

    let e = handle_websocket_close(1006, "abnormal", &stored, &mem, at(0, 0));
    let n = saved(&e[1]);
    assert_eq!(n.session_id.as_deref(), Some("sess"));
    assert_eq!(n.reconnect_strategy, ReconnectStrategy::ResumeOrIdentify);
}

#[test]
fn error_events() {
    let stored = None;
    let mut mem = memory();
    mem.reconnect_planned = true;
    let e = handle_websocket_error(&stored, &mem, at(0, 0));
    assert_eq!(e.len(), 1);
    let mem = memory();
    let e = handle_websocket_error(&stored, &mem, at(0, 0));
    assert_eq!(saved(&e[1]).reconnect_attempts, 1);
    assert_eq!(alarm_at(&e[2]), 2000);
}

#[test]
fn reconnect_requests_are_rate_limited() {
    let s = resumable_state();
    let mut mem = memory();
    mem.reconnect_timestamps = vec![1, 100_000, 100_001, 100_002, 100_003];
    let e = handle_reconnect(&s, &mem, at(120_000, 0));
    match &e[0] {
        GatewayEffect::SetReconnectTimestamps(ts) => {
            assert_eq!(ts, &vec![100_000, 100_001, 100_002, 100_003, 120_000])
        },
        other => panic!("{:?}", other),
    }
    assert_eq!(alarm_at(e.last().unwrap()), 121_000);

    mem.reconnect_timestamps = vec![100_000, 100_001, 100_002, 100_003, 100_004];
    let e = handle_reconnect(&s, &mem, at(120_000, 0));
    assert_eq!(saved(&e[1]).reconnect_attempts, 1);
    assert_eq!(alarm_at(e.last().unwrap()), 122_000);
}

#[test]
fn gateway_frames() {
    let stored = Some(resumable_state());
    let mut mem = memory();
    mem.upstream_open = true;
    let c = creds("tok");
    let f = handle_gateway_text("not json", &stored, &mem, Some(&c), at(0, 0));
    assert!(f.effects.is_empty() && f.error.is_none());

    let hello = r#"{"op":10,"d":{"heartbeat_interval":40000},"s":null,"t":null}"#;
    let f = handle_gateway_text(hello, &stored, &mem, Some(&c), at(1000, 500_000));
    assert!(f.error.is_none());
    assert_eq!(saved(&f.effects[0]).heartbeat_interval_ms, Some(40000));
    assert!(matches!(&f.effects[1], GatewayEffect::SendResume(42, _, _)));
    assert_eq!(alarm_at(&f.effects[2]), 1000 + 20000);

    let ack = r#"{"op":11,"d":null,"s":null,"t":null}"#;
    let f = handle_gateway_text(ack, &stored, &mem, Some(&c), at(77, 0));
    assert_eq!(saved(&f.effects[0]).last_heartbeat_ack, Some(77));

    let beat = r#"{"op":1,"d":null,"s":null,"t":null}"#;
    let f = handle_gateway_text(beat, &stored, &mem, Some(&c), at(0, 0));
    assert!(matches!(f.effects[0], GatewayEffect::SendHeartbeat(Some(42))));

    let resumed = r#"{"op":0,"t":"RESUMED","s":50,"d":{}}"#;
    let mut tired = resumable_state();
    tired.reconnect_attempts = 4;
    let f = handle_gateway_text(resumed, &Some(tired), &mem, Some(&c), at(0, 0));
    assert_eq!(saved(&f.effects[0]).sequence, Some(50));
    assert_eq!(saved(&f.effects[1]).reconnect_attempts, 0);

    let invalid = r#"{"op":9,"d":false,"s":null,"t":null}"#;
    let f = handle_gateway_text(invalid, &stored, &mem, Some(&c), at(0, 1_000_000 - 1));
    let n = saved(&f.effects[0]);
    assert!(n.session_id.is_none());
    assert_eq!(n.reconnect_strategy, ReconnectStrategy::IdentifyOnly);
    assert!(matches!(&f.effects[2], GatewayEffect::CloseSocket(4000, r) if r == "invalid session"));
    assert_eq!(alarm_at(&f.effects[3]), 1000 + 3999);

    let reconnect = r#"{"op":7,"d":null,"s":null,"t":null}"#;
    let f = handle_gateway_text(reconnect, &stored, &mem, Some(&c), at(0, 0));
    assert!(matches!(f.effects[0], GatewayEffect::SetReconnectTimestamps(_)));
    assert_eq!(alarm_at(f.effects.last().unwrap()), 1000);
}

#[test]
fn alarm_decisions() {
    let c = creds("tok");
    let mut mem = memory();
    mem.reconnect_disabled = true;
    let a = alarm(&Some(resumable_state()), &mem, Some(&c), at(0, 0));
    assert!(a.flow.effects.is_empty() && !a.then_connect);

    let mem = memory();
    let a = alarm(&None, &mem, Some(&c), at(0, 0));
    assert!(a.flow.effects.is_empty() && a.then_connect);
    let a = alarm(&None, &mem, None, at(0, 0));
    assert!(!a.then_connect);

    let mut s = resumable_state();
    s.reconnect_disabled = true;
    let a = alarm(&Some(s), &mem, Some(&c), at(0, 0));
    assert!(matches!(a.flow.effects[1], GatewayEffect::DeleteAlarm));

    let mut s = resumable_state();
    s.identify_cooldown_until = Some(500);
    let a = alarm(&Some(s), &mem, Some(&c), at(100, 0));
    assert_eq!(alarm_at(&a.flow.effects[0]), 600);

    let a = alarm(&Some(resumable_state()), &mem, Some(&c), at(100, 0));
    assert!(a.then_connect);
    assert!(saved(&a.flow.effects[0]).ws_url.is_none());

    let mut open = memory();
    open.upstream_open = true;
    let mut s = resumable_state();
    s.heartbeat_interval_ms = Some(1000);
    s.last_heartbeat_ack = Some(10_000);
    let a = alarm(&Some(s.clone()), &open, Some(&c), at(11_500, 0));
    assert!(matches!(a.flow.effects[0], GatewayEffect::SendHeartbeat(Some(42))));
    assert_eq!(alarm_at(&a.flow.effects[1]), 12_500);
    let a = alarm(&Some(s), &open, Some(&c), at(12_001, 0));
    assert_eq!(saved(&a.flow.effects[0]).reconnect_attempts, 1);
}

fn limit() -> SessionStartLimit {
    SessionStartLimit { total: 1000, remaining: 999, reset_after: 5000, max_concurrency: 1 }
}

#[test]
fn connect_steps() {
    let c = creds("tok");
    match connect_begin(&None, true, Some(&c), at(0, 0)) {
        ConnectStep::Done(e, Ok(())) => assert!(e.is_empty()),
        other => panic!("{:?}", other),
    }
    let mut disabled = GatewayState::default();
    disabled.reconnect_disabled = true;
    match connect_begin(&Some(disabled), false, Some(&c), at(0, 0)) {
        ConnectStep::Done(_, Err(e)) => {
            assert_eq!(e.error, "reconnect disabled after terminal close code");
            assert!(!e.retry_scheduled);
        },
        other => panic!("{:?}", other),
    }
    match connect_begin(&None, false, None, at(0, 0)) {
        ConnectStep::Done(_, Err(e)) => assert_eq!(e.error, "no credentials stored; cannot connect"),
        other => panic!("{:?}", other),
    }
    let state = match connect_begin(&None, false, Some(&c), at(0, 0)) {
        ConnectStep::FetchGatewayInfo(s, token) => {
            assert_eq!(token, "tok");
            s
        },
        other => panic!("{:?}", other),
    };
    let info = GatewayInfo { url: "wss://g.example".to_string(), session_start_limit: limit() };
    let (state, url) = match connect_after_gateway_info(state, Ok(info), false, at(9, 0)) {
        ConnectStep::OpenSocket(e, s, url) => {
            assert_eq!(e.len(), 2);
            assert_eq!(saved(&e[0]).session_start_remaining, Some(999));
            assert_eq!(saved(&e[1]).connected_at, Some(9));
            (s, url)
        },
        other => panic!("{:?}", other),
    };
    assert_eq!(url, "wss://g.example");
    let (e, r) = connect_after_open(state.clone(), Ok(()), false, at(9, 0));
    assert!(r.is_ok());
    assert!(matches!(e[0], GatewayEffect::SetSuppressReconnect(false)));
    let failure = OpenWebSocketError { error: "failed to connect (404)".to_string(), retryable: false };
    let (e, r) = connect_after_open(state.clone(), Err(failure), false, at(9, 0));
    assert!(saved(&e[0]).ws_url.is_none());
    assert!(!r.unwrap_err().retry_scheduled);
    let failure = OpenWebSocketError { error: "boom".to_string(), retryable: true };
    let (e, r) = connect_after_open(state, Err(failure), false, at(9, 0));
    assert_eq!(saved(&e[0]).reconnect_attempts, 1);
    assert!(r.unwrap_err().retry_scheduled);

    let err = GatewayError::Api("GET /gateway/bot failed (503)".to_string(), true, 503);
    match connect_after_gateway_info(GatewayState::default(), Err(err), false, at(0, 0)) {
        ConnectStep::Done(e, Err(ce)) => {
            assert!(ce.retry_scheduled);
            assert_eq!(saved(&e[0]).reconnect_attempts, 1);
        },
        other => panic!("{:?}", other),
    }
    let err = GatewayError::Network("offline".to_string());
    match connect_after_gateway_info(GatewayState::default(), Err(err), false, at(0, 0)) {
        ConnectStep::Done(e, Err(ce)) => {
            assert!(e.is_empty());
            assert_eq!(ce.error, "offline");
        },
        other => panic!("{:?}", other),
    }
}

#[test]
fn connect_waits_for_session_starts() {
    let c = creds("tok");
    let mut s = GatewayState::default();
    s.ws_url = Some("wss://g".to_string());
    s.session_start_remaining = Some(0);
    s.session_start_reset_after_ms = Some(3000);
    match connect_begin(&Some(s), false, Some(&c), at(100, 0)) {
        ConnectStep::Done(e, Err(ce)) => {
            assert_eq!(ce.error, "session start limit exhausted");
            assert!(ce.retry_scheduled);
            assert_eq!(saved(&e[0]).identify_cooldown_until, Some(3100));
            assert!(matches!(e[1], GatewayEffect::SetAlarmQuietly(3100)));
        },
        other => panic!("{:?}", other),
    }
}

#[test]
fn connect_requests_and_disconnects() {
    let mut stored = GatewayState::default();
    stored.reconnect_disabled = true;
    let e = connect_request(creds("tok"), &Some(stored)).unwrap();
    assert!(matches!(&e[0], GatewayEffect::StoreCredentials(c) if c.bot_token == "tok"));
    assert!(!saved(&e[1]).reconnect_disabled);
    assert!(matches!(e[2], GatewayEffect::SetReconnectDisabled(false)));
    assert_eq!(connect_request(creds(""), &None).unwrap_err(), "Bot Token is required");

    let e = disconnect(true);
    assert_eq!(e.len(), 6);
    assert!(matches!(&e[1], GatewayEffect::CloseSocket(1000, r) if r == "client disconnect"));
    assert_eq!(disconnect(false).len(), 4);
}

#[test]
fn status_report() {
    let s = gateway_status(&None, false);
    assert_eq!(s.status, Status::Disconnected);
    assert_eq!(s.reconnect_attempts, 0);
    let mut st = resumable_state();
    st.connected_at = Some(5);
    let s = gateway_status(&Some(st.clone()), false);
    assert_eq!(s.status, Status::Connecting);
    assert_eq!(s.session_id.as_deref(), Some("sess"));
    let s = gateway_status(&Some(st.clone()), true);
    assert_eq!(s.status, Status::Connected);
    assert!(is_already_connected(&Some(st)));
    assert!(!is_already_connected(&None));
}

#[test]
fn a_full_counter_matters_only_where_an_attempt_counts() {
    let mut full = resumable_state();
    full.reconnect_attempts = u32::MAX;
    let stored = Some(full.clone());
    let c = creds("tok");

    let mut mem = memory();
    mem.suppress_reconnect = true;
    assert!(!close_would_count(1006, &mem));
    let e = handle_websocket_close(1006, "gone", &stored, &mem, at(0, 0));
    assert_eq!(e.len(), 2);
    let mem = memory();
    assert!(close_would_count(1006, &mem));
    assert!(!close_would_count(4014, &mem));
    let e = handle_websocket_close(4014, "intents", &stored, &mem, at(0, 0));
    assert!(saved(&e[3]).reconnect_disabled);
    assert_eq!(saved(&e[3]).reconnect_attempts, u32::MAX);

    let mut open = memory();
    open.upstream_open = true;
    let ack = r#"{"op":11,"d":null,"s":null,"t":null}"#;
    let f = handle_gateway_frame(ack, &stored, &open, Some(&c), at(5, 0)).unwrap();
    assert_eq!(saved(&f.effects[0]).last_heartbeat_ack, Some(5));

    let reconnect = r#"{"op":7,"d":null,"s":null,"t":null}"#;
    let f = handle_gateway_frame(reconnect, &stored, &open, Some(&c), at(0, 0)).unwrap();
    assert_eq!(alarm_at(f.effects.last().unwrap()), 1000);
    open.reconnect_timestamps = vec![1, 2, 3, 4, 5];
    assert!(handle_gateway_frame(reconnect, &stored, &open, Some(&c), at(10, 0)).is_none());
    let some = Some(resumable_state());
    let f = handle_gateway_frame(reconnect, &some, &open, Some(&c), at(10, 0)).unwrap();
    assert_eq!(saved(&f.effects[1]).reconnect_attempts, 1);

    let mut s = full.clone();
    s.heartbeat_interval_ms = Some(1000);
    s.last_heartbeat_ack = Some(10_000);
    let mut open = memory();
    open.upstream_open = true;
    assert!(!alarm_would_count(&Some(s.clone()), &open, at(11_500, 0)));
    let a = alarm(&Some(s.clone()), &open, Some(&c), at(11_500, 0));
    assert!(matches!(a.flow.effects[0], GatewayEffect::SendHeartbeat(Some(42))));
    assert!(alarm_would_count(&Some(s.clone()), &open, at(12_001, 0)));
    assert!(!alarm_would_count(&Some(s), &memory(), at(12_001, 0)));
    assert!(!alarm_would_count(&None, &open, at(12_001, 0)));
}
