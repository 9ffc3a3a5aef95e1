//! The decisions of the gateway connection.
//!
//! Every handler of the durable object is split in two: the object reads its
//! storage, its clock and its flags, hands them to a decision of this module,
//! and performs the effects that come back (see [`GatewayEffect`]). Where a
//! handler waits for the network in the middle of its work, the decision is
//! split into steps, and the object hands the answer to the next step.

use vstd::prelude::*;

use crate::gateway::credentials::{GatewayCredentials, GatewayCredentialsView};
use crate::gateway::effect::{
    emit, emit_all, effects_view, EffectView, Flow, GatewayEffect, GatewayMemory, MemoryView,
};
use crate::gateway::event::{
    decoded_gateway_message, is_forwarded_event_type, parse_gateway_message, DispatchKind,
    DispatchKindView, GatewayMessage, GatewayMessageView,
};
use crate::gateway::state::stored_or_initial;
use crate::gateway::state::{GatewayState, GatewayStateView, ReconnectStrategy};
use crate::gateway::utils::{
    can_resume, classify_close_code, close_policy, resumable, ConnectError, GatewayError,
    GatewayInfo, OpenWebSocketError, ReconnectOptions,
};
use crate::gateway::webhook::{credentials_refusal, url_parts, validate_credentials};
use crate::text::{decimal, decimal_text};

verus! {

/// The clock and a random draw, as the object read them for one decision.
#[derive(Clone, Copy, Debug)]
pub struct Moment {
    /// Milliseconds since the Unix epoch.
    pub now: u64,
    /// A uniform draw from `0..1_000_000`, in millionths.
    pub random: u32,
}

/// `now + delay`, held at the largest time when it does not fit.
pub open spec fn later(now: u64, delay: int) -> u64 {
    if now + delay <= u64::MAX {
        (now + delay) as u64
    } else {
        u64::MAX
    }
}

fn later_by_wide(now: u64, delay: u128) -> (r: u64)
    ensures
        r == later(now, delay as int),
{
    if delay > u64::MAX as u128 {
        u64::MAX
    } else {
        now.saturating_add(delay as u64)
    }
}

fn later_by(now: u64, delay: u64) -> (r: u64)
    ensures
        r == later(now, delay as int),
{
    now.saturating_add(delay)
}

/// The random part of a backoff delay: below one second.
pub open spec fn backoff_jitter(m: Moment) -> int {
    m.random as int / 1000
}

/// The random part of the delay after an invalid session: below four seconds.
pub open spec fn session_jitter(m: Moment) -> int {
    m.random as int / 250
}

/// The random delay of the first heartbeat: below one interval.
pub open spec fn hello_jitter(m: Moment, interval: u64) -> int {
    (interval as int * m.random as int) / 1_000_000
}

/// The base delay before reconnect attempt number `attempts`, while the
/// attempt number read as a signed 32-bit number is not negative: it
/// doubles from two seconds and stays at one minute from the sixth attempt
/// on, that is `min(1000 * 2^attempts, 60000)` milliseconds.
pub open spec fn backoff_base_ms(attempts: u32) -> int {
    if attempts == 0 {
        1000
    } else if attempts == 1 {
        2000
    } else if attempts == 2 {
        4000
    } else if attempts == 3 {
        8000
    } else if attempts == 4 {
        16000
    } else if attempts == 5 {
        32000
    } else {
        60000
    }
}

/// `2^k`.
pub open spec fn two_pow(k: nat) -> nat
    decreases k,
{
    if k == 0 {
        1
    } else {
        2 * two_pow((k - 1) as nat)
    }
}

/// The delay before reconnect attempt number `attempts`, in whole
/// milliseconds: `min(1000 * 2^e, 60000)` plus the random part, where `e`
/// is the attempt number read as a signed 32-bit number. From attempt
/// `2^31` on `e` is `-k` with `k = 2^32 - attempts`, and the sum
/// `1000 / 2^k + random / 1000` is rounded down as a whole.
pub open spec fn backoff_delay_ms(attempts: u32, m: Moment) -> int {
    if attempts < 0x8000_0000 {
        backoff_base_ms(attempts) + backoff_jitter(m)
    } else {
        let p = two_pow((0x1_0000_0000 - attempts) as nat) as int;
        (1_000_000 + m.random * p) / (1000 * p)
    }
}

fn backoff_base(attempts: u32) -> (r: u64)
    ensures
        r == backoff_base_ms(attempts),
{
    if attempts >= 6 {
        60000
    } else {
        let mut d: u64 = 1000;
        let mut i: u32 = 0;
        while i < attempts
            invariant
                attempts < 6,
                i <= attempts,
                d == backoff_base_ms(i),
            decreases attempts - i,
        {
            d = d * 2;
            i = i + 1;
        }
        d
    }
}

proof fn lemma_two_pow_mono(a: nat, b: nat)
    requires
        a <= b,
    ensures
        1 <= two_pow(a) <= two_pow(b),
    decreases b,
{
    if b > 0 {
        if a < b {
            lemma_two_pow_mono(a, (b - 1) as nat);
        } else {
            lemma_two_pow_mono((a - 1) as nat, (b - 1) as nat);
        }
    }
}

/// Where `2^k` exceeds a million, the part `1000 / 2^k` is below a
/// thousandth and does not change the rounded sum.
proof fn lemma_small_part_vanishes(r: int, p: int)
    requires
        r >= 0,
        p > 1_000_000,
    ensures
        (1_000_000 + r * p) / (1000 * p) == r / 1000,
{
    let q = r / 1000;
    let rem = r % 1000;
    assert(r == 1000 * q + rem && rem < 1000);
    assert(1_000_000 + r * p == q * (1000 * p) + (rem * p + 1_000_000)) by (nonlinear_arith)
        requires
            r == 1000 * q + rem,
    ;
    assert(rem * p + 1_000_000 < 1000 * p) by (nonlinear_arith)
        requires
            rem < 1000,
            p > 1_000_000,
    ;
    vstd::arithmetic::div_mod::lemma_fundamental_div_mod_converse(
        1_000_000 + r * p,
        1000 * p,
        q,
        rem * p + 1_000_000,
    );
}

fn small_two_pow(k: u32) -> (r: u64)
    requires
        k < 20,
    ensures
        r == two_pow(k as nat),
        1 <= r <= 524288,
{
    proof {
        reveal_with_fuel(two_pow, 20);
    }
    let mut p: u64 = 1;
    let mut i: u32 = 0;
    while i < k
        invariant
            i <= k < 20,
            p == two_pow(i as nat),
            two_pow(18) == 262144,
            two_pow(19) == 524288,
        decreases k - i,
    {
        proof {
            lemma_two_pow_mono(i as nat, 18);
        }
        p = p * 2;
        i = i + 1;
    }
    proof {
        lemma_two_pow_mono(i as nat, 19);
    }
    p
}

fn backoff_delay(attempts: u32, m: Moment) -> (r: u64)
    ensures
        r == backoff_delay_ms(attempts, m),
{
    if attempts < 0x8000_0000 {
        backoff_base(attempts) + (m.random / 1000) as u64
    } else {
        let k: u32 = (0xffff_ffff - attempts) + 1;
        assert(k as int == 0x1_0000_0000 - attempts);
        if k >= 20 {
            proof {
                reveal_with_fuel(two_pow, 21);
                lemma_two_pow_mono(20, k as nat);
                lemma_small_part_vanishes(m.random as int, two_pow(k as nat) as int);
            }
            (m.random / 1000) as u64
        } else {
            let p = small_two_pow(k);
            let r = m.random as u64;
            assert(r * p <= 4294967295 * 524288) by (nonlinear_arith)
                requires
                    r <= 4294967295,
                    p <= 524288,
            ;
            assert(1000 * p <= 524288000) by (nonlinear_arith)
                requires
                    p <= 524288,
            ;
            (1_000_000 + r * p) / (1000 * p)
        }
    }
}

/// The strategy that reconnect options set, if any.
pub open spec fn options_strategy(o: Option<ReconnectOptions>) -> Option<ReconnectStrategy> {
    match o {
        Some(x) => x.strategy,
        None => None,
    }
}

/// Whether reconnect options drop the session.
pub open spec fn options_clear(o: Option<ReconnectOptions>) -> bool {
    match o {
        Some(x) => x.clear_session,
        None => false,
    }
}

/// A state after reconnect options were applied to it.
pub open spec fn with_options(
    s: GatewayStateView,
    strategy: Option<ReconnectStrategy>,
    clear_session: bool,
) -> GatewayStateView {
    let s1 = match strategy {
        Some(st) => GatewayStateView { reconnect_strategy: st, ..s },
        None => s,
    };
    if clear_session {
        GatewayStateView { session_id: None, sequence: None, ..s1 }
    } else {
        s1
    }
}

/// Whether one more reconnect attempt can be counted: the counter must
/// not overflow.
pub open spec fn backoff_ok(s: GatewayStateView) -> bool {
    s.reconnect_attempts < 0xffff_ffff
}

/// The state after a reconnect with backoff was scheduled: one more
/// attempt, no socket URL, no heartbeat, reconnecting allowed.
pub open spec fn backoff_state(
    s: GatewayStateView,
    strategy: Option<ReconnectStrategy>,
    clear_session: bool,
) -> GatewayStateView {
    let s1 = GatewayStateView {
        reconnect_attempts: (s.reconnect_attempts + 1) as u32,
        ws_url: None,
        heartbeat_interval_ms: None,
        ..s
    };
    GatewayStateView { reconnect_disabled: false, ..with_options(s1, strategy, clear_session) }
}

/// Closing the open socket, if any, for a planned reconnect.
pub open spec fn close_for_reconnect(upstream_open: bool) -> Seq<EffectView> {
    if upstream_open {
        seq![EffectView::SetReconnectPlanned(true), EffectView::CloseSocket(4000, "reconnecting"@)]
    } else {
        seq![]
    }
}

/// Scheduling a reconnect with exponential backoff.
pub open spec fn backoff_effects(
    s: GatewayStateView,
    strategy: Option<ReconnectStrategy>,
    clear_session: bool,
    upstream_open: bool,
    m: Moment,
) -> Seq<EffectView> {
    let n = backoff_state(s, strategy, clear_session);
    seq![EffectView::SaveState(n)] + close_for_reconnect(upstream_open) + seq![
        EffectView::SetAlarm(later(m.now, backoff_delay_ms(n.reconnect_attempts, m))),
    ]
}

fn apply_options(s: &mut GatewayState, options: &Option<ReconnectOptions>)
    ensures
        final(s)@ == with_options(old(s)@, options_strategy(*options), options_clear(*options)),
{
    if let Some(opts) = options {
        if let Some(strat) = opts.strategy {
            s.reconnect_strategy = strat;
        }
        if opts.clear_session {
            s.session_id = None;
            s.sequence = None;
        }
    }
}

fn close_socket_for_reconnect(effects: &mut Vec<GatewayEffect>, upstream_open: bool)
    ensures
        effects_view(final(effects)@) == effects_view(old(effects)@) + close_for_reconnect(
            upstream_open,
        ),
{
    let ghost before = effects_view(effects@);
    if upstream_open {
        emit(effects, GatewayEffect::SetReconnectPlanned(true));
        emit(effects, GatewayEffect::CloseSocket(4000, String::from_str("reconnecting")));
    }
    assert(effects_view(effects@) =~= before + close_for_reconnect(upstream_open));
}

/// Schedules a reconnect with exponential backoff: counts the attempt,
/// forgets the socket URL and the heartbeat, applies the options, closes
/// the open socket and sets the alarm.
pub fn reconnect_with_backoff(
    state: &GatewayState,
    options: Option<ReconnectOptions>,
    upstream_open: bool,
    m: Moment,
) -> (r: Vec<GatewayEffect>)
    requires
        backoff_ok(state@),
    ensures
        effects_view(r@) == backoff_effects(
            state@,
            options_strategy(options),
            options_clear(options),
            upstream_open,
            m,
        ),
{
    let mut s = state.clone();
    let attempts = s.reconnect_attempts + 1;
    let delay = backoff_delay(attempts, m);
    s.reconnect_attempts = attempts;
    s.ws_url = None;
    s.heartbeat_interval_ms = None;
    apply_options(&mut s, &options);
    s.reconnect_disabled = false;
    let ghost n = s@;
    let mut effects: Vec<GatewayEffect> = Vec::new();
    emit(&mut effects, GatewayEffect::SaveState(s));
    close_socket_for_reconnect(&mut effects, upstream_open);
    emit(&mut effects, GatewayEffect::SetAlarm(later_by(m.now, delay)));
    assert(n == backoff_state(state@, options_strategy(options), options_clear(options)));
    assert(effects_view(effects@) =~= backoff_effects(
        state@,
        options_strategy(options),
        options_clear(options),
        upstream_open,
        m,
    ));
    effects
}

/// The state after a prompt reconnect was scheduled.
pub open spec fn prompt_state(
    s: GatewayStateView,
    strategy: Option<ReconnectStrategy>,
    clear_session: bool,
) -> GatewayStateView {
    let s1 = GatewayStateView { ws_url: None, heartbeat_interval_ms: None, ..s };
    GatewayStateView { reconnect_disabled: false, ..with_options(s1, strategy, clear_session) }
}

/// Scheduling a reconnect one second from now.
pub open spec fn prompt_effects(
    s: GatewayStateView,
    strategy: Option<ReconnectStrategy>,
    clear_session: bool,
    upstream_open: bool,
    m: Moment,
) -> Seq<EffectView> {
    seq![EffectView::SaveState(prompt_state(s, strategy, clear_session))] + close_for_reconnect(
        upstream_open,
    ) + seq![EffectView::SetAlarm(later(m.now, 1000))]
}

/// Schedules a reconnect one second from now, as the gateway asks for when
/// it requests a reconnect; the attempt is not counted.
pub fn reconnect_with_min_delay(
    state: &GatewayState,
    options: Option<ReconnectOptions>,
    upstream_open: bool,
    m: Moment,
) -> (r: Vec<GatewayEffect>)
    ensures
        effects_view(r@) == prompt_effects(
            state@,
            options_strategy(options),
            options_clear(options),
            upstream_open,
            m,
        ),
{
    let mut s = state.clone();
    s.ws_url = None;
    s.heartbeat_interval_ms = None;
    apply_options(&mut s, &options);
    s.reconnect_disabled = false;
    let mut effects: Vec<GatewayEffect> = Vec::new();
    emit(&mut effects, GatewayEffect::SaveState(s));
    close_socket_for_reconnect(&mut effects, upstream_open);
    emit(&mut effects, GatewayEffect::SetAlarm(later_by(m.now, 1000)));
    assert(effects_view(effects@) =~= prompt_effects(
        state@,
        options_strategy(options),
        options_clear(options),
        upstream_open,
        m,
    ));
    effects
}

/// The state once reconnecting stopped after a terminal close code.
pub open spec fn stopped_state(s: GatewayStateView, code: u16) -> GatewayStateView {
    let s1 = GatewayStateView {
        ws_url: None,
        heartbeat_interval_ms: None,
        reconnect_disabled: true,
        ..s
    };
    if !close_policy(code).can_resume {
        GatewayStateView {
            session_id: None,
            sequence: None,
            reconnect_strategy: ReconnectStrategy::IdentifyOnly,
            ..s1
        }
    } else {
        s1
    }
}

pub open spec fn stop_effects(s: GatewayStateView, code: u16) -> Seq<EffectView> {
    seq![
        EffectView::SetReconnectDisabled(true),
        EffectView::SaveState(stopped_state(s, code)),
        EffectView::DeleteAlarm,
    ]
}

/// Stops reconnecting for good after a terminal close code: alarms do
/// nothing from now on, and the alarm is deleted.
pub fn stop_reconnecting(state: &GatewayState, code: u16) -> (r: Vec<GatewayEffect>)
    ensures
        effects_view(r@) == stop_effects(state@, code),
{
    let policy = classify_close_code(code);
    let mut s = state.clone();
    s.ws_url = None;
    s.heartbeat_interval_ms = None;
    s.reconnect_disabled = true;
    if !policy.can_resume {
        s.session_id = None;
        s.sequence = None;
        s.reconnect_strategy = ReconnectStrategy::IdentifyOnly;
    }
    let mut effects: Vec<GatewayEffect> = Vec::new();
    emit(&mut effects, GatewayEffect::SetReconnectDisabled(true));
    emit(&mut effects, GatewayEffect::SaveState(s));
    emit(&mut effects, GatewayEffect::DeleteAlarm);
    assert(effects_view(effects@) =~= stop_effects(state@, code));
    effects
}


/// The state after an identify was blocked until `cooldown`.
pub open spec fn blocked_state(s: GatewayStateView, cooldown: u64) -> GatewayStateView {
    GatewayStateView { ws_url: None, identify_cooldown_until: Some(cooldown), ..s }
}

/// Blocking an identify: the socket is closed and the alarm set.
///
/// The alarm is set `cooldown` milliseconds after now, where `cooldown` is
/// the time until which identifying is blocked: the time is added to now.
pub open spec fn block_effects(
    s: GatewayStateView,
    reason: Seq<char>,
    cooldown: u64,
    m: Moment,
) -> Seq<EffectView> {
    seq![
        EffectView::SaveState(blocked_state(s, cooldown)),
        EffectView::SetReconnectPlanned(true),
        EffectView::CloseSocket(4000, reason),
        EffectView::SetAlarm(later(m.now, cooldown as int)),
    ]
}

fn block_identify(state: &GatewayState, reason: String, cooldown: u64, m: Moment) -> (r: Vec<
    GatewayEffect,
>)
    ensures
        effects_view(r@) == block_effects(state@, reason@, cooldown, m),
{
    let mut s = state.clone();
    s.ws_url = None;
    s.identify_cooldown_until = Some(cooldown);
    let mut effects: Vec<GatewayEffect> = Vec::new();
    emit(&mut effects, GatewayEffect::SaveState(s));
    emit(&mut effects, GatewayEffect::SetReconnectPlanned(true));
    emit(&mut effects, GatewayEffect::CloseSocket(4000, reason));
    emit(&mut effects, GatewayEffect::SetAlarm(later_by(m.now, cooldown)));
    assert(effects_view(effects@) =~= block_effects(state@, reason@, cooldown, m));
    effects
}

/// The state after an identify was sent: one session start fewer, no
/// cooldown, and the next reconnect may resume.
pub open spec fn identified_state(s: GatewayStateView) -> GatewayStateView {
    GatewayStateView {
        session_start_remaining: match s.session_start_remaining {
            Some(r) => Some(if r > 0 { (r - 1) as u32 } else { r }),
            None => None,
        },
        identify_cooldown_until: None,
        reconnect_strategy: ReconnectStrategy::ResumeOrIdentify,
        ..s
    }
}

/// The value of an optional text, or the empty text.
pub open spec fn text_or_empty(o: Option<Seq<char>>) -> Seq<char> {
    match o {
        Some(t) => t,
        None => Seq::empty(),
    }
}

/// Logging in on the open socket: resume the session when it can be
/// resumed; otherwise wait while an identify cooldown runs or no session
/// may start, and identify when neither holds. The second part is the
/// error that ends the decision.
pub open spec fn login_effects(
    s: GatewayStateView,
    upstream_open: bool,
    creds: Option<GatewayCredentialsView>,
    m: Moment,
) -> (Seq<EffectView>, Option<Seq<char>>) {
    if !upstream_open {
        (seq![], None)
    } else if creds is None {
        (seq![], Some("Missing credentials"@))
    } else {
        let token = creds->0.bot_token;
        if resumable(s) {
            (
                seq![
                    EffectView::SendResume(
                        match s.sequence {
                            Some(q) => q,
                            None => 0,
                        },
                        text_or_empty(s.session_id),
                        token,
                    ),
                ],
                None,
            )
        } else if s.identify_cooldown_until is Some && m.now < s.identify_cooldown_until->0 {
            (
                block_effects(s, "identify cooldown"@, s.identify_cooldown_until->0, m),
                None,
            )
        } else if s.session_start_remaining is Some && s.session_start_reset_after_ms is Some
            && s.session_start_remaining->0 == 0 && s.session_start_reset_after_ms->0 > 0 {
            (
                block_effects(
                    s,
                    "session start limit exhausted"@,
                    later(m.now, s.session_start_reset_after_ms->0 as int),
                    m,
                ),
                None,
            )
        } else {
            (seq![EffectView::SendIdentify(token), EffectView::SaveState(identified_state(s))], None)
        }
    }
}

/// The view of optional credentials.
pub open spec fn creds_view(c: Option<&GatewayCredentials>) -> Option<GatewayCredentialsView> {
    match c {
        Some(x) => Some(x@),
        None => None,
    }
}

/// Logs in on the open socket: sends a resume, blocks the identify, or
/// sends an identify.
pub fn identify_or_resume(
    state: &GatewayState,
    upstream_open: bool,
    creds: Option<&GatewayCredentials>,
    m: Moment,
) -> (r: (Vec<GatewayEffect>, Option<String>))
    ensures
        (effects_view(r.0@), match r.1 {
            Some(e) => Some(e@),
            None => None,
        }) == login_effects(state@, upstream_open, creds_view(creds), m),
{
    let mut effects: Vec<GatewayEffect> = Vec::new();
    if !upstream_open {
        assert(effects_view(effects@) =~= Seq::<EffectView>::empty());
        return (effects, None);
    }
    let creds = match creds {
        Some(c) => c,
        None => {
            assert(effects_view(effects@) =~= Seq::<EffectView>::empty());
            return (effects, Some(String::from_str("Missing credentials")));
        },
    };
    let token = creds.bot_token.clone();
    if can_resume(state) {
        let seq = match state.sequence {
            Some(q) => q,
            None => 0,
        };
        let session = match &state.session_id {
            Some(x) => x.clone(),
            None => String::new(),
        };
        emit(&mut effects, GatewayEffect::SendResume(seq, session, token));
        assert(effects_view(effects@) =~= login_effects(
            state@,
            upstream_open,
            creds_view(Some(creds)),
            m,
        ).0);
        return (effects, None);
    }
    if let Some(cooldown) = state.identify_cooldown_until {
        if m.now < cooldown {
            let effects = block_identify(state, String::from_str("identify cooldown"), cooldown, m);
            return (effects, None);
        }
    }
    if let (Some(remaining), Some(reset_after)) = (
        state.session_start_remaining,
        state.session_start_reset_after_ms,
    ) {
        if remaining == 0 && reset_after > 0 {
            let cooldown = later_by(m.now, reset_after);
            let effects = block_identify(
                state,
                String::from_str("session start limit exhausted"),
                cooldown,
                m,
            );
            return (effects, None);
        }
    }
    let mut s = state.clone();
    if let Some(remaining) = s.session_start_remaining {
        if remaining > 0 {
            s.session_start_remaining = Some(remaining - 1);
        }
    }
    s.identify_cooldown_until = None;
    s.reconnect_strategy = ReconnectStrategy::ResumeOrIdentify;
    emit(&mut effects, GatewayEffect::SendIdentify(token));
    emit(&mut effects, GatewayEffect::SaveState(s));
    assert(effects_view(effects@) =~= login_effects(state@, upstream_open, creds_view(Some(creds)), m).0);
    (effects, None)
}

/// Sending a heartbeat on the open socket, if any.
pub open spec fn heartbeat_effects(s: GatewayStateView, upstream_open: bool) -> Seq<EffectView> {
    if upstream_open {
        seq![EffectView::SendHeartbeat(s.sequence)]
    } else {
        seq![]
    }
}

/// Sends a heartbeat with the last sequence number on the open socket.
pub fn send_heartbeat(state: &GatewayState, upstream_open: bool) -> (r: Vec<GatewayEffect>)
    ensures
        effects_view(r@) == heartbeat_effects(state@, upstream_open),
{
    let mut effects: Vec<GatewayEffect> = Vec::new();
    if upstream_open {
        emit(&mut effects, GatewayEffect::SendHeartbeat(state.sequence));
    }
    assert(effects_view(effects@) =~= heartbeat_effects(state@, upstream_open));
    effects
}

/// Setting the alarm for the next heartbeat, when the interval is known.
pub open spec fn schedule_effects(s: GatewayStateView, m: Moment) -> Seq<EffectView> {
    match s.heartbeat_interval_ms {
        Some(i) => seq![EffectView::SetAlarm(later(m.now, i as int))],
        None => seq![],
    }
}

/// Sets the alarm for the next heartbeat.
pub fn schedule_heartbeat(state: &GatewayState, m: Moment) -> (r: Vec<GatewayEffect>)
    ensures
        effects_view(r@) == schedule_effects(state@, m),
{
    let mut effects: Vec<GatewayEffect> = Vec::new();
    if let Some(interval) = state.heartbeat_interval_ms {
        emit(&mut effects, GatewayEffect::SetAlarm(later_by(m.now, interval)));
    }
    assert(effects_view(effects@) =~= schedule_effects(state@, m));
    effects
}

/// The reconnect times that are still inside the rate window.
pub open spec fn recent(ts: Seq<u64>, now: u64) -> Seq<u64> {
    ts.filter(|t: u64| now - t < 60_000)
}

/// Whether server-requested reconnects are rate limited.
pub open spec fn rate_limited(ts: Seq<u64>, now: u64) -> bool {
    recent(ts, now).len() >= 5
}

/// The reconnect times that are still inside the rate window.
pub fn recent_reconnects(ts: &Vec<u64>, now: u64) -> (r: Vec<u64>)
    ensures
        r@ == recent(ts@, now),
{
    let mut r: Vec<u64> = Vec::new();
    let mut i: usize = 0;
    let ghost pred = |t: u64| now - t < 60_000;
    while i < ts.len()
        invariant
            i <= ts@.len(),
            pred == (|t: u64| now - t < 60_000),
            r@ == ts@.subrange(0, i as int).filter(pred),
        decreases ts.len() - i,
    {
        let t = ts[i];
        let ghost pre = ts@.subrange(0, i as int);
        let ghost nxt = ts@.subrange(0, i + 1);
        assert(nxt.drop_last() =~= pre);
        assert(nxt.last() == t);
        reveal_with_fuel(Seq::<u64>::filter, 1);
        let keep = (now as u128) < (t as u128) + 60_000;
        if keep {
            r.push(t);
        }
        assert(keep == pred(t));
        i = i + 1;
    }
    assert(ts@.subrange(0, ts@.len() as int) =~= ts@);
    r
}


/// The view of an optional error text.
pub open spec fn error_view(e: Option<String>) -> Option<Seq<char>> {
    match e {
        Some(x) => Some(x@),
        None => None,
    }
}

/// Whether a flow is the given effects and error.
pub open spec fn flow_is(f: Flow, effects: Seq<EffectView>, error: Option<Seq<char>>) -> bool {
    effects_view(f.effects@) == effects && error_view(f.error) == error
}

/// Whether the socket closing with a code counts a reconnect attempt:
/// neither a disconnect nor a planned reconnect caused it, and the code
/// allows a reconnect.
pub open spec fn close_counts_attempt(code: u16, mem: MemoryView) -> bool {
    !mem.suppress_reconnect && !mem.reconnect_planned && close_policy(code).should_reconnect
}

/// Whether the socket closing with a code counts a reconnect attempt.
pub fn close_would_count(code: u16, mem: &GatewayMemory) -> (r: bool)
    ensures
        r == close_counts_attempt(code, mem@),
{
    !mem.suppress_reconnect && !mem.reconnect_planned && classify_close_code(code).should_reconnect
}

/// Whether an error on the socket counts a reconnect attempt: neither a
/// disconnect nor a planned reconnect caused it.
pub open spec fn error_counts_attempt(mem: MemoryView) -> bool {
    !mem.suppress_reconnect && !mem.reconnect_planned
}

/// Whether a message of the gateway counts a reconnect attempt: a request
/// to reconnect while such requests are rate limited.
pub open spec fn message_counts_attempt(msg: GatewayMessageView, mem: MemoryView, m: Moment) -> bool {
    msg is Reconnect && rate_limited(mem.reconnect_timestamps, m.now)
}

/// Whether the answer of the gateway endpoint counts a reconnect attempt:
/// a retryable API error.
pub open spec fn info_counts_attempt(info: Result<GatewayInfo, GatewayError>) -> bool {
    info matches Err(GatewayError::Api(_, retryable, _)) && retryable
}

/// Whether the outcome of opening the socket counts a reconnect attempt: a
/// retryable failure.
pub open spec fn open_counts_attempt(outcome: Result<(), OpenWebSocketError>) -> bool {
    outcome matches Err(e) && e.retryable
}

/// The reaction to the socket closing: a close that a disconnect or a
/// planned reconnect caused only clears its flag; a terminal code stops
/// reconnecting; any other code schedules a reconnect with backoff, and a
/// code after which the session cannot be resumed drops the session.
pub open spec fn close_effects(
    code: u16,
    s: GatewayStateView,
    mem: MemoryView,
    m: Moment,
) -> Seq<EffectView> {
    let policy = close_policy(code);
    seq![EffectView::ClearUpstream] + if mem.suppress_reconnect {
        seq![EffectView::SetSuppressReconnect(false)]
    } else if mem.reconnect_planned {
        seq![EffectView::SetReconnectPlanned(false)]
    } else if !policy.should_reconnect {
        seq![EffectView::SetReconnectDisabled(true)] + stop_effects(s, code)
    } else {
        backoff_effects(
            s,
            Some(
                if policy.can_resume {
                    ReconnectStrategy::ResumeOrIdentify
                } else {
                    ReconnectStrategy::IdentifyOnly
                },
            ),
            !policy.can_resume,
            false,
            m,
        )
    }
}

/// Reacts to the socket closing with a code. The state is the stored one.
pub fn handle_websocket_close(
    code: u16,
    reason: &str,
    stored: &Option<GatewayState>,
    mem: &GatewayMemory,
    m: Moment,
) -> (r: Vec<GatewayEffect>)
    requires
        close_counts_attempt(code, mem@) ==> backoff_ok(stored_or_initial(*stored)),
    ensures
        effects_view(r@) == close_effects(code, stored_or_initial(*stored), mem@, m),
{
    let state = match stored {
        Some(s) => s.clone(),
        None => GatewayState::default(),
    };
    let mut effects: Vec<GatewayEffect> = Vec::new();
    emit(&mut effects, GatewayEffect::ClearUpstream);
    if mem.suppress_reconnect {
        emit(&mut effects, GatewayEffect::SetSuppressReconnect(false));
    } else if mem.reconnect_planned {
        emit(&mut effects, GatewayEffect::SetReconnectPlanned(false));
    } else {
        let policy = classify_close_code(code);
        if !policy.should_reconnect {
            emit(&mut effects, GatewayEffect::SetReconnectDisabled(true));
            emit_all(&mut effects, stop_reconnecting(&state, code));
        } else {
            let why = String::from_str("close ").concat(decimal_text(code as u64).as_str()).concat(
                ": ",
            ).concat(reason);
            let options = ReconnectOptions {
                strategy: Some(
                    if policy.can_resume {
                        ReconnectStrategy::ResumeOrIdentify
                    } else {
                        ReconnectStrategy::IdentifyOnly
                    },
                ),
                clear_session: !policy.can_resume,
                reason: Some(why),
            };
            emit_all(&mut effects, reconnect_with_backoff(&state, Some(options), false, m));
        }
    }
    assert(effects_view(effects@) =~= close_effects(code, stored_or_initial(*stored), mem@, m));
    effects
}

/// The reaction to an error on the socket: unless a disconnect or a
/// planned reconnect caused it, a reconnect with backoff is scheduled.
pub open spec fn error_effects(s: GatewayStateView, mem: MemoryView, m: Moment) -> Seq<EffectView> {
    seq![EffectView::ClearUpstream] + if mem.suppress_reconnect {
        seq![EffectView::SetSuppressReconnect(false)]
    } else if mem.reconnect_planned {
        seq![]
    } else {
        backoff_effects(s, Some(ReconnectStrategy::ResumeOrIdentify), false, false, m)
    }
}

/// Reacts to an error on the socket. The state is the stored one.
pub fn handle_websocket_error(stored: &Option<GatewayState>, mem: &GatewayMemory, m: Moment) -> (r:
    Vec<GatewayEffect>)
    requires
        error_counts_attempt(mem@) ==> backoff_ok(stored_or_initial(*stored)),
    ensures
        effects_view(r@) == error_effects(stored_or_initial(*stored), mem@, m),
{
    let mut effects: Vec<GatewayEffect> = Vec::new();
    emit(&mut effects, GatewayEffect::ClearUpstream);
    if mem.suppress_reconnect {
        emit(&mut effects, GatewayEffect::SetSuppressReconnect(false));
    } else if !mem.reconnect_planned {
        let state = match stored {
            Some(s) => s.clone(),
            None => GatewayState::default(),
        };
        let options = ReconnectOptions {
            strategy: Some(ReconnectStrategy::ResumeOrIdentify),
            clear_session: false,
            reason: Some(String::from_str("websocket error event")),
        };
        emit_all(&mut effects, reconnect_with_backoff(&state, Some(options), false, m));
    }
    assert(effects_view(effects@) =~= error_effects(stored_or_initial(*stored), mem@, m));
    effects
}

/// The greeting of the gateway: the heartbeat interval is stored, the
/// connection logs in, and the first heartbeat is scheduled at a random
/// point of the first interval.
pub open spec fn hello_flow(
    s: GatewayStateView,
    interval: u64,
    upstream_open: bool,
    creds: Option<GatewayCredentialsView>,
    m: Moment,
) -> (Seq<EffectView>, Option<Seq<char>>) {
    let n = GatewayStateView {
        heartbeat_interval_ms: Some(interval),
        last_heartbeat_ack: Some(m.now),
        ..s
    };
    let login = login_effects(n, upstream_open, creds, m);
    if login.1 is Some {
        (seq![EffectView::SaveState(n)] + login.0, login.1)
    } else {
        (
            seq![EffectView::SaveState(n)] + login.0 + seq![
                EffectView::SetAlarm(later(m.now, hello_jitter(m, interval))),
            ],
            None,
        )
    }
}

fn handle_hello(
    state: &GatewayState,
    interval: u64,
    upstream_open: bool,
    creds: Option<&GatewayCredentials>,
    m: Moment,
) -> (r: Flow)
    ensures
        flow_is(
            r,
            hello_flow(state@, interval, upstream_open, creds_view(creds), m).0,
            hello_flow(state@, interval, upstream_open, creds_view(creds), m).1,
        ),
{
    let mut s = state.clone();
    s.heartbeat_interval_ms = Some(interval);
    s.last_heartbeat_ack = Some(m.now);
    let mut effects: Vec<GatewayEffect> = Vec::new();
    let (login, error) = identify_or_resume(&s, upstream_open, creds, m);
    emit(&mut effects, GatewayEffect::SaveState(s));
    emit_all(&mut effects, login);
    let ghost expected = hello_flow(state@, interval, upstream_open, creds_view(creds), m);
    if error.is_some() {
        assert(effects_view(effects@) =~= expected.0);
        return Flow { effects, error };
    }
    let a: u128 = interval as u128;
    let b: u128 = m.random as u128;
    assert(a * b <= 0xffff_ffff_ffff_ffffu128 * 0xffff_ffffu128) by (nonlinear_arith)
        requires
            a <= 0xffff_ffff_ffff_ffffu128,
            b <= 0xffff_ffffu128,
    ;
    let jitter: u128 = (a * b) / 1_000_000;
    emit(&mut effects, GatewayEffect::SetAlarm(later_by_wide(m.now, jitter)));
    assert(effects_view(effects@) =~= expected.0);
    Flow { effects, error: None }
}

/// A dispatch event: readiness stores the session and resets the attempts,
/// a resume resets the attempts, and events of a forwarded kind are posted
/// to the webhook.
pub open spec fn dispatch_effects(s: GatewayStateView, kind: DispatchKindView) -> Seq<EffectView> {
    match kind {
        DispatchKindView::Ready(session_id, resume_url) => seq![
            EffectView::SaveState(
                GatewayStateView {
                    session_id: Some(session_id),
                    resume_gateway_url: Some(resume_url),
                    reconnect_attempts: 0,
                    ..s
                },
            ),
        ],
        DispatchKindView::Resumed => seq![
            EffectView::SaveState(GatewayStateView { reconnect_attempts: 0, ..s }),
        ],
        DispatchKindView::Other(k) => seq![],
    }
}

/// The reaction to the gateway asking for a reconnect: up to five such
/// reconnects in a minute come one second later; beyond that the reconnect
/// backs off.
pub open spec fn reconnect_request_effects(
    s: GatewayStateView,
    mem: MemoryView,
    m: Moment,
) -> Seq<EffectView> {
    let kept = recent(mem.reconnect_timestamps, m.now);
    if rate_limited(mem.reconnect_timestamps, m.now) {
        seq![EffectView::SetReconnectTimestamps(kept)] + backoff_effects(
            s,
            Some(ReconnectStrategy::ResumeOrIdentify),
            false,
            mem.upstream_open,
            m,
        )
    } else {
        seq![EffectView::SetReconnectTimestamps(kept.push(m.now))] + prompt_effects(
            s,
            Some(ReconnectStrategy::ResumeOrIdentify),
            false,
            mem.upstream_open,
            m,
        )
    }
}

/// Reacts to the gateway asking for a reconnect.
pub fn handle_reconnect(state: &GatewayState, mem: &GatewayMemory, m: Moment) -> (r: Vec<
    GatewayEffect,
>)
    requires
        rate_limited(mem@.reconnect_timestamps, m.now) ==> backoff_ok(state@),
    ensures
        effects_view(r@) == reconnect_request_effects(state@, mem@, m),
{
    let mut kept = recent_reconnects(&mem.reconnect_timestamps, m.now);
    let mut effects: Vec<GatewayEffect> = Vec::new();
    if kept.len() >= 5 {
        emit(&mut effects, GatewayEffect::SetReconnectTimestamps(kept));
        let options = ReconnectOptions {
            strategy: Some(ReconnectStrategy::ResumeOrIdentify),
            clear_session: false,
            reason: Some(String::from_str("reconnect rate limited")),
        };
        emit_all(&mut effects, reconnect_with_backoff(state, Some(options), mem.upstream_open, m));
    } else {
        kept.push(m.now);
        emit(&mut effects, GatewayEffect::SetReconnectTimestamps(kept));
        let options = ReconnectOptions {
            strategy: Some(ReconnectStrategy::ResumeOrIdentify),
            clear_session: false,
            reason: Some(String::from_str("reconnect request by discord")),
        };
        emit_all(&mut effects, reconnect_with_min_delay(state, Some(options), mem.upstream_open, m));
    }
    assert(effects_view(effects@) =~= reconnect_request_effects(state@, mem@, m));
    effects
}

/// The state after the gateway invalidated the session.
pub open spec fn invalidated_state(s: GatewayStateView, resumable: bool) -> GatewayStateView {
    let s1 = GatewayStateView {
        reconnect_strategy: if resumable {
            ReconnectStrategy::ResumeOrIdentify
        } else {
            ReconnectStrategy::IdentifyOnly
        },
        ..s
    };
    let s2 = if !resumable {
        GatewayStateView { session_id: None, sequence: None, ..s1 }
    } else {
        s1
    };
    GatewayStateView { ws_url: None, heartbeat_interval_ms: None, ..s2 }
}

/// The reaction to an invalid session: the socket is closed and a new
/// connection is made one to five seconds later.
pub open spec fn invalid_session_effects(
    s: GatewayStateView,
    resumable: bool,
    upstream_open: bool,
    m: Moment,
) -> Seq<EffectView> {
    seq![EffectView::SaveState(invalidated_state(s, resumable))] + (if upstream_open {
        seq![EffectView::SetReconnectPlanned(true), EffectView::CloseSocket(4000, "invalid session"@)]
    } else {
        seq![]
    }) + seq![EffectView::SetAlarm(later(m.now, 1000 + session_jitter(m)))]
}

fn handle_invalid_session(state: &GatewayState, resumable: bool, upstream_open: bool, m: Moment) -> (r:
    Vec<GatewayEffect>)
    ensures
        effects_view(r@) == invalid_session_effects(state@, resumable, upstream_open, m),
{
    let mut s = state.clone();
    s.reconnect_strategy = if resumable {
        ReconnectStrategy::ResumeOrIdentify
    } else {
        ReconnectStrategy::IdentifyOnly
    };
    if !resumable {
        s.session_id = None;
        s.sequence = None;
    }
    s.ws_url = None;
    s.heartbeat_interval_ms = None;
    let mut effects: Vec<GatewayEffect> = Vec::new();
    emit(&mut effects, GatewayEffect::SaveState(s));
    if upstream_open {
        emit(&mut effects, GatewayEffect::SetReconnectPlanned(true));
        emit(&mut effects, GatewayEffect::CloseSocket(4000, String::from_str("invalid session")));
    }
    let delay: u64 = 1000 + (m.random / 250) as u64;
    emit(&mut effects, GatewayEffect::SetAlarm(later_by(m.now, delay)));
    assert(effects_view(effects@) =~= invalid_session_effects(state@, resumable, upstream_open, m));
    effects
}

/// The reaction to a message of the gateway. A dispatch first stores its
/// sequence number; then the greeting logs in, a heartbeat request is
/// answered, an acknowledgement is recorded, and reconnect requests and
/// invalid sessions schedule a new connection.
pub open spec fn message_flow(
    msg: GatewayMessageView,
    stored: GatewayStateView,
    mem: MemoryView,
    creds: Option<GatewayCredentialsView>,
    m: Moment,
) -> (Seq<EffectView>, Option<Seq<char>>) {
    let s = match msg {
        GatewayMessageView::Dispatch(q, _) => GatewayStateView { sequence: Some(q), ..stored },
        _ => stored,
    };
    let prefix = match msg {
        GatewayMessageView::Dispatch(_, _) => seq![EffectView::SaveState(s)],
        _ => seq![],
    };
    match msg {
        GatewayMessageView::Hello(interval) => {
            let h = hello_flow(s, interval, mem.upstream_open, creds, m);
            (prefix + h.0, h.1)
        },
        GatewayMessageView::Dispatch(_, kind) => (prefix + dispatch_effects(s, kind), None),
        GatewayMessageView::Heartbeat => (prefix + heartbeat_effects(s, mem.upstream_open), None),
        GatewayMessageView::HeartbeatAck => (
            prefix + seq![
                EffectView::SaveState(GatewayStateView { last_heartbeat_ack: Some(m.now), ..s }),
            ],
            None,
        ),
        GatewayMessageView::Reconnect => (prefix + reconnect_request_effects(s, mem, m), None),
        GatewayMessageView::InvalidateSession(r) => (
            prefix + invalid_session_effects(s, r, mem.upstream_open, m),
            None,
        ),
    }
}

/// Reacts to a message of the gateway. The state is the stored one.
pub fn handle_gateway_message(
    msg: GatewayMessage,
    stored: &Option<GatewayState>,
    mem: &GatewayMemory,
    creds: Option<&GatewayCredentials>,
    m: Moment,
) -> (r: Flow)
    requires
        message_counts_attempt(msg@, mem@, m) ==> backoff_ok(stored_or_initial(*stored)),
    ensures
        flow_is(
            r,
            message_flow(msg@, stored_or_initial(*stored), mem@, creds_view(creds), m).0,
            message_flow(msg@, stored_or_initial(*stored), mem@, creds_view(creds), m).1,
        ),
{
    let mut state = match stored {
        Some(s) => s.clone(),
        None => GatewayState::default(),
    };
    let mut effects: Vec<GatewayEffect> = Vec::new();
    if let GatewayMessage::Dispatch(q, _) = &msg {
        state.sequence = Some(*q);
        emit(&mut effects, GatewayEffect::SaveState(state.clone()));
    }
    let ghost prefix = effects_view(effects@);
    let ghost expected = message_flow(msg@, stored_or_initial(*stored), mem@, creds_view(creds), m);
    match msg {
        GatewayMessage::Hello(interval) => {
            let h = handle_hello(&state, interval, mem.upstream_open, creds, m);
            emit_all(&mut effects, h.effects);
            assert(effects_view(effects@) =~= expected.0);
            return Flow { effects, error: h.error };
        },
        GatewayMessage::Dispatch(_, kind) => {
            match kind {
                DispatchKind::Ready(session_id, resume_url) => {
                    state.session_id = Some(session_id);
                    state.resume_gateway_url = Some(resume_url);
                    state.reconnect_attempts = 0;
                    emit(&mut effects, GatewayEffect::SaveState(state));
                },
                DispatchKind::Resumed => {
                    state.reconnect_attempts = 0;
                    emit(&mut effects, GatewayEffect::SaveState(state));
                },
                DispatchKind::Other(k) => {
                    if is_forwarded_event_type(k) {
                        emit(&mut effects, GatewayEffect::ForwardEvent(k));
                    }
                },
            }
        },
        GatewayMessage::Heartbeat => {
            emit_all(&mut effects, send_heartbeat(&state, mem.upstream_open));
        },
        GatewayMessage::HeartbeatAck => {
            state.last_heartbeat_ack = Some(m.now);
            emit(&mut effects, GatewayEffect::SaveState(state));
        },
        GatewayMessage::Reconnect => {
            emit_all(&mut effects, handle_reconnect(&state, mem, m));
        },
        GatewayMessage::InvalidateSession(r) => {
            emit_all(&mut effects, handle_invalid_session(&state, r, mem.upstream_open, m));
        },
    }
    assert(effects_view(effects@) =~= expected.0);
    Flow { effects, error: None }
}

/// Reacts to a text frame of the gateway: a frame that is no gateway event
/// is ignored.
pub fn handle_gateway_text(
    text: &str,
    stored: &Option<GatewayState>,
    mem: &GatewayMemory,
    creds: Option<&GatewayCredentials>,
    m: Moment,
) -> (r: Flow)
    requires
        (decoded_gateway_message(text@) matches Some(msg) && message_counts_attempt(msg, mem@, m))
            ==> backoff_ok(stored_or_initial(*stored)),
    ensures
        match decoded_gateway_message(text@) {
            Some(msg) => flow_is(
                r,
                message_flow(msg, stored_or_initial(*stored), mem@, creds_view(creds), m).0,
                message_flow(msg, stored_or_initial(*stored), mem@, creds_view(creds), m).1,
            ),
            None => flow_is(r, seq![], None),
        },
{
    match parse_gateway_message(text) {
        Some(msg) => handle_gateway_message(msg, stored, mem, creds, m),
        None => {
            let effects: Vec<GatewayEffect> = Vec::new();
            assert(effects_view(effects@) =~= Seq::<EffectView>::empty());
            Flow { effects, error: None }
        },
    }
}


/// Reacts to a text frame of the gateway, as `handle_gateway_text` does,
/// unless the frame asks for a reconnect that would count one more attempt
/// while the counter is full: then `None`, and nothing is decided.
pub fn handle_gateway_frame(
    text: &str,
    stored: &Option<GatewayState>,
    mem: &GatewayMemory,
    creds: Option<&GatewayCredentials>,
    m: Moment,
) -> (r: Option<Flow>)
    ensures
        match decoded_gateway_message(text@) {
            Some(msg) => if message_counts_attempt(msg, mem@, m) && !backoff_ok(
                stored_or_initial(*stored),
            ) {
                r is None
            } else {
                r matches Some(f) && flow_is(
                    f,
                    message_flow(msg, stored_or_initial(*stored), mem@, creds_view(creds), m).0,
                    message_flow(msg, stored_or_initial(*stored), mem@, creds_view(creds), m).1,
                )
            },
            None => r matches Some(f) && flow_is(f, seq![], None),
        },
{
    let counts = match parse_gateway_message(text) {
        Some(GatewayMessage::Reconnect) => recent_reconnects(&mem.reconnect_timestamps, m.now).len()
            >= 5,
        _ => false,
    };
    let full = match stored {
        Some(s) => s.reconnect_attempts == u32::MAX,
        None => false,
    };
    if counts && full {
        None
    } else {
        Some(handle_gateway_text(text, stored, mem, creds, m))
    }
}

/// One step of a connection attempt.
#[derive(Debug)]
pub enum ConnectStep {
    /// Perform the effects; then the attempt ends with the result.
    Done(Vec<GatewayEffect>, Result<(), ConnectError>),
    /// Ask the gateway endpoint with the bot token, then hand the answer
    /// and the state to `connect_after_gateway_info`.
    FetchGatewayInfo(GatewayState, String),
    /// Perform the effects, open a socket to the URL, then hand the outcome
    /// and the state to `connect_after_open`.
    OpenSocket(Vec<GatewayEffect>, GatewayState, String),
}

/// A step of a connection attempt as mathematical values.
pub enum ConnectStepView {
    Done(Seq<EffectView>, Result<(), (Seq<char>, bool)>),
    FetchGatewayInfo(GatewayStateView, Seq<char>),
    OpenSocket(Seq<EffectView>, GatewayStateView, Seq<char>),
}

impl View for ConnectStep {
    type V = ConnectStepView;

    open spec fn view(&self) -> ConnectStepView {
        match self {
            ConnectStep::Done(e, r) => ConnectStepView::Done(
                effects_view(e@),
                match r {
                    Ok(()) => Ok(()),
                    Err(c) => Err((c.error@, c.retry_scheduled)),
                },
            ),
            ConnectStep::FetchGatewayInfo(s, t) => ConnectStepView::FetchGatewayInfo(s@, t@),
            ConnectStep::OpenSocket(e, s, u) => ConnectStepView::OpenSocket(effects_view(e@), s@, u@),
        }
    }
}

/// The step that puts effects in front of another step's effects.
pub open spec fn after(prefix: Seq<EffectView>, step: ConnectStepView) -> ConnectStepView {
    match step {
        ConnectStepView::Done(e, r) => ConnectStepView::Done(prefix + e, r),
        ConnectStepView::OpenSocket(e, s, u) => ConnectStepView::OpenSocket(prefix + e, s, u),
        ConnectStepView::FetchGatewayInfo(s, t) => ConnectStepView::FetchGatewayInfo(s, t),
    }
}

/// Connecting once the socket URL is known. A new session is not started
/// while an identify cooldown runs, nor when no session may start: then the
/// alarm is set for when that ends. Otherwise the connection time is
/// stored and the socket opened.
pub open spec fn connect_with_url(s: GatewayStateView, m: Moment) -> ConnectStepView {
    let needs_identify = !resumable(s);
    if needs_identify && s.identify_cooldown_until is Some && m.now
        < s.identify_cooldown_until->0 {
        ConnectStepView::Done(
            seq![EffectView::SetAlarmQuietly(s.identify_cooldown_until->0)],
            Err(("identify cooldown active"@, true)),
        )
    } else if needs_identify && (match s.session_start_remaining {
        Some(r) => r == 0,
        None => false,
    }) && s.session_start_reset_after_ms is Some {
        let until = later(m.now, s.session_start_reset_after_ms->0 as int);
        ConnectStepView::Done(
            seq![
                EffectView::SaveState(
                    GatewayStateView { identify_cooldown_until: Some(until), ws_url: None, ..s },
                ),
                EffectView::SetAlarmQuietly(until),
            ],
            Err(("session start limit exhausted"@, true)),
        )
    } else {
        let n = GatewayStateView {
            heartbeat_interval_ms: None,
            last_heartbeat_ack: Some(m.now),
            connected_at: Some(m.now),
            reconnect_disabled: false,
            ..s
        };
        ConnectStepView::OpenSocket(seq![EffectView::SaveState(n)], n, s.ws_url->0)
    }
}

fn connect_with_known_url(state: GatewayState, m: Moment) -> (r: ConnectStep)
    requires
        state.ws_url is Some,
    ensures
        r@ == connect_with_url(state@, m),
{
    let mut state = state;
    let needs_identify = !can_resume(&state);
    if needs_identify {
        if let Some(cooldown) = state.identify_cooldown_until {
            if m.now < cooldown {
                let mut effects: Vec<GatewayEffect> = Vec::new();
                emit(&mut effects, GatewayEffect::SetAlarmQuietly(cooldown));
                let err = ConnectError {
                    error: String::from_str("identify cooldown active"),
                    retry_scheduled: true,
                };
                assert(effects_view(effects@) =~= seq![EffectView::SetAlarmQuietly(cooldown)]);
                let r = ConnectStep::Done(effects, Err(err));
                assert(r@ == connect_with_url(state@, m));
                return r;
            }
        }
        let exhausted = match state.session_start_remaining {
            Some(r) => r == 0,
            None => false,
        };
        if exhausted {
            if let Some(reset) = state.session_start_reset_after_ms {
                let until = later_by(m.now, reset);
                let ghost before = state@;
                state.identify_cooldown_until = Some(until);
                state.ws_url = None;
                let mut effects: Vec<GatewayEffect> = Vec::new();
                emit(&mut effects, GatewayEffect::SaveState(state));
                emit(&mut effects, GatewayEffect::SetAlarmQuietly(until));
                let err = ConnectError {
                    error: String::from_str("session start limit exhausted"),
                    retry_scheduled: true,
                };
                let r = ConnectStep::Done(effects, Err(err));
                assert(effects_view(effects@) =~= seq![
                    EffectView::SaveState(
                        GatewayStateView { identify_cooldown_until: Some(until), ws_url: None, ..before },
                    ),
                    EffectView::SetAlarmQuietly(until),
                ]);
                assert(r@ == connect_with_url(before, m));
                return r;
            }
        }
    }
    let url = match &state.ws_url {
        Some(u) => u.clone(),
        None => String::new(),
    };
    let ghost before = state@;
    state.heartbeat_interval_ms = None;
    state.last_heartbeat_ack = Some(m.now);
    state.connected_at = Some(m.now);
    state.reconnect_disabled = false;
    let mut effects: Vec<GatewayEffect> = Vec::new();
    emit(&mut effects, GatewayEffect::SaveState(state.clone()));
    assert(effects_view(effects@) =~= seq![EffectView::SaveState(state@)]);
    let r = ConnectStep::OpenSocket(effects, state, url);
    assert(r@ == connect_with_url(before, m));
    r
}

/// The first step of a connection attempt. Nothing is done while a socket
/// is held; no attempt is made after a terminal close code or without
/// credentials; the gateway endpoint is asked when the socket URL is not
/// known.
pub open spec fn connect_first_step(
    stored: GatewayStateView,
    upstream_open: bool,
    creds: Option<GatewayCredentialsView>,
    m: Moment,
) -> ConnectStepView {
    if upstream_open {
        ConnectStepView::Done(seq![], Ok(()))
    } else if stored.reconnect_disabled {
        ConnectStepView::Done(seq![], Err(("reconnect disabled after terminal close code"@, false)))
    } else if creds is None {
        ConnectStepView::Done(seq![], Err(("no credentials stored; cannot connect"@, false)))
    } else if stored.ws_url is None {
        ConnectStepView::FetchGatewayInfo(stored, creds->0.bot_token)
    } else {
        connect_with_url(stored, m)
    }
}

/// Begins a connection attempt. The state is the stored one.
pub fn connect_begin(
    stored: &Option<GatewayState>,
    upstream_open: bool,
    creds: Option<&GatewayCredentials>,
    m: Moment,
) -> (r: ConnectStep)
    ensures
        r@ == connect_first_step(stored_or_initial(*stored), upstream_open, creds_view(creds), m),
{
    let state = match stored {
        Some(s) => s.clone(),
        None => GatewayState::default(),
    };
    if upstream_open {
        let effects: Vec<GatewayEffect> = Vec::new();
        assert(effects_view(effects@) =~= Seq::<EffectView>::empty());
        return ConnectStep::Done(effects, Ok(()));
    }
    if state.reconnect_disabled {
        let effects: Vec<GatewayEffect> = Vec::new();
        assert(effects_view(effects@) =~= Seq::<EffectView>::empty());
        let err = ConnectError {
            error: String::from_str("reconnect disabled after terminal close code"),
            retry_scheduled: false,
        };
        return ConnectStep::Done(effects, Err(err));
    }
    let creds = match creds {
        Some(c) => c,
        None => {
            let effects: Vec<GatewayEffect> = Vec::new();
            assert(effects_view(effects@) =~= Seq::<EffectView>::empty());
            let err = ConnectError {
                error: String::from_str("no credentials stored; cannot connect"),
                retry_scheduled: false,
            };
            return ConnectStep::Done(effects, Err(err));
        },
    };
    if state.ws_url.is_none() {
        return ConnectStep::FetchGatewayInfo(state, creds.bot_token.clone());
    }
    connect_with_known_url(state, m)
}

/// The step after the gateway endpoint answered. Its URL and session start
/// limits are stored; a retryable API error schedules a reconnect with
/// backoff; other errors end the attempt.
pub open spec fn gateway_info_step(
    s: GatewayStateView,
    info: Result<GatewayInfo, GatewayError>,
    upstream_open: bool,
    m: Moment,
) -> ConnectStepView {
    match info {
        Ok(i) => {
            let n = GatewayStateView {
                ws_url: Some(i.url@),
                session_start_remaining: Some(i.session_start_limit.remaining),
                session_start_reset_after_ms: Some(i.session_start_limit.reset_after),
                session_start_max_concurrency: Some(i.session_start_limit.max_concurrency),
                session_start_total: Some(i.session_start_limit.total),
                ..s
            };
            after(seq![EffectView::SaveState(n)], connect_with_url(n, m))
        },
        Err(GatewayError::Api(msg, retryable, _)) => if retryable {
            ConnectStepView::Done(
                backoff_effects(s, Some(s.reconnect_strategy), false, upstream_open, m),
                Err((msg@, true)),
            )
        } else {
            ConnectStepView::Done(seq![], Err((msg@, false)))
        },
        Err(GatewayError::Network(msg)) => ConnectStepView::Done(seq![], Err((msg@, false))),
    }
}

/// Continues a connection attempt with the answer of the gateway endpoint.
pub fn connect_after_gateway_info(
    state: GatewayState,
    info: Result<GatewayInfo, GatewayError>,
    upstream_open: bool,
    m: Moment,
) -> (r: ConnectStep)
    requires
        info_counts_attempt(info) ==> backoff_ok(state@),
    ensures
        r@ == gateway_info_step(state@, info, upstream_open, m),
{
    let ghost info0 = info;
    match info {
        Ok(i) => {
            let mut s = state;
            s.ws_url = Some(i.url);
            s.session_start_remaining = Some(i.session_start_limit.remaining);
            s.session_start_reset_after_ms = Some(i.session_start_limit.reset_after);
            s.session_start_max_concurrency = Some(i.session_start_limit.max_concurrency);
            s.session_start_total = Some(i.session_start_limit.total);
            let ghost n = s@;
            let next = connect_with_known_url(s.clone(), m);
            let ghost next_view = next@;
            let mut effects: Vec<GatewayEffect> = Vec::new();
            emit(&mut effects, GatewayEffect::SaveState(s));
            assert(effects_view(effects@) =~= seq![EffectView::SaveState(n)]);
            let r = match next {
                ConnectStep::Done(more, res) => {
                    emit_all(&mut effects, more);
                    let r = ConnectStep::Done(effects, res);
                    assert(r@ == after(seq![EffectView::SaveState(n)], next_view));
                    r
                },
                ConnectStep::OpenSocket(more, st, url) => {
                    emit_all(&mut effects, more);
                    let r = ConnectStep::OpenSocket(effects, st, url);
                    assert(r@ == after(seq![EffectView::SaveState(n)], next_view));
                    r
                },
                ConnectStep::FetchGatewayInfo(st, tok) => ConnectStep::FetchGatewayInfo(st, tok),
            };
            assert(r@ == gateway_info_step(state@, info0, upstream_open, m));
            r
        },
        Err(GatewayError::Api(msg, retryable, _status)) => {
            if retryable {
                let options = ReconnectOptions {
                    strategy: Some(state.reconnect_strategy),
                    clear_session: false,
                    reason: Some(msg.clone()),
                };
                let effects = reconnect_with_backoff(&state, Some(options), upstream_open, m);
                ConnectStep::Done(effects, Err(ConnectError { error: msg, retry_scheduled: true }))
            } else {
                let effects: Vec<GatewayEffect> = Vec::new();
                assert(effects_view(effects@) =~= Seq::<EffectView>::empty());
                ConnectStep::Done(effects, Err(ConnectError { error: msg, retry_scheduled: false }))
            }
        },
        Err(GatewayError::Network(msg)) => {
            let effects: Vec<GatewayEffect> = Vec::new();
            assert(effects_view(effects@) =~= Seq::<EffectView>::empty());
            ConnectStep::Done(effects, Err(ConnectError { error: msg, retry_scheduled: false }))
        },
    }
}

/// The last step of a connection attempt, after the socket was opened or
/// not. An open socket clears the disconnect and reconnect flags; a
/// retryable failure schedules a reconnect with backoff; any other failure
/// forgets the socket URL.
pub open spec fn open_step(
    s: GatewayStateView,
    outcome: Result<(), OpenWebSocketError>,
    upstream_open: bool,
    m: Moment,
) -> (Seq<EffectView>, Result<(), (Seq<char>, bool)>) {
    match outcome {
        Ok(()) => (
            seq![EffectView::SetSuppressReconnect(false), EffectView::SetReconnectPlanned(false)],
            Ok(()),
        ),
        Err(e) => if e.retryable {
            (
                backoff_effects(s, Some(s.reconnect_strategy), false, upstream_open, m),
                Err((e.error@, true)),
            )
        } else {
            (
                seq![EffectView::SaveState(GatewayStateView { ws_url: None, ..s })],
                Err((e.error@, false)),
            )
        },
    }
}

/// Ends a connection attempt with the outcome of opening the socket.
pub fn connect_after_open(
    state: GatewayState,
    outcome: Result<(), OpenWebSocketError>,
    upstream_open: bool,
    m: Moment,
) -> (r: (Vec<GatewayEffect>, Result<(), ConnectError>))
    requires
        open_counts_attempt(outcome) ==> backoff_ok(state@),
    ensures
        (effects_view(r.0@), match r.1 {
            Ok(()) => Ok(()),
            Err(c) => Err((c.error@, c.retry_scheduled)),
        }) == open_step(state@, outcome, upstream_open, m),
{
    let mut effects: Vec<GatewayEffect> = Vec::new();
    match outcome {
        Ok(()) => {
            emit(&mut effects, GatewayEffect::SetSuppressReconnect(false));
            emit(&mut effects, GatewayEffect::SetReconnectPlanned(false));
            assert(effects_view(effects@) =~= open_step(state@, outcome, upstream_open, m).0);
            (effects, Ok(()))
        },
        Err(e) => {
            if e.retryable {
                let options = ReconnectOptions {
                    strategy: Some(state.reconnect_strategy),
                    clear_session: false,
                    reason: Some(e.error.clone()),
                };
                let effects = reconnect_with_backoff(&state, Some(options), upstream_open, m);
                (effects, Err(ConnectError { error: e.error, retry_scheduled: true }))
            } else {
                let mut s = state;
                s.ws_url = None;
                emit(&mut effects, GatewayEffect::SaveState(s));
                assert(effects_view(effects@) =~= seq![
                    EffectView::SaveState(GatewayStateView { ws_url: None, ..state@ }),
                ]);
                (effects, Err(ConnectError { error: e.error, retry_scheduled: false }))
            }
        },
    }
}


/// The view of an optional state.
pub open spec fn state_view(stored: Option<GatewayState>) -> Option<GatewayStateView> {
    match stored {
        Some(s) => Some(s@),
        None => None,
    }
}

/// What the alarm does: nothing after a terminal close code; otherwise it
/// connects when nothing is stored (and credentials are), waits out an
/// identify cooldown, connects when no socket URL is known or the socket
/// was lost, logs in when no heartbeat runs, reconnects when the last
/// heartbeat was not acknowledged within two intervals, and else sends a
/// heartbeat and schedules the next one. The last part says whether a
/// connection attempt follows the effects.
pub open spec fn alarm_plan(
    stored: Option<GatewayStateView>,
    mem: MemoryView,
    creds: Option<GatewayCredentialsView>,
    m: Moment,
) -> (Seq<EffectView>, Option<Seq<char>>, bool) {
    if mem.reconnect_disabled {
        (seq![], None, false)
    } else if stored is None {
        (seq![], None, creds is Some)
    } else {
        let s = stored->0;
        if s.reconnect_disabled {
            (seq![EffectView::SetReconnectDisabled(true), EffectView::DeleteAlarm], None, false)
        } else if s.identify_cooldown_until is Some && m.now < s.identify_cooldown_until->0 {
            (
                seq![EffectView::SetAlarm(later(m.now, s.identify_cooldown_until->0 as int))],
                None,
                false,
            )
        } else if s.ws_url is None {
            (seq![], None, true)
        } else if !mem.upstream_open {
            (
                seq![
                    EffectView::SaveState(
                        GatewayStateView { ws_url: None, heartbeat_interval_ms: None, ..s },
                    ),
                ],
                None,
                true,
            )
        } else if s.heartbeat_interval_ms is None {
            let l = login_effects(s, true, creds, m);
            (l.0, l.1, false)
        } else if m.now - (match s.last_heartbeat_ack {
            Some(a) => a as int,
            None => 0,
        }) > 2 * s.heartbeat_interval_ms->0 {
            (
                backoff_effects(s, Some(ReconnectStrategy::ResumeOrIdentify), false, true, m),
                None,
                false,
            )
        } else {
            (heartbeat_effects(s, true) + schedule_effects(s, m), None, false)
        }
    }
}

/// Whether the alarm counts a reconnect attempt: the socket is open and
/// the heartbeat runs, but the last heartbeat was not acknowledged within
/// two intervals.
pub open spec fn alarm_counts_attempt(
    stored: Option<GatewayStateView>,
    mem: MemoryView,
    m: Moment,
) -> bool {
    &&& !mem.reconnect_disabled
    &&& stored is Some
    &&& !stored->0.reconnect_disabled
    &&& !(stored->0.identify_cooldown_until is Some && m.now
        < stored->0.identify_cooldown_until->0)
    &&& stored->0.ws_url is Some
    &&& mem.upstream_open
    &&& stored->0.heartbeat_interval_ms is Some
    &&& m.now - (match stored->0.last_heartbeat_ack {
        Some(a) => a as int,
        None => 0,
    }) > 2 * stored->0.heartbeat_interval_ms->0
}

/// Whether the alarm counts a reconnect attempt. The state is the stored
/// one.
pub fn alarm_would_count(stored: &Option<GatewayState>, mem: &GatewayMemory, m: Moment) -> (r:
    bool)
    ensures
        r == alarm_counts_attempt(state_view(*stored), mem@, m),
{
    let s = match stored {
        Some(s) => s,
        None => return false,
    };
    if mem.reconnect_disabled || s.reconnect_disabled || !mem.upstream_open || s.ws_url.is_none() {
        return false;
    }
    if let Some(cooldown) = s.identify_cooldown_until {
        if m.now < cooldown {
            return false;
        }
    }
    let interval = match s.heartbeat_interval_ms {
        Some(i) => i,
        None => return false,
    };
    let last_ack: u64 = match s.last_heartbeat_ack {
        Some(a) => a,
        None => 0,
    };
    (m.now as i128) - (last_ack as i128) > 2 * (interval as i128)
}

/// What the alarm decided: a flow, then possibly a connection attempt.
#[derive(Debug)]
pub struct AlarmStep {
    pub flow: Flow,
    pub then_connect: bool,
}

/// Decides what the alarm does. The state is the stored one.
pub fn alarm(
    stored: &Option<GatewayState>,
    mem: &GatewayMemory,
    creds: Option<&GatewayCredentials>,
    m: Moment,
) -> (r: AlarmStep)
    requires
        alarm_counts_attempt(state_view(*stored), mem@, m) ==> backoff_ok(stored_or_initial(*stored)),
    ensures
        ({
            let p = alarm_plan(state_view(*stored), mem@, creds_view(creds), m);
            flow_is(r.flow, p.0, p.1) && r.then_connect == p.2
        }),
{
    let ghost p = alarm_plan(state_view(*stored), mem@, creds_view(creds), m);
    let mut effects: Vec<GatewayEffect> = Vec::new();
    assert(effects_view(effects@) =~= Seq::<EffectView>::empty());
    if mem.reconnect_disabled {
        return AlarmStep { flow: Flow { effects, error: None }, then_connect: false };
    }
    let state = match stored {
        Some(s) => s,
        None => {
            return AlarmStep { flow: Flow { effects, error: None }, then_connect: creds.is_some() };
        },
    };
    if state.reconnect_disabled {
        emit(&mut effects, GatewayEffect::SetReconnectDisabled(true));
        emit(&mut effects, GatewayEffect::DeleteAlarm);
        assert(effects_view(effects@) =~= p.0);
        return AlarmStep { flow: Flow { effects, error: None }, then_connect: false };
    }
    if let Some(cooldown) = state.identify_cooldown_until {
        if m.now < cooldown {
            emit(&mut effects, GatewayEffect::SetAlarm(later_by(m.now, cooldown)));
            assert(effects_view(effects@) =~= p.0);
            return AlarmStep { flow: Flow { effects, error: None }, then_connect: false };
        }
    }
    if state.ws_url.is_none() {
        return AlarmStep { flow: Flow { effects, error: None }, then_connect: true };
    }
    if !mem.upstream_open {
        let mut s = state.clone();
        s.ws_url = None;
        s.heartbeat_interval_ms = None;
        emit(&mut effects, GatewayEffect::SaveState(s));
        assert(effects_view(effects@) =~= p.0);
        return AlarmStep { flow: Flow { effects, error: None }, then_connect: true };
    }
    let interval = match state.heartbeat_interval_ms {
        Some(i) => i,
        None => {
            let (login, error) = identify_or_resume(state, true, creds, m);
            return AlarmStep { flow: Flow { effects: login, error }, then_connect: false };
        },
    };
    let last_ack: u64 = match state.last_heartbeat_ack {
        Some(a) => a,
        None => 0,
    };
    if (m.now as i128) - (last_ack as i128) > 2 * (interval as i128) {
        let options = ReconnectOptions {
            strategy: Some(ReconnectStrategy::ResumeOrIdentify),
            clear_session: false,
            reason: Some(String::from_str("heartbeat missed")),
        };
        let effects = reconnect_with_backoff(state, Some(options), true, m);
        return AlarmStep { flow: Flow { effects, error: None }, then_connect: false };
    }
    emit_all(&mut effects, send_heartbeat(state, true));
    emit_all(&mut effects, schedule_heartbeat(state, m));
    assert(effects_view(effects@) =~= p.0);
    AlarmStep { flow: Flow { effects, error: None }, then_connect: false }
}

/// Accepting a connect request: the credentials are stored and
/// reconnecting is allowed again; a connection attempt follows.
pub open spec fn connect_request_effects(
    creds: GatewayCredentialsView,
    stored: GatewayStateView,
) -> Seq<EffectView> {
    seq![
        EffectView::StoreCredentials(creds),
        EffectView::SaveState(GatewayStateView { reconnect_disabled: false, ..stored }),
        EffectView::SetReconnectDisabled(false),
    ]
}

/// Checks a connect request and, when it is accepted, says what to store.
/// The state is the stored one.
pub fn connect_request(creds: GatewayCredentials, stored: &Option<GatewayState>) -> (r: Result<
    Vec<GatewayEffect>,
    String,
>)
    ensures
        match credentials_refusal(
            creds.bot_token@,
            match creds.webhook_url {
                Some(u) => Some(url_parts(u@)),
                None => None,
            },
        ) {
            Some(msg) => r is Err && r->Err_0@ == msg,
            None => r is Ok && effects_view(r->Ok_0@) == connect_request_effects(
                creds@,
                stored_or_initial(*stored),
            ),
        },
{
    match validate_credentials(&creds) {
        Err(e) => Err(e),
        Ok(()) => {
            let mut state = match stored {
                Some(s) => s.clone(),
                None => GatewayState::default(),
            };
            state.reconnect_disabled = false;
            let mut effects: Vec<GatewayEffect> = Vec::new();
            emit(&mut effects, GatewayEffect::StoreCredentials(creds));
            emit(&mut effects, GatewayEffect::SaveState(state));
            emit(&mut effects, GatewayEffect::SetReconnectDisabled(false));
            assert(effects_view(effects@) =~= connect_request_effects(
                creds@,
                stored_or_initial(*stored),
            ));
            Ok(effects)
        },
    }
}

/// Disconnecting: the socket is closed, the state, the alarm and the
/// credentials are deleted, and reconnecting is allowed again.
pub open spec fn disconnect_effects(upstream_open: bool) -> Seq<EffectView> {
    (if upstream_open {
        seq![
            EffectView::SetSuppressReconnect(true),
            EffectView::CloseSocket(1000, "client disconnect"@),
        ]
    } else {
        seq![]
    }) + seq![
        EffectView::DeleteState,
        EffectView::SetReconnectDisabled(false),
        EffectView::DeleteAlarm,
        EffectView::DeleteCredentials,
    ]
}

/// What a disconnect does.
pub fn disconnect(upstream_open: bool) -> (r: Vec<GatewayEffect>)
    ensures
        effects_view(r@) == disconnect_effects(upstream_open),
{
    let mut effects: Vec<GatewayEffect> = Vec::new();
    if upstream_open {
        emit(&mut effects, GatewayEffect::SetSuppressReconnect(true));
        emit(&mut effects, GatewayEffect::CloseSocket(1000, String::from_str("client disconnect")));
    }
    emit(&mut effects, GatewayEffect::DeleteState);
    emit(&mut effects, GatewayEffect::SetReconnectDisabled(false));
    emit(&mut effects, GatewayEffect::DeleteAlarm);
    emit(&mut effects, GatewayEffect::DeleteCredentials);
    assert(effects_view(effects@) =~= disconnect_effects(upstream_open));
    effects
}

} // verus!
