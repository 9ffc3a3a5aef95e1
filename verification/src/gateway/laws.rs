//! What holds of the gateway's decisions across calls.

use vstd::prelude::*;

use crate::gateway::constants::non_reconnectable_codes;
use crate::gateway::credentials::GatewayCredentialsView;
use crate::gateway::effect::{apply_effect, apply_effects, EffectView, MemoryView, WorldView};
use crate::gateway::machine::{
    alarm_plan, backoff_base_ms, backoff_delay_ms, backoff_effects, backoff_ok, backoff_state,
    close_effects, disconnect_effects, dispatch_effects, invalidated_state, later, login_effects,
    prompt_state, recent, reconnect_request_effects, stop_effects, Moment, message_flow,
    error_effects, alarm_counts_attempt, connect_first_step, gateway_info_step, rate_limited,
    ConnectStepView,
};
use crate::gateway::event::GatewayMessageView;
use crate::gateway::utils::{GatewayInfo, GatewayError};
use crate::gateway::state::{GatewayStateView, ReconnectStrategy};
use crate::gateway::utils::{close_policy, private_hostname, resumable};
use crate::gateway::webhook::{webhook_refusal, UrlPartsView};
use crate::text::{ascii_lower, lower};

verus! {

proof fn lemma_apply_two(w: WorldView, a: Seq<EffectView>, b: Seq<EffectView>)
    ensures
        apply_effects(w, a + b) == apply_effects(apply_effects(w, a), b),
    decreases b.len(),
{
    if b.len() == 0 {
        assert(a + b =~= a);
    } else {
        assert((a + b).drop_last() =~= a + b.drop_last());
        lemma_apply_two(w, a, b.drop_last());
    }
}

/// After the socket closed with a terminal code, and neither a disconnect
/// nor a planned reconnect caused it, reconnecting stops for good: the
/// flag is set in memory and in the stored state, the alarm is deleted,
/// and an alarm that still fires does nothing.
pub proof fn law_terminal_close_stops_reconnecting(
    code: u16,
    s: GatewayStateView,
    w: WorldView,
    m: Moment,
    later_moment: Moment,
    creds: Option<GatewayCredentialsView>,
)
    requires
        non_reconnectable_codes().contains(code),
        !w.memory.suppress_reconnect,
        !w.memory.reconnect_planned,
    ensures
        ({
            let w2 = apply_effects(w, close_effects(code, s, w.memory, m));
            &&& w2.memory.reconnect_disabled
            &&& w2.memory.upstream_open == false
            &&& w2.storage.alarm is None
            &&& w2.storage.state matches Some(st) && st.reconnect_disabled
            &&& alarm_plan(w2.storage.state, w2.memory, creds, later_moment) == (
                Seq::<EffectView>::empty(),
                None::<Seq<char>>,
                false,
            )
        }),
{
    let es = close_effects(code, s, w.memory, m);
    assert(!close_policy(code).should_reconnect);
    let a = seq![EffectView::ClearUpstream, EffectView::SetReconnectDisabled(true)];
    assert(es =~= a + stop_effects(s, code));
    lemma_apply_two(w, a, stop_effects(s, code));
    reveal_with_fuel(apply_effects, 4);
}

/// While fewer than `2^31 - 1` attempts were counted, a reconnect with
/// backoff counts one more attempt, forgets the socket URL and the
/// heartbeat, and sets the alarm between two seconds and one minute and one
/// second from now (less only where the time no longer fits).
pub proof fn law_backoff_delay(
    s: GatewayStateView,
    strategy: Option<ReconnectStrategy>,
    clear: bool,
    upstream_open: bool,
    m: Moment,
)
    requires
        s.reconnect_attempts < 0x7fff_ffff,
        m.random < 1_000_000,
    ensures
        ({
            let es = backoff_effects(s, strategy, clear, upstream_open, m);
            let n = backoff_state(s, strategy, clear);
            &&& es[0] == EffectView::SaveState(n)
            &&& n.reconnect_attempts == s.reconnect_attempts + 1
            &&& n.ws_url is None
            &&& n.heartbeat_interval_ms is None
            &&& !n.reconnect_disabled
            &&& (es.last() matches EffectView::SetAlarm(t) && (m.now + 61_000 <= u64::MAX ==> m.now
                + 2000 <= t < m.now + 61_000))
        }),
{
    let n = backoff_state(s, strategy, clear);
    assert(2000 <= backoff_base_ms(n.reconnect_attempts) <= 60000);
}

/// A session that can be resumed stays resumable through a reconnect with
/// backoff that keeps the session, and the next login on the new socket
/// resumes it with the same session id and sequence number.
pub proof fn law_reconnect_resumes_session(
    s: GatewayStateView,
    upstream_open: bool,
    creds: GatewayCredentialsView,
    m: Moment,
)
    requires
        resumable(s),
    ensures
        ({
            let n = backoff_state(s, Some(ReconnectStrategy::ResumeOrIdentify), false);
            &&& resumable(n)
            &&& login_effects(n, true, Some(creds), m) == (
                seq![EffectView::SendResume(s.sequence->0, s.session_id->0, creds.bot_token)],
                None::<Seq<char>>,
            )
        }),
{
}

/// After the gateway invalidated a session that cannot be resumed, the
/// next login does not resume: it identifies, or waits.
pub proof fn law_invalid_session_forces_identify(
    s: GatewayStateView,
    creds: GatewayCredentialsView,
    m: Moment,
)
    ensures
        ({
            let n = invalidated_state(s, false);
            &&& !resumable(n)
            &&& n.session_id is None
            &&& n.sequence is None
            &&& forall|i: int|
                0 <= i < login_effects(n, true, Some(creds), m).0.len() ==> !(#[trigger] login_effects(
                    n,
                    true,
                    Some(creds),
                    m,
                ).0[i] is SendResume)
        }),
{
}

/// No new session is started while none may start: with no session start
/// left and a reset time, the login sends no identify.
pub proof fn law_no_identify_without_session_starts(
    s: GatewayStateView,
    creds: GatewayCredentialsView,
    m: Moment,
)
    requires
        s.session_start_remaining == Some(0u32),
        s.session_start_reset_after_ms matches Some(r) && r > 0,
    ensures
        forall|i: int|
            0 <= i < login_effects(s, true, Some(creds), m).0.len() ==> !(#[trigger] login_effects(
                s,
                true,
                Some(creds),
                m,
            ).0[i] is SendIdentify),
{
}

/// The number of reconnect attempts counts the failures since the last
/// ready or resumed session: a backoff adds one, a prompt reconnect keeps
/// it, readiness and a resume set it to zero.
pub proof fn law_attempts_count(
    s: GatewayStateView,
    strategy: Option<ReconnectStrategy>,
    clear: bool,
    session_id: Seq<char>,
    resume_url: Seq<char>,
)
    requires
        backoff_ok(s),
    ensures
        backoff_state(s, strategy, clear).reconnect_attempts == s.reconnect_attempts + 1,
        prompt_state(s, strategy, clear).reconnect_attempts == s.reconnect_attempts,
        dispatch_effects(
            s,
            crate::gateway::event::DispatchKindView::Ready(session_id, resume_url),
        )[0] matches EffectView::SaveState(n) && n.reconnect_attempts == 0 && n.session_id == Some(
            session_id,
        ) && n.resume_gateway_url == Some(resume_url),
        dispatch_effects(s, crate::gateway::event::DispatchKindView::Resumed)[0] matches EffectView::SaveState(
            n,
        ) && n.reconnect_attempts == 0,
{
}

/// Reconnects that the gateway asks for are rate limited: the object keeps
/// at most five recent ones, and asks for a prompt reconnect only while
/// fewer than five happened in the last minute; beyond that it backs off.
pub proof fn law_reconnect_rate_limit(s: GatewayStateView, mem: MemoryView, m: Moment)
    requires
        mem.reconnect_timestamps.len() <= 5,
    ensures
        ({
            let es = reconnect_request_effects(s, mem, m);
            let kept = recent(mem.reconnect_timestamps, m.now);
            &&& es[0] matches EffectView::SetReconnectTimestamps(ts) && ts.len() <= 5
            &&& kept.len() >= 5 ==> es.last() == EffectView::SetAlarm(
                later(
                    m.now,
                    backoff_delay_ms(
                        backoff_state(
                            s,
                            Some(ReconnectStrategy::ResumeOrIdentify),
                            false,
                        ).reconnect_attempts,
                        m,
                    ),
                ),
            )
            &&& kept.len() < 5 ==> es.last() == EffectView::SetAlarm(later(m.now, 1000))
        }),
{
    let ts = mem.reconnect_timestamps;
    ts.lemma_filter_len(|t: u64| m.now - t < 60_000);
}

/// A disconnect is quiet: the close event of the socket it closed only
/// clears the flag that the disconnect set, and schedules nothing.
pub proof fn law_disconnect_is_quiet(w: WorldView, s: GatewayStateView, code: u16, m: Moment)
    requires
        w.memory.upstream_open,
    ensures
        ({
            let w2 = apply_effects(w, disconnect_effects(true));
            &&& w2.memory.suppress_reconnect
            &&& !w2.memory.upstream_open
            &&& w2.storage.state is None
            &&& w2.storage.credentials is None
            &&& w2.storage.alarm is None
            &&& close_effects(code, s, w2.memory, m) == seq![
                EffectView::ClearUpstream,
                EffectView::SetSuppressReconnect(false),
            ]
            &&& !apply_effects(w2, close_effects(code, s, w2.memory, m)).memory.suppress_reconnect
        }),
{
    reveal_with_fuel(apply_effects, 7);
}

/// While the socket is open, the heartbeat runs and the last heartbeat was
/// acknowledged within two intervals, the alarm sends a heartbeat with the
/// last sequence number and sets itself one interval later.
pub proof fn law_alarm_keeps_heartbeat(
    s: GatewayStateView,
    mem: MemoryView,
    creds: Option<GatewayCredentialsView>,
    m: Moment,
)
    requires
        !mem.reconnect_disabled,
        mem.upstream_open,
        !s.reconnect_disabled,
        s.identify_cooldown_until is None,
        s.ws_url is Some,
        s.heartbeat_interval_ms is Some,
        s.last_heartbeat_ack matches Some(a) && m.now - a <= 2 * s.heartbeat_interval_ms->0,
    ensures
        alarm_plan(Some(s), mem, creds, m) == (
            seq![
                EffectView::SendHeartbeat(s.sequence),
                EffectView::SetAlarm(later(m.now, s.heartbeat_interval_ms->0 as int)),
            ],
            None::<Seq<char>>,
            false,
        ),
{
}

/// A webhook URL is accepted only when it parsed, uses HTTPS, carries no
/// user name or password, and names a publicly routable host.
pub proof fn law_accepted_webhook_is_public_https(parts: Option<UrlPartsView>)
    requires
        webhook_refusal(parts) is None,
    ensures
        parts matches Some((scheme, username, password, host)) && {
            &&& scheme == seq!['h', 't', 't', 'p', 's']
            &&& username.len() == 0
            &&& (password matches Some(p) ==> p.len() == 0)
            &&& !private_hostname(
                match host {
                    Some(h) => h,
                    None => Seq::empty(),
                },
            )
        },
{
}

proof fn lemma_lower_idempotent(s: Seq<char>)
    ensures
        lower(lower(s)) == lower(s),
{
    assert forall|i: int| 0 <= i < s.len() implies ascii_lower(ascii_lower(s[i])) == ascii_lower(
        s[i],
    ) by {
        let c = s[i];
        if 'A' <= c && c <= 'Z' {
            assert(((c as u32) + 32) as char == ascii_lower(c));
        }
    }
    assert(lower(lower(s)) =~= lower(s));
}

/// Whether a host is publicly routable does not depend on the case of its
/// letters.
pub proof fn law_private_hostname_ignores_case(host: Seq<char>)
    ensures
        private_hostname(lower(host)) == private_hostname(host),
{
    lemma_lower_idempotent(host);
}

/// What a reconnect that keeps the session leaves in a saved state `n`,
/// taken from `s`: the same session id and sequence number, a strategy that
/// allows resuming, and so a session that was there can be resumed, and the
/// next login resumes it.
pub open spec fn keeps_session(s: GatewayStateView, n: GatewayStateView) -> bool {
    &&& n.session_id == s.session_id
    &&& n.sequence == s.sequence
    &&& n.reconnect_strategy == ReconnectStrategy::ResumeOrIdentify
    &&& (s.session_id is Some && s.sequence is Some ==> resumable(n))
}

/// The next login after a kept session resumes it, with its id and
/// sequence number and the bot token.
proof fn lemma_kept_session_resumes(
    s: GatewayStateView,
    n: GatewayStateView,
    creds: GatewayCredentialsView,
    m: Moment,
)
    requires
        keeps_session(s, n),
        s.session_id is Some,
        s.sequence is Some,
    ensures
        login_effects(n, true, Some(creds), m).0 == seq![
            EffectView::SendResume(s.sequence->0, s.session_id->0, creds.bot_token),
        ],
{
}

/// When the gateway invalidates a session and says it can be resumed, the
/// saved state keeps the session id and sequence number, the strategy
/// allows resuming, and the next login resumes the session.
pub proof fn law_resumable_invalid_session_keeps_session(
    s: GatewayStateView,
    mem: MemoryView,
    creds: GatewayCredentialsView,
    m: Moment,
)
    ensures
        message_flow(GatewayMessageView::InvalidateSession(true), s, mem, Some(creds), m).0[0] matches EffectView::SaveState(n)
            && keeps_session(s, n) && (s.session_id is Some && s.sequence is Some ==> login_effects(
            n,
            true,
            Some(creds),
            m,
        ).0 == seq![EffectView::SendResume(s.sequence->0, s.session_id->0, creds.bot_token)]),
{
    let n = invalidated_state(s, true);
    if s.session_id is Some && s.sequence is Some {
        lemma_kept_session_resumes(s, n, creds, m);
    }
}

/// An error on the socket that neither a disconnect nor a planned
/// reconnect caused counts one attempt and keeps the session: the saved
/// state has the same session id and sequence number and a strategy that
/// allows resuming, and the next login resumes the session.
pub proof fn law_socket_error_keeps_session(
    s: GatewayStateView,
    mem: MemoryView,
    creds: GatewayCredentialsView,
    m: Moment,
)
    requires
        !mem.suppress_reconnect,
        !mem.reconnect_planned,
        backoff_ok(s),
    ensures
        error_effects(s, mem, m)[1] matches EffectView::SaveState(n) && keeps_session(s, n)
            && n.reconnect_attempts == s.reconnect_attempts + 1 && (s.session_id is Some
            && s.sequence is Some ==> login_effects(n, true, Some(creds), m).0 == seq![
            EffectView::SendResume(s.sequence->0, s.session_id->0, creds.bot_token),
        ]),
{
    let n = backoff_state(s, Some(ReconnectStrategy::ResumeOrIdentify), false);
    if s.session_id is Some && s.sequence is Some {
        lemma_kept_session_resumes(s, n, creds, m);
    }
}

/// When the alarm finds the last heartbeat unacknowledged for more than two
/// intervals, it reconnects with backoff and keeps the session: the saved
/// state has the same session id and sequence number and a strategy that
/// allows resuming, one more attempt is counted, and the next login
/// resumes the session.
pub proof fn law_missed_heartbeat_keeps_session(
    s: GatewayStateView,
    mem: MemoryView,
    creds: GatewayCredentialsView,
    m: Moment,
)
    requires
        alarm_counts_attempt(Some(s), mem, m),
        backoff_ok(s),
    ensures
        alarm_plan(Some(s), mem, Some(creds), m).0[0] matches EffectView::SaveState(n) && keeps_session(
            s,
            n,
        ) && n.reconnect_attempts == s.reconnect_attempts + 1 && (s.session_id is Some
            && s.sequence is Some ==> login_effects(n, true, Some(creds), m).0 == seq![
            EffectView::SendResume(s.sequence->0, s.session_id->0, creds.bot_token),
        ]),
        alarm_plan(Some(s), mem, Some(creds), m).0.last() is SetAlarm,
        !alarm_plan(Some(s), mem, Some(creds), m).2,
{
    let n = backoff_state(s, Some(ReconnectStrategy::ResumeOrIdentify), false);
    if s.session_id is Some && s.sequence is Some {
        lemma_kept_session_resumes(s, n, creds, m);
    }
}

/// A reconnect that the gateway asks for keeps the session, whether it
/// comes one second later or, when such requests are rate limited, with
/// backoff: the saved state has the same session id and sequence number and
/// a strategy that allows resuming, and the next login resumes the
/// session. Only the backoff counts an attempt.
pub proof fn law_requested_reconnect_keeps_session(
    s: GatewayStateView,
    mem: MemoryView,
    creds: GatewayCredentialsView,
    m: Moment,
)
    requires
        rate_limited(mem.reconnect_timestamps, m.now) ==> backoff_ok(s),
    ensures
        reconnect_request_effects(s, mem, m)[1] matches EffectView::SaveState(n) && keeps_session(
            s,
            n,
        ) && n.reconnect_attempts == (if rate_limited(mem.reconnect_timestamps, m.now) {
            s.reconnect_attempts + 1
        } else {
            s.reconnect_attempts as int
        }) && (s.session_id is Some && s.sequence is Some ==> login_effects(
            n,
            true,
            Some(creds),
            m,
        ).0 == seq![EffectView::SendResume(s.sequence->0, s.session_id->0, creds.bot_token)]),
        !rate_limited(mem.reconnect_timestamps, m.now) ==> reconnect_request_effects(s, mem, m).last()
            == EffectView::SetAlarm(later(m.now, 1000)),
        message_flow(GatewayMessageView::Reconnect, s, mem, Some(creds), m).0
            == reconnect_request_effects(s, mem, m),
{
    let n = if rate_limited(mem.reconnect_timestamps, m.now) {
        backoff_state(s, Some(ReconnectStrategy::ResumeOrIdentify), false)
    } else {
        prompt_state(s, Some(ReconnectStrategy::ResumeOrIdentify), false)
    };
    if s.session_id is Some && s.sequence is Some {
        lemma_kept_session_resumes(s, n, creds, m);
    }
}

/// While an identify cooldown runs, a connection attempt that needs a new
/// session opens no socket, whether the socket URL is known or has just
/// been fetched: it ends with an error that says a retry is scheduled, and
/// its last effect sets the alarm for the end of the cooldown.
pub proof fn law_no_socket_during_identify_cooldown(
    s: GatewayStateView,
    creds: GatewayCredentialsView,
    info: GatewayInfo,
    m: Moment,
)
    requires
        !resumable(s),
        !s.reconnect_disabled,
        s.identify_cooldown_until matches Some(c) && m.now < c,
    ensures
        s.ws_url is Some ==> (connect_first_step(s, false, Some(creds), m) matches ConnectStepView::Done(
            es,
            Err((_, retry)),
        ) && retry && es.len() > 0 && es.last() == EffectView::SetAlarmQuietly(
            s.identify_cooldown_until->0,
        )),
        gateway_info_step(
            s,
            Ok::<GatewayInfo, GatewayError>(info),
            false,
            m,
        ) matches ConnectStepView::Done(es, Err((_, retry))) && retry && es.len() > 0 && es.last()
            == EffectView::SetAlarmQuietly(s.identify_cooldown_until->0),
{
}

/// A close that counts an attempt reconnects with backoff; after a code
/// that allows resuming the saved state keeps the session and the next
/// login resumes it, after any other code the session is dropped and the
/// next login cannot resume.
pub proof fn law_close_keeps_session_when_resumable(
    code: u16,
    s: GatewayStateView,
    mem: MemoryView,
    creds: GatewayCredentialsView,
    m: Moment,
)
    requires
        !mem.suppress_reconnect,
        !mem.reconnect_planned,
        close_policy(code).should_reconnect,
        backoff_ok(s),
    ensures
        close_effects(code, s, mem, m)[1] matches EffectView::SaveState(n)
            && n.reconnect_attempts == s.reconnect_attempts + 1 && (close_policy(code).can_resume
            ==> keeps_session(s, n)) && (!close_policy(code).can_resume ==> n.session_id is None
            && n.sequence is None && n.reconnect_strategy == ReconnectStrategy::IdentifyOnly
            && !resumable(n)),
        close_policy(code).can_resume && s.session_id is Some && s.sequence is Some
            ==> (close_effects(code, s, mem, m)[1] matches EffectView::SaveState(n) && login_effects(
            n,
            true,
            Some(creds),
            m,
        ).0 == seq![EffectView::SendResume(s.sequence->0, s.session_id->0, creds.bot_token)]),
{
    let n = backoff_state(
        s,
        Some(
            if close_policy(code).can_resume {
                ReconnectStrategy::ResumeOrIdentify
            } else {
                ReconnectStrategy::IdentifyOnly
            },
        ),
        !close_policy(code).can_resume,
    );
    if close_policy(code).can_resume && s.session_id is Some && s.sequence is Some {
        lemma_kept_session_resumes(s, n, creds, m);
    }
}

/// With no session start left and a reset time, a connection attempt that
/// needs a new session opens no socket: it forgets the socket URL, blocks
/// identifying until the reset, sets the alarm for then, and ends with an
/// error that says a retry is scheduled.
pub proof fn law_no_socket_without_session_starts(
    s: GatewayStateView,
    creds: GatewayCredentialsView,
    m: Moment,
)
    requires
        !resumable(s),
        !s.reconnect_disabled,
        s.ws_url is Some,
        !(s.identify_cooldown_until matches Some(c) && m.now < c),
        s.session_start_remaining == Some(0u32),
        s.session_start_reset_after_ms is Some,
    ensures
        connect_first_step(s, false, Some(creds), m) matches ConnectStepView::Done(
            es,
            Err((_, retry)),
        ) && retry && es.len() == 2 && (es[0] matches EffectView::SaveState(n) && n.ws_url is None
            && n.identify_cooldown_until == Some(
            later(m.now, s.session_start_reset_after_ms->0 as int),
        )) && es[1] == EffectView::SetAlarmQuietly(
            later(m.now, s.session_start_reset_after_ms->0 as int),
        ),
{
}

/// A connection attempt with a known socket URL opens the socket when the
/// session can be resumed, or when a new session may start (no cooldown
/// runs and session starts are not used up): it stores the connection time
/// and keeps the session, and the socket is opened to that URL.
pub proof fn law_connect_opens_socket(s: GatewayStateView, creds: GatewayCredentialsView, m: Moment)
    requires
        !s.reconnect_disabled,
        s.ws_url is Some,
        resumable(s) || (!(s.identify_cooldown_until matches Some(c) && m.now < c) && !(
        s.session_start_remaining == Some(0u32) && s.session_start_reset_after_ms is Some)),
    ensures
        connect_first_step(s, false, Some(creds), m) matches ConnectStepView::OpenSocket(es, n, url)
            && url == s.ws_url->0 && es == seq![EffectView::SaveState(n)] && n.connected_at == Some(
            m.now,
        ) && n.last_heartbeat_ack == Some(m.now) && n.heartbeat_interval_ms is None
            && n.session_id == s.session_id && n.sequence == s.sequence && n.reconnect_strategy
            == s.reconnect_strategy && n.reconnect_attempts == s.reconnect_attempts,
        connect_first_step(s, true, Some(creds), m) == ConnectStepView::Done(
            seq![],
            Ok::<(), (Seq<char>, bool)>(()),
        ),
{
}

} // verus!
