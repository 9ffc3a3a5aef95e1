use vstd::prelude::*;

verus! {

/// How the next connection is established.
#[derive(Clone, Copy, Debug, PartialEq, Eq, Structural)]
pub enum ReconnectStrategy {
    /// Resume the session when one is known, identify otherwise.
    ResumeOrIdentify,
    /// Always start a new session.
    IdentifyOnly,
}

/// The persisted state of the gateway connection.
///
/// Points in time are milliseconds since the Unix epoch, the unit of the
/// worker's clock.
#[derive(Debug)]
pub struct GatewayState {
    pub ws_url: Option<String>,
    pub resume_gateway_url: Option<String>,
    pub session_id: Option<String>,
    pub sequence: Option<u64>,
    pub heartbeat_interval_ms: Option<u64>,
    pub last_heartbeat_ack: Option<u64>,
    pub connected_at: Option<u64>,
    pub reconnect_attempts: u32,
    pub reconnect_strategy: ReconnectStrategy,
    pub identify_cooldown_until: Option<u64>,
    pub session_start_remaining: Option<u32>,
    pub session_start_reset_after_ms: Option<u64>,
    pub session_start_total: Option<u32>,
    pub session_start_max_concurrency: Option<u32>,
    pub reconnect_disabled: bool,
}

/// The state as mathematical values: texts are sequences of characters.
pub struct GatewayStateView {
    pub ws_url: Option<Seq<char>>,
    pub resume_gateway_url: Option<Seq<char>>,
    pub session_id: Option<Seq<char>>,
    pub sequence: Option<u64>,
    pub heartbeat_interval_ms: Option<u64>,
    pub last_heartbeat_ack: Option<u64>,
    pub connected_at: Option<u64>,
    pub reconnect_attempts: u32,
    pub reconnect_strategy: ReconnectStrategy,
    pub identify_cooldown_until: Option<u64>,
    pub session_start_remaining: Option<u32>,
    pub session_start_reset_after_ms: Option<u64>,
    pub session_start_total: Option<u32>,
    pub session_start_max_concurrency: Option<u32>,
    pub reconnect_disabled: bool,
}

/// The view of an optional string.
pub open spec fn opt_view(o: Option<String>) -> Option<Seq<char>> {
    match o {
        Some(s) => Some(s@),
        None => None,
    }
}

impl View for GatewayState {
    type V = GatewayStateView;

    open spec fn view(&self) -> GatewayStateView {
        GatewayStateView {
            ws_url: opt_view(self.ws_url),
            resume_gateway_url: opt_view(self.resume_gateway_url),
            session_id: opt_view(self.session_id),
            sequence: self.sequence,
            heartbeat_interval_ms: self.heartbeat_interval_ms,
            last_heartbeat_ack: self.last_heartbeat_ack,
            connected_at: self.connected_at,
            reconnect_attempts: self.reconnect_attempts,
            reconnect_strategy: self.reconnect_strategy,
            identify_cooldown_until: self.identify_cooldown_until,
            session_start_remaining: self.session_start_remaining,
            session_start_reset_after_ms: self.session_start_reset_after_ms,
            session_start_total: self.session_start_total,
            session_start_max_concurrency: self.session_start_max_concurrency,
            reconnect_disabled: self.reconnect_disabled,
        }
    }
}

/// The state of a gateway that has never connected.
pub open spec fn initial_view() -> GatewayStateView {
    GatewayStateView {
        ws_url: None,
        resume_gateway_url: None,
        session_id: None,
        sequence: None,
        heartbeat_interval_ms: None,
        last_heartbeat_ack: None,
        connected_at: None,
        reconnect_attempts: 0,
        reconnect_strategy: ReconnectStrategy::ResumeOrIdentify,
        identify_cooldown_until: None,
        session_start_remaining: None,
        session_start_reset_after_ms: None,
        session_start_total: None,
        session_start_max_concurrency: None,
        reconnect_disabled: false,
    }
}

/// The stored state, or the initial one when nothing is stored.
pub open spec fn stored_or_initial(stored: Option<GatewayState>) -> GatewayStateView {
    match stored {
        Some(s) => s@,
        None => initial_view(),
    }
}

/// The state of a gateway that has never connected.
pub open spec fn initial_state() -> GatewayState {
    GatewayState {
        ws_url: None,
        resume_gateway_url: None,
        session_id: None,
        sequence: None,
        heartbeat_interval_ms: None,
        last_heartbeat_ack: None,
        connected_at: None,
        reconnect_attempts: 0,
        reconnect_strategy: ReconnectStrategy::ResumeOrIdentify,
        identify_cooldown_until: None,
        session_start_remaining: None,
        session_start_reset_after_ms: None,
        session_start_total: None,
        session_start_max_concurrency: None,
        reconnect_disabled: false,
    }
}

impl Default for GatewayState {
    fn default() -> (r: Self)
        ensures
            r == initial_state(),
            r@ == initial_view(),
    {
        GatewayState {
            ws_url: None,
            resume_gateway_url: None,
            session_id: None,
            sequence: None,
            heartbeat_interval_ms: None,
            last_heartbeat_ack: None,
            connected_at: None,
            reconnect_attempts: 0,
            reconnect_strategy: ReconnectStrategy::ResumeOrIdentify,
            identify_cooldown_until: None,
            session_start_remaining: None,
            session_start_reset_after_ms: None,
            session_start_total: None,
            session_start_max_concurrency: None,
            reconnect_disabled: false,
        }
    }
}

/// A copy of an optional string.
pub fn copy_opt_string(o: &Option<String>) -> (r: Option<String>)
    ensures
        r == *o,
{
    match o {
        Some(s) => Some(s.clone()),
        None => None,
    }
}

impl Clone for GatewayState {
    fn clone(&self) -> (r: Self)
        ensures
            r == *self,
    {
        GatewayState {
            ws_url: copy_opt_string(&self.ws_url),
            resume_gateway_url: copy_opt_string(&self.resume_gateway_url),
            session_id: copy_opt_string(&self.session_id),
            sequence: self.sequence,
            heartbeat_interval_ms: self.heartbeat_interval_ms,
            last_heartbeat_ack: self.last_heartbeat_ack,
            connected_at: self.connected_at,
            reconnect_attempts: self.reconnect_attempts,
            reconnect_strategy: self.reconnect_strategy,
            identify_cooldown_until: self.identify_cooldown_until,
            session_start_remaining: self.session_start_remaining,
            session_start_reset_after_ms: self.session_start_reset_after_ms,
            session_start_total: self.session_start_total,
            session_start_max_concurrency: self.session_start_max_concurrency,
            reconnect_disabled: self.reconnect_disabled,
        }
    }
}

} // verus!
