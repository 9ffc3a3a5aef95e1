use vstd::prelude::*;

use crate::gateway::state::{copy_opt_string, stored_or_initial, GatewayState};

verus! {

/// How far the connection is.
#[derive(Clone, Copy, Debug, PartialEq, Eq, Structural)]
pub enum Status {
    Connected,
    Connecting,
    Disconnected,
}

/// What the status endpoint reports.
#[derive(Debug)]
pub struct GatewayStatus {
    pub status: Status,
    pub session_id: Option<String>,
    pub connected_at: Option<u64>,
    pub sequence: Option<u64>,
    pub reconnect_attempts: u32,
}

/// The status of a connection: connected while a socket is held,
/// connecting while a socket URL is known, disconnected otherwise.
pub open spec fn status_of(ws_url_known: bool, upstream_open: bool) -> Status {
    if upstream_open {
        Status::Connected
    } else if ws_url_known {
        Status::Connecting
    } else {
        Status::Disconnected
    }
}

/// The status of the connection, from the stored state and whether a
/// socket is held.
pub fn gateway_status(stored: &Option<GatewayState>, upstream_open: bool) -> (r: GatewayStatus)
    ensures
        ({
            let s = stored_or_initial(*stored);
            &&& r.status == status_of(s.ws_url is Some, upstream_open)
            &&& crate::gateway::state::opt_view(r.session_id) == s.session_id
            &&& r.connected_at == s.connected_at
            &&& r.sequence == s.sequence
            &&& r.reconnect_attempts == s.reconnect_attempts
        }),
{
    let state = match stored {
        Some(s) => s.clone(),
        None => GatewayState::default(),
    };
    let status = if upstream_open {
        Status::Connected
    } else if state.ws_url.is_some() {
        Status::Connecting
    } else {
        Status::Disconnected
    };
    GatewayStatus {
        status,
        session_id: copy_opt_string(&state.session_id),
        connected_at: state.connected_at,
        sequence: state.sequence,
        reconnect_attempts: state.reconnect_attempts,
    }
}

/// Whether a connect request finds the gateway connected already: the
/// stored state records a connection time.
pub fn is_already_connected(stored: &Option<GatewayState>) -> (r: bool)
    ensures
        r == (stored is Some && stored->0.connected_at is Some),
{
    match stored {
        Some(s) => s.connected_at.is_some(),
        None => false,
    }
}

} // verus!
