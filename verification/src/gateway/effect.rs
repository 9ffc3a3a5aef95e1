use vstd::prelude::*;

use crate::gateway::credentials::{GatewayCredentials, GatewayCredentialsView};
use crate::gateway::event::EventKind;
use crate::gateway::state::{GatewayState, GatewayStateView};

verus! {

/// One thing that a decision of the gateway asks the durable object to do.
///
/// The object performs the effects of a decision in order. Writing to the
/// storage, setting or deleting the alarm and sending on the socket can
/// fail: the first failure ends the decision with that error and the
/// remaining effects are not performed. Closing the socket and setting an
/// alarm quietly never end a decision.
#[derive(Debug)]
pub enum GatewayEffect {
    StoreCredentials(GatewayCredentials),
    DeleteCredentials,
    SaveState(GatewayState),
    DeleteState,
    SetAlarm(u64),
    SetAlarmQuietly(u64),
    DeleteAlarm,
    /// Take the open socket, if any, and close it with a code and a reason.
    CloseSocket(u16, String),
    /// Forget the open socket without closing it.
    ClearUpstream,
    /// Send a resume payload: sequence, session id, token.
    SendResume(u64, String, String),
    /// Send an identify payload with the token.
    SendIdentify(String),
    /// Send a heartbeat with the last sequence number.
    SendHeartbeat(Option<u64>),
    SetSuppressReconnect(bool),
    SetReconnectPlanned(bool),
    SetReconnectDisabled(bool),
    SetReconnectTimestamps(Vec<u64>),
    /// Post the current dispatch event to the webhook.
    ForwardEvent(EventKind),
}

/// An effect as mathematical values.
pub enum EffectView {
    StoreCredentials(GatewayCredentialsView),
    DeleteCredentials,
    SaveState(GatewayStateView),
    DeleteState,
    SetAlarm(u64),
    SetAlarmQuietly(u64),
    DeleteAlarm,
    CloseSocket(u16, Seq<char>),
    ClearUpstream,
    SendResume(u64, Seq<char>, Seq<char>),
    SendIdentify(Seq<char>),
    SendHeartbeat(Option<u64>),
    SetSuppressReconnect(bool),
    SetReconnectPlanned(bool),
    SetReconnectDisabled(bool),
    SetReconnectTimestamps(Seq<u64>),
    ForwardEvent(EventKind),
}

impl View for GatewayEffect {
    type V = EffectView;

    open spec fn view(&self) -> EffectView {
        match self {
            GatewayEffect::StoreCredentials(c) => EffectView::StoreCredentials(c@),
            GatewayEffect::DeleteCredentials => EffectView::DeleteCredentials,
            GatewayEffect::SaveState(s) => EffectView::SaveState(s@),
            GatewayEffect::DeleteState => EffectView::DeleteState,
            GatewayEffect::SetAlarm(t) => EffectView::SetAlarm(*t),
            GatewayEffect::SetAlarmQuietly(t) => EffectView::SetAlarmQuietly(*t),
            GatewayEffect::DeleteAlarm => EffectView::DeleteAlarm,
            GatewayEffect::CloseSocket(c, r) => EffectView::CloseSocket(*c, r@),
            GatewayEffect::ClearUpstream => EffectView::ClearUpstream,
            GatewayEffect::SendResume(q, s, t) => EffectView::SendResume(*q, s@, t@),
            GatewayEffect::SendIdentify(t) => EffectView::SendIdentify(t@),
            GatewayEffect::SendHeartbeat(q) => EffectView::SendHeartbeat(*q),
            GatewayEffect::SetSuppressReconnect(b) => EffectView::SetSuppressReconnect(*b),
            GatewayEffect::SetReconnectPlanned(b) => EffectView::SetReconnectPlanned(*b),
            GatewayEffect::SetReconnectDisabled(b) => EffectView::SetReconnectDisabled(*b),
            GatewayEffect::SetReconnectTimestamps(v) => EffectView::SetReconnectTimestamps(v@),
            GatewayEffect::ForwardEvent(k) => EffectView::ForwardEvent(*k),
        }
    }
}

/// The views of a list of effects.
pub open spec fn effects_view(v: Seq<GatewayEffect>) -> Seq<EffectView> {
    v.map_values(|e: GatewayEffect| e@)
}

/// Appends an effect to a list of effects.
pub fn emit(effects: &mut Vec<GatewayEffect>, e: GatewayEffect)
    ensures
        effects_view(final(effects)@) == effects_view(old(effects)@).push(e@),
{
    let ghost before = effects@;
    effects.push(e);
    assert(effects_view(effects@) =~= effects_view(before).push(e@));
}

/// Appends a list of effects to another.
pub fn emit_all(effects: &mut Vec<GatewayEffect>, more: Vec<GatewayEffect>)
    ensures
        effects_view(final(effects)@) == effects_view(old(effects)@) + effects_view(more@),
{
    let ghost before = effects@;
    let ghost added = more@;
    let mut more = more;
    effects.append(&mut more);
    assert(effects_view(effects@) =~= effects_view(before) + effects_view(added));
}

/// The in-memory flags of the durable object: they do not survive an
/// eviction.
#[derive(Debug)]
pub struct GatewayMemory {
    /// Whether a socket to the gateway is held.
    pub upstream_open: bool,
    /// The next close or error event of the socket comes from a disconnect.
    pub suppress_reconnect: bool,
    /// The next close event of the socket comes from a planned reconnect.
    pub reconnect_planned: bool,
    /// A terminal close code was received: alarms do nothing.
    pub reconnect_disabled: bool,
    /// When the recent server-requested reconnects happened.
    pub reconnect_timestamps: Vec<u64>,
}

/// The flags as mathematical values.
pub struct MemoryView {
    pub upstream_open: bool,
    pub suppress_reconnect: bool,
    pub reconnect_planned: bool,
    pub reconnect_disabled: bool,
    pub reconnect_timestamps: Seq<u64>,
}

impl View for GatewayMemory {
    type V = MemoryView;

    open spec fn view(&self) -> MemoryView {
        MemoryView {
            upstream_open: self.upstream_open,
            suppress_reconnect: self.suppress_reconnect,
            reconnect_planned: self.reconnect_planned,
            reconnect_disabled: self.reconnect_disabled,
            reconnect_timestamps: self.reconnect_timestamps@,
        }
    }
}

impl GatewayMemory {
    /// The flags of a freshly started object.
    pub fn new() -> (r: Self)
        ensures
            r@ == fresh_memory(),
    {
        GatewayMemory {
            upstream_open: false,
            suppress_reconnect: false,
            reconnect_planned: false,
            reconnect_disabled: false,
            reconnect_timestamps: Vec::new(),
        }
    }
}

pub open spec fn fresh_memory() -> MemoryView {
    MemoryView {
        upstream_open: false,
        suppress_reconnect: false,
        reconnect_planned: false,
        reconnect_disabled: false,
        reconnect_timestamps: Seq::empty(),
    }
}

/// What the storage of the durable object holds.
pub struct StorageView {
    pub state: Option<GatewayStateView>,
    pub credentials: Option<GatewayCredentialsView>,
    pub alarm: Option<u64>,
}

/// The durable object as the decisions see it: its flags and its storage.
pub struct WorldView {
    pub memory: MemoryView,
    pub storage: StorageView,
}

/// The object after one effect was performed successfully.
pub open spec fn apply_effect(w: WorldView, e: EffectView) -> WorldView {
    let m = w.memory;
    let s = w.storage;
    match e {
        EffectView::StoreCredentials(c) => WorldView {
            storage: StorageView { credentials: Some(c), ..s },
            ..w
        },
        EffectView::DeleteCredentials => WorldView {
            storage: StorageView { credentials: None, ..s },
            ..w
        },
        EffectView::SaveState(st) => WorldView { storage: StorageView { state: Some(st), ..s }, ..w },
        EffectView::DeleteState => WorldView { storage: StorageView { state: None, ..s }, ..w },
        EffectView::SetAlarm(t) => WorldView { storage: StorageView { alarm: Some(t), ..s }, ..w },
        EffectView::SetAlarmQuietly(t) => WorldView {
            storage: StorageView { alarm: Some(t), ..s },
            ..w
        },
        EffectView::DeleteAlarm => WorldView { storage: StorageView { alarm: None, ..s }, ..w },
        EffectView::CloseSocket(_, _) => WorldView {
            memory: MemoryView { upstream_open: false, ..m },
            ..w
        },
        EffectView::ClearUpstream => WorldView {
            memory: MemoryView { upstream_open: false, ..m },
            ..w
        },
        EffectView::SetSuppressReconnect(b) => WorldView {
            memory: MemoryView { suppress_reconnect: b, ..m },
            ..w
        },
        EffectView::SetReconnectPlanned(b) => WorldView {
            memory: MemoryView { reconnect_planned: b, ..m },
            ..w
        },
        EffectView::SetReconnectDisabled(b) => WorldView {
            memory: MemoryView { reconnect_disabled: b, ..m },
            ..w
        },
        EffectView::SetReconnectTimestamps(ts) => WorldView {
            memory: MemoryView { reconnect_timestamps: ts, ..m },
            ..w
        },
        _ => w,
    }
}

/// The object after a list of effects was performed successfully.
pub open spec fn apply_effects(w: WorldView, es: Seq<EffectView>) -> WorldView
    decreases es.len(),
{
    if es.len() == 0 {
        w
    } else {
        apply_effect(apply_effects(w, es.drop_last()), es.last())
    }
}

/// The outcome of a decision: the effects to perform, then an error to
/// report, if any.
#[derive(Debug)]
pub struct Flow {
    pub effects: Vec<GatewayEffect>,
    pub error: Option<String>,
}

} // verus!
