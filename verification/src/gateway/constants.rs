use std::collections::HashSet;
use vstd::prelude::*;

verus! {

broadcast use vstd::std_specs::hash::group_hash_axioms;

/// Storage key of the persisted gateway state.
pub const STATE_KEY: &'static str = "gateway_state";
/// Storage key of the persisted credentials.
pub const CREDENTIALS_KEY: &'static str = "credentials";
/// Version of the gateway protocol that is spoken.
pub const GATEWAY_VERSION: u8 = 10;
/// Endpoint that tells where the gateway is and how many sessions may start.
pub const GATEWAY_BOT_URL: &'static str = "https://discord.com/api/v10/gateway/bot";

/// Upper bound for a backoff delay, in milliseconds.
pub const MAX_BACKOFF_MS: u64 = 300_000;
/// How many server-requested reconnects may happen inside one window.
pub const RECONNECT_RATE_LIMIT: u32 = 5;
/// Length of the reconnect rate window, in milliseconds.
pub const RECONNECT_RATE_WINDOW_MS: u64 = 60_000;
/// Delay of the alarm that is scheduled when an alarm handler fails.
pub const ALARM_FALLBACK_DELAY_MS: u64 = 30_000;
/// How many times an event is posted to the webhook.
pub const WEBHOOK_MAX_ATTEMPTS: u8 = 2;
/// Intended pause between two webhook attempts, in milliseconds.
pub const WEBHOOK_RETRY_DELAY_MS: u64 = 1_000;

/// Close code used for an internal reconnect.
pub const INTERNAL_RECONNECT_CLOSE_CODE: u16 = 3001;

pub const INTENT_GUILDS: u32 = 1;
pub const INTENT_GUILD_MESSAGES: u32 = 512;
pub const INTENT_GUILD_MESSAGE_REACTIONS: u32 = 1024;
pub const INTENT_DIRECT_MESSAGES: u32 = 4096;
pub const INTENT_DIRECT_MESSAGE_REACTIONS: u32 = 8192;
pub const INTENT_MESSAGE_CONTENT: u32 = 32768;

/// The union of the intents above.
pub const GATEWAY_INTENTS: u32 = 46593;

/// Close codes after which no reconnect is attempted.
pub open spec fn non_reconnectable_codes() -> Set<u16> {
    set![4004u16, 4010u16, 4011u16, 4012u16, 4013u16, 4014u16]
}

/// Close codes after which the session cannot be resumed.
pub open spec fn non_resumable_codes() -> Set<u16> {
    set![4003u16, 4007u16, 4009u16]
}

/// The close codes after which the gateway must not reconnect.
pub fn non_reconnectable_close_codes() -> (r: HashSet<u16>)
    ensures
        r@ == non_reconnectable_codes(),
{
    let mut s: HashSet<u16> = HashSet::new();
    s.insert(4004);
    s.insert(4010);
    s.insert(4011);
    s.insert(4012);
    s.insert(4013);
    s.insert(4014);
    assert(s@ =~= non_reconnectable_codes());
    s
}

/// The close codes after which the session must not be resumed.
pub fn non_resumable_close_codes() -> (r: HashSet<u16>)
    ensures
        r@ == non_resumable_codes(),
{
    let mut s: HashSet<u16> = HashSet::new();
    s.insert(4003);
    s.insert(4007);
    s.insert(4009);
    assert(s@ =~= non_resumable_codes());
    s
}

} // verus!
