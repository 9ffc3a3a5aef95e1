//! Checks on the headers of incoming requests.

use vstd::prelude::*;

use crate::text::{chars_eq, chars_of};

verus! {

/// The user agent that Discord sends interactions with.
pub const DISCORD_USER_AGENT: &'static str = "Discord-Interactions/1.0 (+https://discord.com)";

/// Whether a request is an interaction from Discord: it carries a
/// signature and Discord's user agent.
pub fn is_interaction(signed: bool, user_agent: Option<&str>) -> (r: bool)
    ensures
        r == (signed && (user_agent matches Some(ua) && ua@ == DISCORD_USER_AGENT@)),
{
    if !signed {
        return false;
    }
    match user_agent {
        Some(ua) => {
            let given = chars_of(ua);
            let expected = chars_of(DISCORD_USER_AGENT);
            chars_eq(given.as_slice(), expected.as_slice())
        },
        None => false,
    }
}

/// Whether a request may use the API: its `bot-token` header is the
/// expected token.
pub fn has_api_access(bot_token: Option<&str>, expected_token: &str) -> (r: bool)
    ensures
        r == (bot_token matches Some(t) && t@ == expected_token@),
{
    match bot_token {
        Some(t) => {
            let given = chars_of(t);
            let expected = chars_of(expected_token);
            chars_eq(given.as_slice(), expected.as_slice())
        },
        None => false,
    }
}

} // verus!
