//! The commands that every bot can offer.

use vstd::prelude::*;

use crate::models::command::ADMINISTRATOR;

verus! {

/// The `/bot` command group, for administrators.
pub struct DefaultBotCommands;

impl DefaultBotCommands {
    pub fn name(&self) -> (r: String)
        ensures
            r@ == "bot"@,
    {
        String::from_str("bot")
    }

    pub fn description(&self) -> (r: String)
        ensures
            r@ == "Useful set of commands that can be used to manage the bot"@,
    {
        String::from_str("Useful set of commands that can be used to manage the bot")
    }

    /// Only administrators see the group.
    pub fn default_member_permissions(&self) -> (r: Option<u64>)
        ensures
            r == Some(ADMINISTRATOR),
    {
        Some(ADMINISTRATOR)
    }
}

} // verus!
