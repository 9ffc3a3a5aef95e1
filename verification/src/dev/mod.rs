//! Commands that help while a bot is developed.

use vstd::prelude::*;

use crate::models::command::ADMINISTRATOR;

verus! {

/// The `/dev` command group: synchronising commands and showing the
/// version.
#[derive(Clone, Copy, Debug, PartialEq, Eq)]
pub struct DevCommands;

impl DevCommands {
    pub fn name(&self) -> (r: String)
        ensures
            r@ == "dev"@,
    {
        String::from_str("dev")
    }

    pub fn description(&self) -> (r: String)
        ensures
            r@ == "Useful set of commands that can be used to manage the bot while in development mode"@,
    {
        String::from_str(
            "Useful set of commands that can be used to manage the bot while in development mode",
        )
    }

    /// Only administrators see the group.
    pub fn default_member_permissions(&self) -> (r: Option<u64>)
        ensures
            r == Some(ADMINISTRATOR),
    {
        Some(ADMINISTRATOR)
    }

    /// The names of the subcommands, in order: `sync`, then `version`.
    pub fn subcommands(&self) -> (r: Vec<String>)
        ensures
            r@.len() == 2,
            r@[0]@ == "sync"@,
            r@[1]@ == "version"@,
    {
        let mut v: Vec<String> = Vec::new();
        v.push(SyncCommand.name());
        v.push(VersionCommand.name());
        v
    }
}

/// The subcommand that sends the registered commands to Discord.
pub struct SyncCommand;

impl SyncCommand {
    pub fn name(&self) -> (r: String)
        ensures
            r@ == "sync"@,
    {
        String::from_str("sync")
    }

    pub fn description(&self) -> (r: String)
        ensures
            r@ == "A command used to sync newly created commands with the discord api"@,
    {
        String::from_str("A command used to sync newly created commands with the discord api")
    }

    /// The message shown once the commands are synchronised.
    pub fn completed_message(&self) -> (r: String)
        ensures
            r@ == "Commands sync completed successfully!"@,
    {
        String::from_str("Commands sync completed successfully!")
    }
}

/// The subcommand that shows which version of the bot runs.
pub struct VersionCommand;

impl VersionCommand {
    pub fn name(&self) -> (r: String)
        ensures
            r@ == "version"@,
    {
        String::from_str("version")
    }

    pub fn description(&self) -> (r: String)
        ensures
            r@ == "A command used to get version information of the bot"@,
    {
        String::from_str("A command used to get version information of the bot")
    }
}

} // verus!
